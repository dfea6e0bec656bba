//! A person whose weight is a bare number.
//!
//! Nothing says whether the number counts kilograms or pounds, and so no
//! conversion can be offered: the later modules mend that.

use crate::text::{decimal, person_text, render_decimal, render_person};
use vstd::prelude::*;
use vstd::string::*;

verus! {

/// A person with a name and a weight of unknown unit.
#[derive(Debug)]
pub struct Person {
    name: String,
    weight: u16,
}

impl Clone for Person {
    fn clone(&self) -> (copy: Self)
        ensures
            copy == *self,
    {
        Self { name: self.name.clone(), weight: self.weight }
    }
}

impl Person {
    /// The person's name.
    pub closed spec fn name(&self) -> Seq<char> {
        self.name@
    }

    /// The person's weight, in no stated unit.
    pub closed spec fn weight(&self) -> u16 {
        self.weight
    }

    /// The text that `render` writes.
    pub open spec fn rendered(&self) -> Seq<char> {
        person_text(self.name(), decimal(self.weight() as nat))
    }

    /// A person with this name and this weight.
    pub fn new(name: &str, weight: u16) -> (person: Self)
        ensures
            person.name() == name@,
            person.weight() == weight,
    {
        Self { name: String::from_str(name), weight }
    }

    /// The person as a line of text: the name, then the bare magnitude.
    pub fn render(&self) -> (text: String)
        ensures
            text@ == self.rendered(),
    {
        let weight = render_decimal(self.weight);
        render_person(self.name.as_str(), weight.as_str())
    }
}

} // verus!
