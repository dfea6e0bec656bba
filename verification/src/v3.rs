//! A person whose weight carries its unit in its type.
//!
//! A weight in pounds can only be converted to kilograms and a weight in
//! kilograms only to pounds: the other calls do not exist. A conversion takes
//! the old value and gives a new one, of the other type.

use crate::scale::{kilograms_of, kilograms_to_pounds, pounds_of, pounds_to_kilograms};
use crate::text::{kilogram_text, person_text, pound_text, render_kilograms, render_person, render_pounds};
use std::marker::PhantomData;
use vstd::prelude::*;
use vstd::string::*;

verus! {

/// The unit kilogram. It marks a type and holds nothing.
pub struct Kilogram;

/// The unit pound. It marks a type and holds nothing.
pub struct Pound;

/// A magnitude in the unit `T`.
#[derive(Debug)]
pub struct Weight<T> {
    _data: PhantomData<T>,
    value: u16,
}

impl<T> Weight<T> {
    /// The magnitude.
    pub closed spec fn value(self) -> u16 {
        self.value
    }

    /// The weight of this magnitude in the unit `T`.
    pub fn new(value: u16) -> (weight: Self)
        ensures
            weight.value() == value,
    {
        Self { _data: PhantomData, value }
    }
}

impl<T: Clone> Clone for Weight<T> {
    fn clone(&self) -> (copy: Self)
        ensures
            copy == *self,
    {
        Weight::new(self.value)
    }
}

impl<T: Copy> Copy for Weight<T> {

}

impl Weight<Pound> {
    /// The text that `render` writes.
    pub open spec fn rendered(self) -> Seq<char> {
        pound_text(self.value())
    }

    /// Converts pounds to kilograms.
    pub fn to_kilograms(self) -> (kilograms: Weight<Kilogram>)
        ensures
            kilograms.value() == kilograms_of(self.value()),
    {
        Weight::new(pounds_to_kilograms(self.value))
    }

    /// The weight as text: the magnitude and `pound`.
    pub fn render(&self) -> (text: String)
        ensures
            text@ == self.rendered(),
    {
        render_pounds(self.value)
    }
}

impl Weight<Kilogram> {
    /// The text that `render` writes.
    pub open spec fn rendered(self) -> Seq<char> {
        kilogram_text(self.value())
    }

    /// Converts kilograms to pounds.
    pub fn to_pounds(self) -> (pounds: Weight<Pound>)
        ensures
            pounds.value() == pounds_of(self.value()),
    {
        Weight::new(kilograms_to_pounds(self.value))
    }

    /// The weight as text: the magnitude and `kg`.
    pub fn render(&self) -> (text: String)
        ensures
            text@ == self.rendered(),
    {
        render_kilograms(self.value)
    }
}

/// A person with a name and a weight in the unit `T`.
#[derive(Debug)]
pub struct Person<T> {
    name: String,
    weight: Weight<T>,
}

impl<T: Clone> Clone for Person<T> {
    fn clone(&self) -> (copy: Self)
        ensures
            copy == *self,
    {
        Self { name: self.name.clone(), weight: self.weight.clone() }
    }
}

impl<T> Person<T> {
    /// The person's name.
    pub closed spec fn name(&self) -> Seq<char> {
        self.name@
    }

    /// The magnitude of the person's weight.
    pub closed spec fn weight(&self) -> u16 {
        self.weight.value()
    }

    /// A person with this name and this magnitude, in the unit that the
    /// caller's type names.
    pub fn new(name: &str, weight: u16) -> (person: Self)
        ensures
            person.name() == name@,
            person.weight() == weight,
    {
        Self { name: String::from_str(name), weight: Weight::new(weight) }
    }
}

impl Person<Pound> {
    /// The text that `render` writes.
    pub open spec fn rendered(&self) -> Seq<char> {
        person_text(self.name(), pound_text(self.weight()))
    }

    /// The same person with the weight in kilograms.
    pub fn represent_in_kilograms(self) -> (person: Person<Kilogram>)
        ensures
            person.name() == self.name(),
            person.weight() == kilograms_of(self.weight()),
    {
        Person { name: self.name, weight: self.weight.to_kilograms() }
    }

    /// The person as a line of text: the name, then the weight in pounds.
    pub fn render(&self) -> (text: String)
        ensures
            text@ == self.rendered(),
    {
        let weight = self.weight.render();
        render_person(self.name.as_str(), weight.as_str())
    }
}

impl Person<Kilogram> {
    /// The text that `render` writes.
    pub open spec fn rendered(&self) -> Seq<char> {
        person_text(self.name(), kilogram_text(self.weight()))
    }

    /// The same person with the weight in pounds.
    pub fn represent_in_pounds(self) -> (person: Person<Pound>)
        ensures
            person.name() == self.name(),
            person.weight() == pounds_of(self.weight()),
    {
        Person { weight: self.weight.to_pounds(), name: self.name }
    }

    /// The person as a line of text: the name, then the weight in kilograms.
    pub fn render(&self) -> (text: String)
        ensures
            text@ == self.rendered(),
    {
        let weight = self.weight.render();
        render_person(self.name.as_str(), weight.as_str())
    }
}

} // verus!
