//! A person whose weight carries its unit as a tag at run time.
//!
//! Both conversions can be called on every weight, whatever its unit. On a
//! weight that is already in the unit asked for they do nothing.

use crate::scale::{
    kilograms_of, kilograms_to_pounds, lemma_kilograms_round_trip, pounds_of, pounds_to_kilograms,
    LAST_EXACT_KILOGRAMS,
};
use crate::text::{kilogram_text, person_text, pound_text, render_kilograms, render_person, render_pounds};
use vstd::prelude::*;
use vstd::string::*;

verus! {

/// A magnitude together with its unit.
#[derive(Copy, Clone, Debug)]
pub enum Weight {
    Kilogram(u16),
    Pound(u16),
}

impl Weight {
    /// The magnitude, whatever the unit.
    pub open spec fn magnitude(self) -> u16 {
        match self {
            Weight::Kilogram(magnitude) => magnitude,
            Weight::Pound(magnitude) => magnitude,
        }
    }

    /// This weight in pounds: converted if it is in kilograms, else itself.
    pub open spec fn in_pounds(self) -> Weight {
        match self {
            Weight::Kilogram(magnitude) => Weight::Pound(pounds_of(magnitude)),
            Weight::Pound(_) => self,
        }
    }

    /// This weight in kilograms: converted if it is in pounds, else itself.
    pub open spec fn in_kilograms(self) -> Weight {
        match self {
            Weight::Pound(magnitude) => Weight::Kilogram(kilograms_of(magnitude)),
            Weight::Kilogram(_) => self,
        }
    }

    /// The text that `render` writes: the magnitude and the unit's word.
    pub open spec fn rendered(self) -> Seq<char> {
        match self {
            Weight::Kilogram(magnitude) => kilogram_text(magnitude),
            Weight::Pound(magnitude) => pound_text(magnitude),
        }
    }

    /// Converts to pounds. A weight in pounds comes back unchanged.
    pub fn to_pounds(self) -> (pounds: Self)
        ensures
            pounds == self.in_pounds(),
            pounds is Pound,
            self is Pound ==> pounds == self,
    {
        if let Weight::Kilogram(magnitude) = self {
            Weight::Pound(kilograms_to_pounds(magnitude))
        } else {
            self
        }
    }

    /// Converts to kilograms. A weight in kilograms comes back unchanged.
    pub fn to_kilograms(self) -> (kilograms: Self)
        ensures
            kilograms == self.in_kilograms(),
            kilograms is Kilogram,
            self is Kilogram ==> kilograms == self,
    {
        if let Weight::Pound(magnitude) = self {
            Weight::Kilogram(pounds_to_kilograms(magnitude))
        } else {
            self
        }
    }

    /// The weight as text.
    pub fn render(&self) -> (text: String)
        ensures
            text@ == self.rendered(),
    {
        match self {
            Weight::Kilogram(magnitude) => render_kilograms(*magnitude),
            Weight::Pound(magnitude) => render_pounds(*magnitude),
        }
    }
}

/// A person with a name and a tagged weight.
#[derive(Debug)]
pub struct Person {
    name: String,
    weight: Weight,
}

impl Clone for Person {
    fn clone(&self) -> (copy: Self)
        ensures
            copy == *self,
    {
        Self { name: self.name.clone(), weight: self.weight }
    }
}

impl Person {
    /// The person's name.
    pub closed spec fn name(&self) -> Seq<char> {
        self.name@
    }

    /// The person's weight.
    pub closed spec fn weight(&self) -> Weight {
        self.weight
    }

    /// The text that `render` writes.
    pub open spec fn rendered(&self) -> Seq<char> {
        person_text(self.name(), self.weight().rendered())
    }

    /// A person with this name and this weight.
    pub fn new(name: &str, weight: Weight) -> (person: Self)
        ensures
            person.name() == name@,
            person.weight() == weight,
    {
        Self { name: String::from_str(name), weight }
    }

    /// Restates the weight in kilograms, in place. The name stays.
    pub fn represent_in_kilograms(&mut self)
        ensures
            final(self).name() == old(self).name(),
            final(self).weight() == old(self).weight().in_kilograms(),
    {
        self.weight = self.weight.to_kilograms()
    }

    /// Restates the weight in pounds, in place. The name stays.
    pub fn represent_in_pounds(&mut self)
        ensures
            final(self).name() == old(self).name(),
            final(self).weight() == old(self).weight().in_pounds(),
    {
        self.weight = self.weight.to_pounds()
    }

    /// The person as a line of text: the name, then the weight with its unit.
    pub fn render(&self) -> (text: String)
        ensures
            text@ == self.rendered(),
    {
        let weight = self.weight.render();
        render_person(self.name.as_str(), weight.as_str())
    }
}

/// A conversion changes nothing on a weight that is already in the unit
/// asked for, so a conversion done twice is the conversion done once.
pub proof fn lemma_conversion_idempotent(weight: Weight)
    ensures
        weight is Kilogram ==> weight.in_kilograms() == weight,
        weight is Pound ==> weight.in_pounds() == weight,
        weight.in_kilograms().in_kilograms() == weight.in_kilograms(),
        weight.in_pounds().in_pounds() == weight.in_pounds(),
{
}

/// Kilograms that are restated in pounds and then in kilograms are the same
/// weight, as long as the pounds fit a magnitude.
pub proof fn lemma_kilograms_come_back(magnitude: u16)
    requires
        magnitude <= LAST_EXACT_KILOGRAMS,
    ensures
        Weight::Kilogram(magnitude).in_pounds().in_kilograms() == Weight::Kilogram(magnitude),
{
    lemma_kilograms_round_trip(magnitude);
}

} // verus!
