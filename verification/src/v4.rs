//! A person whose weight carries its unit in its type, converted through `From`.
//!
//! The data are those of `v3`. Here both directions are impls of `From`, so
//! that one call, `into`, converts either way: the type asked for chooses the
//! direction, and the call no longer names it.

use crate::scale::{kilograms_of, kilograms_to_pounds, pounds_of, pounds_to_kilograms};
use crate::text::{kilogram_text, person_text, pound_text, render_kilograms, render_person, render_pounds};
use std::marker::PhantomData;
use vstd::prelude::*;
use vstd::std_specs::convert::FromSpecImpl;
use vstd::string::*;

verus! {

/// The unit kilogram. It marks a type and holds nothing.
pub struct Kilogram;

/// The unit pound. It marks a type and holds nothing.
pub struct Pound;

/// A magnitude in the unit `T`.
#[derive(Debug)]
pub struct Weight<T> {
    _data: PhantomData<T>,
    value: u16,
}

impl<T> Weight<T> {
    /// The magnitude.
    pub closed spec fn value(self) -> u16 {
        self.value
    }

    /// The weight of this magnitude in the unit `T`.
    pub fn new(value: u16) -> (weight: Self)
        ensures
            weight.value() == value,
    {
        Self { _data: PhantomData, value }
    }
}

impl<T: Clone> Clone for Weight<T> {
    fn clone(&self) -> (copy: Self)
        ensures
            copy == *self,
    {
        Weight::new(self.value)
    }
}

impl<T: Copy> Copy for Weight<T> {

}

impl Weight<Pound> {
    /// The text that `render` writes.
    pub open spec fn rendered(self) -> Seq<char> {
        pound_text(self.value())
    }

    /// The weight as text: the magnitude and `pound`.
    pub fn render(&self) -> (text: String)
        ensures
            text@ == self.rendered(),
    {
        render_pounds(self.value)
    }
}

impl Weight<Kilogram> {
    /// The text that `render` writes.
    pub open spec fn rendered(self) -> Seq<char> {
        kilogram_text(self.value())
    }

    /// The weight as text: the magnitude and `kg`.
    pub fn render(&self) -> (text: String)
        ensures
            text@ == self.rendered(),
    {
        render_kilograms(self.value)
    }
}

/// Pounds become kilograms.
impl From<Weight<Pound>> for Weight<Kilogram> {
    fn from(weight: Weight<Pound>) -> (kilograms: Self)
        ensures
            kilograms.value() == kilograms_of(weight.value()),
    {
        Weight::new(pounds_to_kilograms(weight.value))
    }
}

impl FromSpecImpl<Weight<Pound>> for Weight<Kilogram> {
    open spec fn obeys_from_spec() -> bool {
        true
    }

    closed spec fn from_spec(weight: Weight<Pound>) -> Self {
        Weight { _data: PhantomData, value: kilograms_of(weight.value) }
    }
}

/// Kilograms become pounds.
impl From<Weight<Kilogram>> for Weight<Pound> {
    fn from(weight: Weight<Kilogram>) -> (pounds: Self)
        ensures
            pounds.value() == pounds_of(weight.value()),
    {
        Weight::new(kilograms_to_pounds(weight.value))
    }
}

impl FromSpecImpl<Weight<Kilogram>> for Weight<Pound> {
    open spec fn obeys_from_spec() -> bool {
        true
    }

    closed spec fn from_spec(weight: Weight<Kilogram>) -> Self {
        Weight { _data: PhantomData, value: pounds_of(weight.value) }
    }
}

/// A person with a name and a weight in the unit `T`.
#[derive(Debug)]
pub struct Person<T> {
    name: String,
    weight: Weight<T>,
}

impl<T: Clone> Clone for Person<T> {
    fn clone(&self) -> (copy: Self)
        ensures
            copy == *self,
    {
        Self { name: self.name.clone(), weight: self.weight.clone() }
    }
}

impl<T> Person<T> {
    /// The person's name.
    pub closed spec fn name(&self) -> Seq<char> {
        self.name@
    }

    /// The magnitude of the person's weight.
    pub closed spec fn weight(&self) -> u16 {
        self.weight.value()
    }

    /// A person with this name and this magnitude, in the unit that the
    /// caller's type names.
    pub fn new(name: &str, weight: u16) -> (person: Self)
        ensures
            person.name() == name@,
            person.weight() == weight,
    {
        Self { name: String::from_str(name), weight: Weight::new(weight) }
    }
}

impl Person<Pound> {
    /// The text that `render` writes.
    pub open spec fn rendered(&self) -> Seq<char> {
        person_text(self.name(), pound_text(self.weight()))
    }

    /// The person as a line of text: the name, then the weight in pounds.
    pub fn render(&self) -> (text: String)
        ensures
            text@ == self.rendered(),
    {
        let weight = self.weight.render();
        render_person(self.name.as_str(), weight.as_str())
    }
}

impl Person<Kilogram> {
    /// The text that `render` writes.
    pub open spec fn rendered(&self) -> Seq<char> {
        person_text(self.name(), kilogram_text(self.weight()))
    }

    /// The person as a line of text: the name, then the weight in kilograms.
    pub fn render(&self) -> (text: String)
        ensures
            text@ == self.rendered(),
    {
        let weight = self.weight.render();
        render_person(self.name.as_str(), weight.as_str())
    }
}

/// The same person with the weight in kilograms.
impl From<Person<Pound>> for Person<Kilogram> {
    fn from(person: Person<Pound>) -> (converted: Self)
        ensures
            converted.name() == person.name(),
            converted.weight() == kilograms_of(person.weight()),
    {
        Self { name: person.name, weight: person.weight.into() }
    }
}

impl FromSpecImpl<Person<Pound>> for Person<Kilogram> {
    open spec fn obeys_from_spec() -> bool {
        true
    }

    closed spec fn from_spec(person: Person<Pound>) -> Self {
        Person { name: person.name, weight: Weight { _data: PhantomData, value: kilograms_of(person.weight.value) } }
    }
}

/// The same person with the weight in pounds.
impl From<Person<Kilogram>> for Person<Pound> {
    fn from(person: Person<Kilogram>) -> (converted: Self)
        ensures
            converted.name() == person.name(),
            converted.weight() == pounds_of(person.weight()),
    {
        Self { name: person.name, weight: person.weight.into() }
    }
}

impl FromSpecImpl<Person<Kilogram>> for Person<Pound> {
    open spec fn obeys_from_spec() -> bool {
        true
    }

    closed spec fn from_spec(person: Person<Kilogram>) -> Self {
        Person { name: person.name, weight: Weight { _data: PhantomData, value: pounds_of(person.weight.value) } }
    }
}

} // verus!
