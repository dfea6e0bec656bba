//! The text of a magnitude and of a person.

use vstd::prelude::*;
use vstd::string::*;

verus! {

/// The character of a decimal digit.
pub open spec fn digit(value: nat) -> char
    recommends
        value < 10,
{
    if value == 0 {
        '0'
    } else if value == 1 {
        '1'
    } else if value == 2 {
        '2'
    } else if value == 3 {
        '3'
    } else if value == 4 {
        '4'
    } else if value == 5 {
        '5'
    } else if value == 6 {
        '6'
    } else if value == 7 {
        '7'
    } else if value == 8 {
        '8'
    } else {
        '9'
    }
}

/// The decimal digits of `value`, the most significant first, with no
/// leading zero but for zero itself.
pub open spec fn decimal(value: nat) -> Seq<char>
    decreases value,
{
    if value < 10 {
        seq![digit(value)]
    } else {
        decimal(value / 10).push(digit(value % 10))
    }
}

/// A magnitude in kilograms as text: the digits, a space and `kg`.
pub open spec fn kilogram_text(magnitude: u16) -> Seq<char> {
    decimal(magnitude as nat) + " kg"@
}

/// A magnitude in pounds as text: the digits, a space and `pound`.
pub open spec fn pound_text(magnitude: u16) -> Seq<char> {
    decimal(magnitude as nat) + " pound"@
}

/// The line that describes a person: the name and the weight, each after its label.
pub open spec fn person_text(name: Seq<char>, weight: Seq<char>) -> Seq<char> {
    "Name: "@ + name + ", Weight: "@ + weight
}

fn digit_str(value: u16) -> (text: &'static str)
    requires
        value < 10,
    ensures
        text@ == seq![digit(value as nat)],
{
    proof {
        reveal_strlit("0");
        reveal_strlit("1");
        reveal_strlit("2");
        reveal_strlit("3");
        reveal_strlit("4");
        reveal_strlit("5");
        reveal_strlit("6");
        reveal_strlit("7");
        reveal_strlit("8");
        reveal_strlit("9");
    }
    let text = if value == 0 {
        "0"
    } else if value == 1 {
        "1"
    } else if value == 2 {
        "2"
    } else if value == 3 {
        "3"
    } else if value == 4 {
        "4"
    } else if value == 5 {
        "5"
    } else if value == 6 {
        "6"
    } else if value == 7 {
        "7"
    } else if value == 8 {
        "8"
    } else {
        "9"
    };
    assert(text@ =~= seq![digit(value as nat)]);
    text
}

/// Writes a magnitude in decimal.
pub fn render_decimal(value: u16) -> (text: String)
    ensures
        text@ == decimal(value as nat),
    decreases value,
{
    if value < 10 {
        String::from_str(digit_str(value))
    } else {
        let mut text = render_decimal(value / 10);
        text.append(digit_str(value % 10));
        assert(text@ =~= decimal(value as nat / 10).push(digit(value as nat % 10)));
        text
    }
}

/// Writes a magnitude in kilograms.
pub fn render_kilograms(magnitude: u16) -> (text: String)
    ensures
        text@ == kilogram_text(magnitude),
{
    let mut text = render_decimal(magnitude);
    text.append(" kg");
    text
}

/// Writes a magnitude in pounds.
pub fn render_pounds(magnitude: u16) -> (text: String)
    ensures
        text@ == pound_text(magnitude),
{
    let mut text = render_decimal(magnitude);
    text.append(" pound");
    text
}

/// Writes the line that describes a person with this name and this weight.
pub fn render_person(name: &str, weight: &str) -> (text: String)
    ensures
        text@ == person_text(name@, weight@),
{
    let mut text = String::from_str("Name: ");
    text.append(name);
    text.append(", Weight: ");
    text.append(weight);
    text
}

} // verus!
