//! The numbers of a document. Whole numbers are plain integers; any other
//! number stays in the form in which `serde_json` holds it, and is only
//! carried along and written out.

use vstd::prelude::*;
use vstd::string::StringExecFns;

verus! {

/// `serde_json::Number`, of which nothing is seen here but that it is a value.
#[verifier::external_type_specification]
#[verifier::external_body]
pub struct ExNumber(serde_json::Number);

/// `Clone::clone` of `serde_json::Number`: the copy equals the number it was made from.
pub assume_specification[ <serde_json::Number as Clone>::clone ](n: &serde_json::Number) -> (res:
    serde_json::Number)
    ensures
        res == *n,
;

/// A number of a document: a whole number that fits 64 signed bits, or any
/// other number, carried as the parser made it.
#[derive(Debug, Clone, PartialEq)]
pub enum Numeral {
    Whole(i64),
    Real(serde_json::Number),
}

/// The text of the double that a number stands for, as `Debug` writes a
/// double; nothing where `serde_json` gives no double for the number.
pub uninterp spec fn number_shown(n: serde_json::Number) -> Option<Seq<char>>;

/// The `serde_json::Number` that stands for a whole number.
pub uninterp spec fn whole_number(n: i64) -> serde_json::Number;

/// `Number::as_f64`, and `Debug` of the double through `format!`. The result
/// depends on the number alone; `number_shown` names it.
#[verifier::external_body]
fn show_number(n: &serde_json::Number) -> (text: Option<String>)
    ensures
        match text {
            Some(text) => number_shown(*n) == Some(text@),
            None => number_shown(*n) is None,
        },
{
    n.as_f64().map(|x| format!("{:?}", x))
}

/// `Number::from` of an `i64`. The result depends on the whole number
/// alone; `whole_number` names it.
#[verifier::external_body]
fn number_from_whole(n: i64) -> (made: serde_json::Number)
    ensures
        made == whole_number(n),
{
    serde_json::Number::from(n)
}

/// The text of a number's double, or `NaN` where there is none.
pub open spec fn settled(shown: Option<Seq<char>>) -> Seq<char> {
    match shown {
        Some(text) => text,
        None => "NaN"@,
    }
}

/// The text of a number that stands where a record holds a real number: the
/// text of its double. A whole number is written as the double that
/// `serde_json` makes of it.
pub open spec fn real_of(x: Numeral) -> Seq<char> {
    match x {
        Numeral::Whole(n) => settled(number_shown(whole_number(n))),
        Numeral::Real(r) => settled(number_shown(r)),
    }
}

/// Takes the text of a number's double as it came, and `NaN` where none came.
pub fn settle(shown: Option<String>) -> (text: String)
    ensures
        text@ == settled(
            match shown {
                Some(s) => Some(s@),
                None => None,
            },
        ),
{
    match shown {
        Some(text) => text,
        None => String::from_str("NaN"),
    }
}

/// Writes a number that stands where a record holds a real number.
pub fn real_text(x: &Numeral) -> (text: String)
    ensures
        text@ == real_of(*x),
{
    match x {
        Numeral::Whole(n) => settle(show_number(&number_from_whole(*n))),
        Numeral::Real(r) => settle(show_number(r)),
    }
}

impl Numeral {
    /// A copy of this number.
    pub fn copy(&self) -> (same: Numeral)
        ensures
            same == *self,
    {
        match self {
            Numeral::Whole(n) => Numeral::Whole(*n),
            Numeral::Real(x) => Numeral::Real(x.clone()),
        }
    }
}

} // verus!
