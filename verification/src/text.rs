//! Small pieces of text: whole numbers in decimal, quoted text, lists, and
//! what it means for one text to occur in another.

use vstd::prelude::*;
use vstd::string::StringExecFns;

verus! {

/// One decimal digit.
pub open spec fn digit_of(d: int) -> Seq<char> {
    if d == 0 {
        "0"@
    } else if d == 1 {
        "1"@
    } else if d == 2 {
        "2"@
    } else if d == 3 {
        "3"@
    } else if d == 4 {
        "4"@
    } else if d == 5 {
        "5"@
    } else if d == 6 {
        "6"@
    } else if d == 7 {
        "7"@
    } else if d == 8 {
        "8"@
    } else {
        "9"@
    }
}

/// A natural number in decimal, without leading zeros.
pub open spec fn digits_of(n: nat) -> Seq<char>
    decreases n,
{
    if n < 10 {
        digit_of(n as int)
    } else {
        digits_of(n / 10) + digit_of((n % 10) as int)
    }
}

/// A whole number in decimal: a minus sign before the digits of a negative one.
pub open spec fn decimal_of(n: int) -> Seq<char> {
    if n < 0 {
        "-"@ + digits_of((-n) as nat)
    } else {
        digits_of(n as nat)
    }
}

/// The digit `d` as text.
pub fn digit(d: u64) -> (text: &'static str)
    requires
        d < 10,
    ensures
        text@ == digit_of(d as int),
{
    if d == 0 {
        "0"
    } else if d == 1 {
        "1"
    } else if d == 2 {
        "2"
    } else if d == 3 {
        "3"
    } else if d == 4 {
        "4"
    } else if d == 5 {
        "5"
    } else if d == 6 {
        "6"
    } else if d == 7 {
        "7"
    } else if d == 8 {
        "8"
    } else {
        "9"
    }
}

/// The natural number `n` in decimal.
pub fn digits(n: u64) -> (text: String)
    ensures
        text@ == digits_of(n as nat),
    decreases n,
{
    if n < 10 {
        String::from_str(digit(n))
    } else {
        let mut text = digits(n / 10);
        text.append(digit(n % 10));
        text
    }
}

/// The whole number `n` in decimal.
pub fn decimal(n: i64) -> (text: String)
    ensures
        text@ == decimal_of(n as int),
{
    if n < 0 {
        let below: u64 = (-(n + 1)) as u64;
        let mut text = String::from_str("-");
        text.append(digits(below + 1).as_str());
        text
    } else {
        digits(n as u64)
    }
}

/// Texts set one after another, with a comma and a blank between two of them.
pub open spec fn joined(items: Seq<Seq<char>>) -> Seq<char>
    decreases items.len(),
{
    if items.len() == 0 {
        Seq::empty()
    } else if items.len() == 1 {
        items[0]
    } else {
        joined(items.drop_last()) + ", "@ + items.last()
    }
}

/// Joining one text more: after a comma and a blank, unless it is the first.
pub proof fn joined_push(items: Seq<Seq<char>>, one: Seq<char>)
    ensures
        joined(items.push(one)) == if items.len() == 0 {
            one
        } else {
            joined(items) + ", "@ + one
        },
{
    let longer = items.push(one);
    assert(longer.drop_last() =~= items);
    assert(longer.last() == one);
}

/// A list of texts: the texts joined, in square brackets.
pub open spec fn listed(items: Seq<Seq<char>>) -> Seq<char> {
    "["@ + joined(items) + "]"@
}

/// Writes a list of texts: the texts in square brackets, a comma and a blank
/// between two of them.
pub fn list_text(items: &Vec<String>) -> (text: String)
    ensures
        text@ == listed(items@.map_values(|item: String| item@)),
{
    let ghost texts = items@.map_values(|item: String| item@);
    let mut text = String::from_str("[");
    let mut i: usize = 0;
    while i < items.len()
        invariant
            i <= items.len(),
            texts == items@.map_values(|item: String| item@),
            text@ == "["@ + joined(texts.take(i as int)),
        decreases items.len() - i,
    {
        proof {
            assert(texts.take(i + 1) =~= texts.take(i as int).push(items@[i as int]@));
            joined_push(texts.take(i as int), items@[i as int]@);
        }
        if i > 0 {
            text.append(", ");
        }
        text.append(items[i].as_str());
        i += 1;
    }
    assert(texts.take(i as int) =~= texts);
    text.append("]");
    text
}

/// What `Debug` makes of a text: the text in double quotes, with what
/// cannot stand there as it is written as an escape.
pub uninterp spec fn quoted_of(text: Seq<char>) -> Seq<char>;

/// `Debug` of `str`, through `format!`. The result depends on the text
/// alone; `quoted_of` names it.
#[verifier::external_body]
pub(crate) fn quoted(text: &str) -> (made: String)
    ensures
        made@ == quoted_of(text@),
{
    format!("{:?}", text)
}

/// `needle` stands somewhere in `hay`.
pub open spec fn occurs(needle: Seq<char>, hay: Seq<char>) -> bool {
    exists|at: int| occurs_at(needle, hay, at)
}

/// `needle` stands in `hay` from place `at` on.
pub open spec fn occurs_at(needle: Seq<char>, hay: Seq<char>, at: int) -> bool {
    0 <= at && at + needle.len() <= hay.len() && hay.subrange(at, at + needle.len()) == needle
}

/// What stands in a text stands in that text with more behind it.
pub proof fn occurs_before(needle: Seq<char>, hay: Seq<char>, more: Seq<char>)
    requires
        occurs(needle, hay),
    ensures
        occurs(needle, hay + more),
{
    let at = choose|at: int| occurs_at(needle, hay, at);
    assert((hay + more).subrange(at, at + needle.len()) =~= hay.subrange(at, at + needle.len()));
    assert(occurs_at(needle, hay + more, at));
}

/// What stands in a text stands in that text with more before it.
pub proof fn occurs_after(needle: Seq<char>, more: Seq<char>, hay: Seq<char>)
    requires
        occurs(needle, hay),
    ensures
        occurs(needle, more + hay),
{
    let at = choose|at: int| occurs_at(needle, hay, at);
    assert((more + hay).subrange(more.len() + at, more.len() + at + needle.len())
        =~= hay.subrange(at, at + needle.len()));
    assert(occurs_at(needle, more + hay, more.len() + at));
}

} // verus!
