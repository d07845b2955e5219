//! The tree of values that a JSON text stands for, and how a member of a
//! record is found by its name.

use crate::number::Numeral;
use vstd::prelude::*;
use vstd::string::StringExecFns;

verus! {

/// One named member of a record.
#[derive(Debug, PartialEq)]
pub struct Member {
    pub name: String,
    pub value: Json,
}

/// A JSON value. The members of a record keep their order, and the first
/// member of a name is the one that the name finds.
#[derive(Debug, PartialEq)]
pub enum Json {
    Null,
    Bool(bool),
    Number(Numeral),
    Text(String),
    List(Vec<Json>),
    Record(Vec<Member>),
}

/// The members of a record, as the contracts see them: names and values, in order.
pub type Members = Seq<(Seq<char>, Document)>;

/// A JSON value as the contracts see it.
pub ghost enum Document {
    Null,
    Bool(bool),
    Number(Numeral),
    Text(Seq<char>),
    List(Seq<Document>),
    Record(Members),
}

impl Json {
    /// The value that this tree stands for.
    pub open spec fn document(self) -> Document
        decreases self,
    {
        match self {
            Json::Null => Document::Null,
            Json::Bool(b) => Document::Bool(b),
            Json::Number(n) => Document::Number(n),
            Json::Text(s) => Document::Text(s@),
            Json::List(items) => Document::List(
                Seq::new(
                    items@.len(),
                    |i: int|
                        if 0 <= i < items@.len() {
                            items@[i].document()
                        } else {
                            Document::Null
                        },
                ),
            ),
            Json::Record(members) => Document::Record(
                Seq::new(
                    members@.len(),
                    |i: int|
                        if 0 <= i < members@.len() {
                            (members@[i].name@, members@[i].value.document())
                        } else {
                            (Seq::empty(), Document::Null)
                        },
                ),
            ),
        }
    }
}

impl View for Json {
    type V = Document;

    open spec fn view(&self) -> Document {
        self.document()
    }
}

/// Member `i` is the first of `members` that bears the name `key`.
pub open spec fn first_named(members: Members, key: Seq<char>, i: int) -> bool {
    &&& 0 <= i < members.len()
    &&& members[i].0 == key
    &&& forall|j: int| 0 <= j < i ==> (#[trigger] members[j]).0 != key
}

/// No member of `members` bears the name `key`.
pub open spec fn unnamed(members: Members, key: Seq<char>) -> bool {
    forall|j: int| 0 <= j < members.len() ==> (#[trigger] members[j]).0 != key
}

/// The value of the first member named `key`, if there is one.
pub open spec fn lookup(members: Members, key: Seq<char>) -> Option<Document> {
    if exists|i: int| first_named(members, key, i) {
        Some(members[choose|i: int| first_named(members, key, i)].1)
    } else {
        None
    }
}

/// A name finds the value of the first member that bears it.
pub proof fn lookup_finds(members: Members, key: Seq<char>, i: int)
    requires
        first_named(members, key, i),
    ensures
        lookup(members, key) == Some(members[i].1),
{
    let c = choose|c: int| first_named(members, key, c);
    assert(members[c].0 == key);
    assert(members[i].0 == key);
    if c < i {
        assert(members[c].0 != key);
    }
    if i < c {
        assert(members[i].0 != key);
    }
}

/// A name that no member bears finds nothing.
pub proof fn lookup_misses(members: Members, key: Seq<char>)
    requires
        unnamed(members, key),
    ensures
        lookup(members, key) is None,
{
    if exists|i: int| first_named(members, key, i) {
        let c = choose|c: int| first_named(members, key, c);
        assert(members[c].0 != key);
    }
}

/// Where any member bears a name, some member is the first to bear it.
pub proof fn first_exists(members: Members, key: Seq<char>, j: int)
    requires
        0 <= j < members.len(),
        members[j].0 == key,
    ensures
        exists|i: int| first_named(members, key, i),
    decreases j,
{
    if forall|k: int| 0 <= k < j ==> (#[trigger] members[k]).0 != key {
        assert(first_named(members, key, j));
    } else {
        let k = choose|k: int| 0 <= k < j && (#[trigger] members[k]).0 == key;
        first_exists(members, key, k);
    }
}

/// A name finds nothing only where no member bears it.
pub proof fn lookup_none(members: Members, key: Seq<char>)
    ensures
        lookup(members, key) is None <==> unnamed(members, key),
{
    if unnamed(members, key) {
        lookup_misses(members, key);
    } else {
        let j = choose|j: int| 0 <= j < members.len() && (#[trigger] members[j]).0 == key;
        first_exists(members, key, j);
    }
}

/// A member of another name, put in at any place, changes nothing of what a
/// name finds.
pub proof fn lookup_skips(members: Members, at: int, extra: (Seq<char>, Document), key: Seq<char>)
    requires
        0 <= at <= members.len(),
        extra.0 != key,
    ensures
        lookup(members.insert(at, extra), key) == lookup(members, key),
{
    let wider = members.insert(at, extra);
    if exists|i: int| first_named(members, key, i) {
        let i = choose|i: int| first_named(members, key, i);
        let shifted = if i < at { i } else { i + 1 };
        assert(wider[shifted] == members[i]);
        assert forall|j: int| 0 <= j < shifted implies (#[trigger] wider[j]).0 != key by {
            if j < at {
                assert(wider[j] == members[j]);
            } else if j == at {
                assert(wider[j] == extra);
            } else {
                assert(wider[j] == members[j - 1]);
            }
        }
        assert(first_named(wider, key, shifted));
        lookup_finds(members, key, i);
        lookup_finds(wider, key, shifted);
    } else {
        lookup_none(members, key);
        assert forall|j: int| 0 <= j < wider.len() implies (#[trigger] wider[j]).0 != key by {
            if j < at {
                assert(wider[j] == members[j]);
            } else if j == at {
                assert(wider[j] == extra);
            } else {
                assert(wider[j] == members[j - 1]);
            }
        }
        lookup_misses(wider, key);
    }
}

/// What a record's tree stands for: its members' names and values, in order.
pub proof fn record_view(members: Vec<Member>)
    ensures
        Json::Record(members)@ is Record,
        Json::Record(members)@->Record_0.len() == members@.len(),
        forall|j: int|
            0 <= j < members@.len() ==> #[trigger] Json::Record(members)@->Record_0[j] == (
                members@[j].name@,
                members@[j].value@,
            ),
{
}

/// What a list's tree stands for: its items' values, in order.
pub proof fn list_view(items: Vec<Json>)
    ensures
        Json::List(items)@ is List,
        Json::List(items)@->List_0.len() == items@.len(),
        forall|j: int|
            0 <= j < items@.len() ==> #[trigger] Json::List(items)@->List_0[j] == items@[j]@,
{
}

impl Document {
    /// The member that `key` names, where this is a record that has one.
    pub open spec fn member(self, key: Seq<char>) -> Option<Document> {
        match self {
            Document::Record(members) => lookup(members, key),
            _ => None,
        }
    }

    /// The whole number that this is, if it is one.
    pub open spec fn whole(self) -> Option<i64> {
        match self {
            Document::Number(Numeral::Whole(n)) => Some(n),
            _ => None,
        }
    }

    /// The number that this is, whole or not, if it is one.
    pub open spec fn number(self) -> Option<Numeral> {
        match self {
            Document::Number(n) => Some(n),
            _ => None,
        }
    }

    /// The text that this is, if it is one.
    pub open spec fn text(self) -> Option<Seq<char>> {
        match self {
            Document::Text(s) => Some(s),
            _ => None,
        }
    }

    /// The items that this holds, if it is a list.
    pub open spec fn items(self) -> Option<Seq<Document>> {
        match self {
            Document::List(items) => Some(items),
            _ => None,
        }
    }
}

impl Json {
    /// The whole number that this is; `None` where it is anything else.
    pub fn whole(&self) -> (found: Option<i64>)
        ensures
            found == self@.whole(),
    {
        match self {
            Json::Number(Numeral::Whole(n)) => Some(*n),
            _ => None,
        }
    }

    /// The number that this is; `None` where it is anything else.
    pub fn number(&self) -> (found: Option<Numeral>)
        ensures
            found == self@.number(),
    {
        match self {
            Json::Number(n) => Some(n.copy()),
            _ => None,
        }
    }

    /// The text that this is; `None` where it is anything else.
    pub fn text(&self) -> (found: Option<String>)
        ensures
            match found {
                Some(s) => self@.text() == Some(s@),
                None => self@.text() is None,
            },
    {
        match self {
            Json::Text(s) => Some(s.clone()),
            _ => None,
        }
    }

    /// The items of this list; `None` where it is anything else.
    pub fn items(&self) -> (found: Option<&Vec<Json>>)
        ensures
            match found {
                Some(items) => self@.items() matches Some(values) && values.len() == items@.len()
                    && forall|j: int| 0 <= j < items@.len() ==> #[trigger] values[j] == items@[j]@,
                None => self@.items() is None,
            },
    {
        match self {
            Json::List(items) => {
                proof {
                    list_view(*items);
                }
                Some(items)
            },
            _ => None,
        }
    }

    /// The value of the first member named `key`; `None` where this is no
    /// record or has no such member.
    pub fn member(&self, key: &str) -> (found: Option<&Json>)
        ensures
            match found {
                Some(value) => self@.member(key@) == Some(value@),
                None => self@.member(key@) is None,
            },
    {
        match self {
            Json::Record(members) => {
                let wanted = String::from_str(key);
                let mut i: usize = 0;
                proof {
                    record_view(*members);
                }
                while i < members.len()
                    invariant
                        i <= members.len(),
                        wanted@ == key@,
                        self@ matches Document::Record(seen) && seen.len() == members@.len()
                            && (forall|j: int|
                            0 <= j < seen.len() ==> #[trigger] seen[j] == (
                                members@[j].name@,
                                members@[j].value@,
                            )) && (forall|j: int| 0 <= j < i ==> (#[trigger] seen[j]).0 != key@),
                    decreases members.len() - i,
                {
                    if members[i].name == wanted {
                        proof {
                            lookup_finds(self@->Record_0, key@, i as int);
                        }
                        return Some(&members[i].value);
                    }
                    i += 1;
                }
                proof {
                    lookup_misses(self@->Record_0, key@);
                }
                None
            },
            _ => None,
        }
    }
}

} // verus!
