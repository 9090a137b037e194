//! Structured documents: what a chain of nodes is projected to.

use vstd::prelude::*;
use crate::utils::str_eq;

verus! {

/// The mathematical content of a document.
pub enum Doc {
    /// A number.
    Number(u64),
    /// A text.
    Text(Seq<char>),
    /// Named members, in the order in which they were written.
    Object(Seq<(Seq<char>, Doc)>),
}

/// A document: a number, a text, or named documents.
#[derive(Debug, PartialEq, Eq)]
pub enum Value {
    /// A number.
    Number(u64),
    /// A text.
    Text(String),
    /// Named members, in the order in which they were written.
    Object(Vec<(String, Value)>),
}

/// The first of `members` that is named `key`, if there is one.
pub open spec fn first_named(members: Seq<(Seq<char>, Doc)>, key: Seq<char>) -> Option<Doc>
    decreases members.len(),
{
    if members.len() == 0 {
        None
    } else if members[0].0 == key {
        Some(members[0].1)
    } else {
        first_named(members.drop_first(), key)
    }
}

/// The document with the single member `name`, which holds `members`.
pub open spec fn named(name: Seq<char>, members: Seq<(Seq<char>, Doc)>) -> Doc {
    Doc::Object(Seq::empty().push((name, Doc::Object(members))))
}

/// The number `n` as a document.
pub open spec fn doc_u8(n: u8) -> Doc {
    Doc::Number(n as u64)
}

/// The number `n` as a document.
pub open spec fn doc_u16(n: u16) -> Doc {
    Doc::Number(n as u64)
}

/// The number `n` as a document.
pub open spec fn doc_u32(n: u32) -> Doc {
    Doc::Number(n as u64)
}

impl Doc {
    /// The first member named `key`, if the document is an object that has
    /// one.
    pub open spec fn get(self, key: Seq<char>) -> Option<Doc> {
        match self {
            Doc::Object(members) => first_named(members, key),
            _ => None,
        }
    }
}

impl Value {
    /// The content of the members of an object.
    pub open spec fn members_model(members: Seq<(String, Value)>) -> Seq<(Seq<char>, Doc)>
        decreases members,
    {
        Seq::new(
            members.len(),
            |i: int|
                if 0 <= i < members.len() {
                    (members[i].0@, members[i].1.model())
                } else {
                    (Seq::empty(), Doc::Number(0))
                },
        )
    }

    /// The content of the document.
    pub open spec fn model(&self) -> Doc
        decreases self,
    {
        match self {
            Value::Number(n) => Doc::Number(*n),
            Value::Text(s) => Doc::Text(s@),
            Value::Object(members) => Doc::Object(Self::members_model(members@)),
        }
    }
}

impl View for Value {
    type V = Doc;

    open spec fn view(&self) -> Doc {
        self.model()
    }
}

impl Value {
    /// The number `n` as a document.
    pub fn from_u8(n: u8) -> (v: Self)
        ensures
            v@ == doc_u8(n),
    {
        Value::Number(n as u64)
    }

    /// The number `n` as a document.
    pub fn from_u16(n: u16) -> (v: Self)
        ensures
            v@ == doc_u16(n),
    {
        Value::Number(n as u64)
    }

    /// The number `n` as a document.
    pub fn from_u32(n: u32) -> (v: Self)
        ensures
            v@ == doc_u32(n),
    {
        Value::Number(n as u64)
    }

    /// The text `s` as a document.
    pub fn text(s: String) -> (v: Self)
        ensures
            v@ == Doc::Text(s@),
    {
        Value::Text(s)
    }

    /// An object without members.
    pub fn object() -> (v: Self)
        ensures
            v@ == Doc::Object(Seq::empty()),
    {
        let v = Value::Object(Vec::new());
        assert(v@->Object_0 =~= Seq::empty());
        v
    }

    /// The document with the single member `name`, which holds the object
    /// `inner`.
    pub fn wrap(name: &str, inner: Value) -> (v: Self)
        requires
            inner@ is Object,
        ensures
            v@ == named(name@, inner@->Object_0),
    {
        let mut v = Value::object();
        v.insert(name, inner);
        v
    }

    /// Appends the member `key` with the content `value` to an object; any
    /// other document stays as it is.
    pub fn insert(&mut self, key: &str, value: Value)
        ensures
            final(self)@ == match old(self)@ {
                Doc::Object(members) => Doc::Object(members.push((key@, value@))),
                other => other,
            },
    {
        match self {
            Value::Object(members) => {
                let ghost before = members@;
                let ghost added = (key@, value@);
                members.push((key.to_owned(), value));
                assert(Self::members_model(members@) =~= Self::members_model(before).push(added));
            },
            _ => {},
        }
    }

    /// The first member named `key`, if the document is an object that has
    /// one.
    pub fn get(&self, key: &str) -> (r: Option<&Value>)
        ensures
            r is Some <==> self@.get(key@) is Some,
            r is Some ==> r->0@ == self@.get(key@)->0,
    {
        match self {
            Value::Object(members) => {
                let n: usize = members.len();
                let ghost all = Self::members_model(members@);
                let ghost wanted = self@.get(key@);
                let mut i: usize = 0;
                assert(all.skip(0) =~= all);
                while i < n
                    invariant
                        i <= n == members@.len(),
                        all == Self::members_model(members@),
                        wanted == self@.get(key@),
                        wanted == first_named(all.skip(i as int), key@),
                    decreases n - i,
                {
                    proof {
                        let rest = all.skip(i as int);
                        assert(rest[0] == all[i as int]);
                        assert(rest.drop_first() =~= all.skip(i + 1));
                    }
                    if str_eq(members[i].0.as_str(), key) {
                        return Some(&members[i].1);
                    }
                    i += 1;
                }
                assert(all.skip(n as int).len() == 0);
                None
            },
            _ => None,
        }
    }
}

} // verus!
