//! Structured values: what one plugin hands to another over the bus, and what
//! a plugin is configured with.

use vstd::prelude::*;
use crate::text::same_text;

verus! {

/// A structured value. A number is kept as its decimal text, and the fields
/// of a record in the order in which they were written.
#[derive(Debug, PartialEq)]
pub enum Payload {
    Null,
    Bool(bool),
    Number(String),
    Text(String),
    List(Vec<Payload>),
    Record(Vec<(String, Payload)>),
}

/// The value of the first of `fields` that is named `name`.
pub open spec fn field_of(fields: Seq<(String, Payload)>, name: Seq<char>) -> Option<Payload>
    decreases fields.len(),
{
    if fields.len() == 0 {
        None
    } else if fields[0].0@ == name {
        Some(fields[0].1)
    } else {
        field_of(fields.skip(1), name)
    }
}

impl Payload {
    /// The field `name` of a record: the value of the first field so named.
    /// A value that is no record has no fields.
    pub open spec fn field_spec(self, name: Seq<char>) -> Option<Payload> {
        match self {
            Payload::Record(fields) => field_of(fields@, name),
            _ => None,
        }
    }

    /// The field `name` of a record.
    pub fn field(&self, name: &str) -> (r: Option<&Payload>)
        ensures
            match r {
                Some(value) => self.field_spec(name@) == Some(*value),
                None => self.field_spec(name@).is_none(),
            },
    {
        match self {
            Payload::Record(fields) => field_in(fields, name),
            _ => None,
        }
    }
}

/// The value of the first of `fields` that is named `name`.
pub fn field_in<'a>(fields: &'a Vec<(String, Payload)>, name: &str) -> (r: Option<&'a Payload>)
    ensures
        match r {
            Some(value) => field_of(fields@, name@) == Some(*value),
            None => field_of(fields@, name@).is_none(),
        },
{
    let mut i: usize = 0;
    proof {
        assert(fields@.skip(0) =~= fields@);
    }
    while i < fields.len()
        invariant
            i <= fields.len(),
            field_of(fields@, name@) == field_of(fields@.skip(i as int), name@),
        decreases fields.len() - i,
    {
        proof {
            assert(fields@.skip(i as int).skip(1) =~= fields@.skip(i + 1));
            assert(fields@.skip(i as int)[0] == fields@[i as int]);
        }
        if same_text(fields[i].0.as_str(), name) {
            return Some(&fields[i].1);
        }
        i += 1;
    }
    None
}

/// A type whose values can be written as structured values.
pub trait Encode {
    /// Whether `p` is what the value is written as.
    spec fn encodes(&self, p: Payload) -> bool;

    /// The value as a structured value.
    fn encode(&self) -> (p: Payload)
        ensures
            self.encodes(p),
    ;
}

/// A type whose values can be read out of structured values.
pub trait Decode: Sized {
    /// The value that `p` stands for, if it has the shape of one.
    spec fn decoded(p: Payload) -> Option<Self>;

    /// Reads a value out of `p`.
    fn decode(p: &Payload) -> (r: Option<Self>)
        ensures
            r == Self::decoded(*p),
    ;
}

impl Encode for String {
    open spec fn encodes(&self, p: Payload) -> bool {
        p == Payload::Text(*self)
    }

    fn encode(&self) -> (p: Payload) {
        Payload::Text(self.clone())
    }
}

impl Decode for String {
    open spec fn decoded(p: Payload) -> Option<String> {
        match p {
            Payload::Text(s) => Some(s),
            _ => None,
        }
    }

    fn decode(p: &Payload) -> (r: Option<String>) {
        match p {
            Payload::Text(s) => Some(s.clone()),
            _ => None,
        }
    }
}

/// The text that is read out of what a text was written as is that text.
pub proof fn text_round_trip(text: String, p: Payload)
    requires
        text.encodes(p),
    ensures
        String::decoded(p) == Some(text),
{
}

/// The truth value that is read out of what one was written as is that value.
pub proof fn flag_round_trip(flag: bool, p: Payload)
    requires
        flag.encodes(p),
    ensures
        bool::decoded(p) == Some(flag),
{
}

impl Encode for bool {
    open spec fn encodes(&self, p: Payload) -> bool {
        p == Payload::Bool(*self)
    }

    fn encode(&self) -> (p: Payload) {
        Payload::Bool(*self)
    }
}

impl Decode for bool {
    open spec fn decoded(p: Payload) -> Option<bool> {
        match p {
            Payload::Bool(b) => Some(b),
            _ => None,
        }
    }

    fn decode(p: &Payload) -> (r: Option<bool>) {
        match p {
            Payload::Bool(b) => Some(*b),
            _ => None,
        }
    }
}

} // verus!
