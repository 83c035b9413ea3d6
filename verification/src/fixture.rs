//! Fixture values: the typed data that hooks publish into the store and
//! that later hooks and test bodies consume.
//!
//! The store is heterogeneous: each bucket holds at most one value per
//! "type identity". Type identities are small integer tags chosen by the
//! suite author; the payload itself is one of the shapes below.

use vstd::prelude::*;

verus! {

/// The integer tag that stands for a value's type identity. Two values with
/// the same tag are values "of the same type": inserting the second into a
/// bucket overwrites the first.
pub type TypeTag = u64;

/// One typed value flowing through the store.
#[derive(Debug, PartialEq, Eq)]
pub enum FixtureValue {
    /// A small unsigned integer.
    Byte(u8),
    /// An unsigned integer.
    Number(u64),
    /// An owned string.
    Text(String),
    /// A pair of owned strings.
    Pair(String, String),
    /// A record with a single numeric field.
    Record { id: u64 },
}

/// The mathematical image of a `FixtureValue`: strings become character
/// sequences, so equality of images is decidable by executable code.
#[verifier::ext_equal]
pub enum FixtureAbs {
    Byte(u8),
    Number(u64),
    Text(Seq<char>),
    Pair(Seq<char>, Seq<char>),
    Record { id: u64 },
}

impl View for FixtureValue {
    type V = FixtureAbs;

    open spec fn view(&self) -> FixtureAbs {
        match self {
            FixtureValue::Byte(b) => FixtureAbs::Byte(*b),
            FixtureValue::Number(n) => FixtureAbs::Number(*n),
            FixtureValue::Text(s) => FixtureAbs::Text(s@),
            FixtureValue::Pair(a, b) => FixtureAbs::Pair(a@, b@),
            FixtureValue::Record { id } => FixtureAbs::Record { id: *id },
        }
    }
}

impl FixtureValue {
    /// An independent copy: the store hands values out by copy, never as an
    /// alias into its own storage.
    pub fn duplicate(&self) -> (r: FixtureValue)
        ensures
            r@ == self@,
    {
        match self {
            FixtureValue::Byte(b) => FixtureValue::Byte(*b),
            FixtureValue::Number(n) => FixtureValue::Number(*n),
            FixtureValue::Text(s) => FixtureValue::Text(s.clone()),
            FixtureValue::Pair(a, b) => FixtureValue::Pair(a.clone(), b.clone()),
            FixtureValue::Record { id } => FixtureValue::Record { id: *id },
        }
    }

    /// Decides equality of the mathematical images of two values.
    pub fn value_eq(&self, other: &FixtureValue) -> (r: bool)
        ensures
            r == (self@ == other@),
    {
        match (self, other) {
            (FixtureValue::Byte(a), FixtureValue::Byte(b)) => a == b,
            (FixtureValue::Number(a), FixtureValue::Number(b)) => a == b,
            (FixtureValue::Text(a), FixtureValue::Text(b)) => a.eq(b),
            (FixtureValue::Pair(a0, a1), FixtureValue::Pair(b0, b1)) => a0.eq(b0) && a1.eq(b1),
            (FixtureValue::Record { id: a }, FixtureValue::Record { id: b }) => a == b,
            _ => false,
        }
    }
}

} // verus!
