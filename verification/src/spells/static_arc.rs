//! A string that is either a `'static` slice or a shared, reference-counted string.
use std::sync::Arc;

use vstd::prelude::*;

use crate::text::{chars_eq, chars_of, seq_le};

verus! {

/// A string that is either borrowed for the whole program or shared.
///
/// Two values are equal when they are the same variant holding the same text;
/// every `Static` value orders before every `Arc` value, and values of one
/// variant order by their text.
#[derive(Debug)]
pub enum StArc {
    Static(&'static str),
    Arc(Arc<String>),
}

impl View for StArc {
    type V = Seq<char>;

    open spec fn view(&self) -> Seq<char> {
        match self {
            StArc::Static(s) => s@,
            StArc::Arc(s) => s@,
        }
    }
}

impl StArc {
    /// The variant and the text: what equality compares.
    pub open spec fn key(&self) -> (bool, Seq<char>) {
        (self is Static, self@)
    }

    /// The order of `StArc` values: `Static` before `Arc`, then by text.
    pub open spec fn spec_le(&self, other: &StArc) -> bool {
        if (self is Static) != (other is Static) {
            self is Static
        } else {
            seq_le(self@, other@)
        }
    }

    /// Wraps a `'static` string.
    pub fn from_static(s: &'static str) -> (r: StArc)
        ensures
            r is Static,
            r@ == s@,
    {
        StArc::Static(s)
    }

    /// Wraps a shared string.
    pub fn from_arc(s: Arc<String>) -> (r: StArc)
        ensures
            r is Arc,
            r@ == s@,
    {
        StArc::Arc(s)
    }

    /// The text.
    pub fn as_str(&self) -> (r: &str)
        ensures
            r@ == self@,
    {
        match self {
            StArc::Static(s) => s,
            StArc::Arc(s) => s.as_str(),
        }
    }

    /// A copy of this value, sharing the text.
    pub fn duplicate(&self) -> (r: StArc)
        ensures
            r.key() == self.key(),
    {
        match self {
            StArc::Static(s) => StArc::Static(s),
            StArc::Arc(s) => StArc::Arc(s.clone()),
        }
    }

    /// Whether two values are the same variant holding the same text.
    pub fn same(&self, other: &StArc) -> (r: bool)
        ensures
            r == (self.key() == other.key()),
    {
        let a = matches!(self, StArc::Static(_));
        let b = matches!(other, StArc::Static(_));
        if a != b {
            return false;
        }
        let x = chars_of(self.as_str());
        let y = chars_of(other.as_str());
        chars_eq(x.as_slice(), y.as_slice())
    }

    /// Whether the text equals `other`.
    pub fn eq_str(&self, other: &str) -> (r: bool)
        ensures
            r == (self@ == other@),
    {
        let x = chars_of(self.as_str());
        let y = chars_of(other);
        chars_eq(x.as_slice(), y.as_slice())
    }

    /// The text, as an owned string.
    pub fn to_string(&self) -> (r: String)
        ensures
            r@ == self@,
    {
        String::from_str(self.as_str())
    }
}

} // verus!
