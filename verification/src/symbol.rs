//! Interned annotation keywords.

use vstd::prelude::*;

verus! {

/// An annotation keyword (`builder`, `from`, `skip`, ...), compared against
/// user-written attribute paths and keys.
pub struct Symbol {
    name: String,
}

impl View for Symbol {
    type V = Seq<char>;

    closed spec fn view(&self) -> Seq<char> {
        self.name@
    }
}

impl Symbol {
    /// Interns a keyword.
    pub fn new(name: &str) -> (s: Symbol)
        ensures
            s@ == name@,
    {
        Symbol { name: name.to_owned() }
    }

    /// Whether a user-written identifier or path equals this keyword.
    pub fn matches(&self, other: &String) -> (r: bool)
        ensures
            r == (other@ == self@),
    {
        *other == self.name
    }

    /// The keyword's text.
    pub fn as_string(&self) -> (r: &String)
        ensures
            r@ == self@,
    {
        &self.name
    }
}

} // verus!
