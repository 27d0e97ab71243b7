//! Attribute value slots: "at most one assignment, else duplicate error".
//!
//! While an annotation list is scanned, every recognized keyword owns one
//! slot. The first successful `set` stores the value; any later `set`
//! records a duplicate-attribute diagnostic and leaves the first value
//! intact — first write wins.

use vstd::prelude::*;

use crate::context::Context;
use crate::context::ErrorKind;
use crate::context::SpanId;
use crate::context::SpecDiag;
use crate::context::SpecErrorKind;
use crate::symbol::Symbol;

verus! {

/// A slot for one value-bearing keyword.
pub struct Attr<T> {
    name: Symbol,
    set_at: SpanId,
    value: Option<T>,
}

impl<T> Attr<T> {
    /// The keyword this slot tracks.
    pub closed spec fn spec_name(&self) -> Seq<char> {
        self.name@
    }

    /// The stored value, if one was accepted.
    pub closed spec fn spec_value(&self) -> Option<T> {
        self.value
    }

    /// The location of the accepted assignment.
    pub closed spec fn spec_set_at(&self) -> SpanId {
        self.set_at
    }

    /// An empty slot for the given keyword.
    pub fn none(name: Symbol) -> (r: Self)
        ensures
            r.spec_name() == name@,
            r.spec_value() is None,
    {
        Attr { name, set_at: 0, value: None }
    }

    /// Stores `value` if the slot is still empty; otherwise records a
    /// duplicate-attribute diagnostic naming the keyword and keeps the
    /// first value.
    pub fn set(&mut self, cx: &mut Context, span: SpanId, value: T)
        ensures
            old(self).spec_value() is Some ==> {
                &&& *final(self) == *old(self)
                &&& final(cx)@ == old(cx)@.push(
                    SpecDiag {
                        kind: SpecErrorKind::DuplicateAttr { name: old(self).spec_name() },
                        span,
                    },
                )
            },
            old(self).spec_value() is None ==> {
                &&& final(self).spec_name() == old(self).spec_name()
                &&& final(self).spec_value() == Some(value)
                &&& final(self).spec_set_at() == span
                &&& final(cx)@ == old(cx)@
            },
    {
        if self.value.is_some() {
            let name = self.name.as_string().clone();
            cx.error_spanned_by(span, ErrorKind::DuplicateAttr { name });
        } else {
            self.set_at = span;
            self.value = Some(value);
        }
    }

    /// `set`, for a value that may be absent; an absent value leaves the
    /// slot and the context untouched.
    pub fn set_opt(&mut self, cx: &mut Context, span: SpanId, value: Option<T>)
        ensures
            value matches Some(v) ==> {
                &&& old(self).spec_value() is Some ==> *final(self) == *old(self) && final(cx)@
                    == old(cx)@.push(
                    SpecDiag {
                        kind: SpecErrorKind::DuplicateAttr { name: old(self).spec_name() },
                        span,
                    },
                )
                &&& old(self).spec_value() is None ==> final(self).spec_name() == old(
                    self,
                ).spec_name() && final(self).spec_value() == Some(v) && final(cx)@ == old(cx)@
            },
            value is None ==> *final(self) == *old(self) && final(cx)@ == old(cx)@,
    {
        if let Some(v) = value {
            self.set(cx, span, v);
        }
    }

    /// Consumes the slot, returning the stored value, if any.
    pub fn get(self) -> (r: Option<T>)
        ensures
            r == self.spec_value(),
    {
        self.value
    }

    /// Consumes the slot, returning the stored value together with the
    /// location it was assigned at.
    pub fn get_with_tokens(self) -> (r: Option<(SpanId, T)>)
        ensures
            match self.spec_value() {
                Some(v) => r == Some((self.spec_set_at(), v)),
                None => r is None,
            },
    {
        match self.value {
            Some(v) => Some((self.set_at, v)),
            None => None,
        }
    }
}

/// A slot for a flag keyword: presence is the value.
pub struct BoolAttr(Attr<()>);

impl BoolAttr {
    /// The keyword this slot tracks.
    pub closed spec fn spec_name(&self) -> Seq<char> {
        self.0.spec_name()
    }

    /// Whether the flag was seen.
    pub closed spec fn spec_is_set(&self) -> bool {
        self.0.spec_value() is Some
    }

    /// An empty slot for the given flag keyword.
    pub fn none(name: Symbol) -> (r: Self)
        ensures
            r.spec_name() == name@,
            !r.spec_is_set(),
    {
        BoolAttr(Attr::none(name))
    }

    /// Marks the flag as seen; a second sighting records a duplicate
    /// diagnostic and changes nothing.
    pub fn set_true(&mut self, cx: &mut Context, span: SpanId)
        ensures
            final(self).spec_name() == old(self).spec_name(),
            final(self).spec_is_set(),
            old(self).spec_is_set() ==> *final(self) == *old(self) && final(cx)@ == old(
                cx,
            )@.push(
                SpecDiag {
                    kind: SpecErrorKind::DuplicateAttr { name: old(self).spec_name() },
                    span,
                },
            ),
            !old(self).spec_is_set() ==> final(cx)@ == old(cx)@,
    {
        self.0.set(cx, span, ());
    }

    /// Whether the flag was seen.
    pub fn get(&self) -> (r: bool)
        ensures
            r == self.spec_is_set(),
    {
        self.0.value_is_some()
    }
}

impl<T> Attr<T> {
    /// Whether a value is stored, without consuming the slot.
    fn value_is_some(&self) -> (r: bool)
        ensures
            r == (self.spec_value() is Some),
    {
        self.value.is_some()
    }
}

} // verus!
