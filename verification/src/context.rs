//! Diagnostics: structured errors and the per-invocation accumulator.
//!
//! One derivation invocation owns one [`Context`]. Every parsing step that
//! finds a problem records a [`Diag`] into it and keeps going, so a single
//! invocation reports every mistake at once. The context is consumed exactly
//! once by [`Context::check`], which either succeeds or combines everything
//! recorded into one [`CompoundError`]; consuming it enforces the
//! finalize-before-discard contract in the type system.

use vstd::prelude::*;

verus! {

/// Identifies the source location a diagnostic points at. The caller that
/// built the declaration model assigns the identifiers and keeps the mapping
/// back to real locations.
pub type SpanId = u64;

/// The level of a declaration an annotation was found on.
#[derive(Clone, Copy, Debug, PartialEq, Eq)]
pub enum AttrLevel {
    Container,
    Variant,
    Field,
}

/// Which generator an error belongs to.
#[derive(Clone, Copy, Debug, PartialEq, Eq)]
pub enum DeriveKind {
    Builder,
    From,
}

/// The structural category of a declaration, as named in shape errors.
#[derive(Clone, Copy, Debug, PartialEq, Eq)]
pub enum ShapeKind {
    Enum,
    Union,
    Newtype,
    Unit,
    Tuple,
}

/// A structured user-facing error.
#[derive(Clone, Debug, PartialEq, Eq)]
pub enum ErrorKind {
    /// The same keyword was assigned twice at the same level.
    DuplicateAttr { name: String },
    /// A keyword inside a recognized namespace that matches no option at
    /// this level.
    UnknownAttr { level: AttrLevel, namespace: String, key: String },
    /// A value-bearing keyword whose value is not a string literal; `found`
    /// holds the text of the offending value.
    NotAString { keyword: String, found: String },
    /// A value-bearing keyword written without a value.
    ExpectedValue { keyword: String },
    /// A flag keyword written with a value.
    UnexpectedValue { keyword: String },
    /// A generator applied to a shape it does not support.
    UnsupportedShape { generator: DeriveKind, shape: ShapeKind },
}

/// Mathematical model of an [`ErrorKind`].
pub enum SpecErrorKind {
    DuplicateAttr { name: Seq<char> },
    UnknownAttr { level: AttrLevel, namespace: Seq<char>, key: Seq<char> },
    NotAString { keyword: Seq<char>, found: Seq<char> },
    ExpectedValue { keyword: Seq<char> },
    UnexpectedValue { keyword: Seq<char> },
    UnsupportedShape { generator: DeriveKind, shape: ShapeKind },
}

impl View for ErrorKind {
    type V = SpecErrorKind;

    open spec fn view(&self) -> SpecErrorKind {
        match self {
            ErrorKind::DuplicateAttr { name } => SpecErrorKind::DuplicateAttr { name: name@ },
            ErrorKind::UnknownAttr { level, namespace, key } => SpecErrorKind::UnknownAttr {
                level: *level,
                namespace: namespace@,
                key: key@,
            },
            ErrorKind::NotAString { keyword, found } => SpecErrorKind::NotAString {
                keyword: keyword@,
                found: found@,
            },
            ErrorKind::ExpectedValue { keyword } => SpecErrorKind::ExpectedValue {
                keyword: keyword@,
            },
            ErrorKind::UnexpectedValue { keyword } => SpecErrorKind::UnexpectedValue {
                keyword: keyword@,
            },
            ErrorKind::UnsupportedShape { generator, shape } => SpecErrorKind::UnsupportedShape {
                generator: *generator,
                shape: *shape,
            },
        }
    }
}

impl DeepView for ErrorKind {
    type V = SpecErrorKind;

    open spec fn deep_view(&self) -> SpecErrorKind {
        self.view()
    }
}

/// One recorded error: what went wrong, and where.
#[derive(Clone, Debug, PartialEq, Eq)]
pub struct Diag {
    pub kind: ErrorKind,
    pub span: SpanId,
}

/// Mathematical model of a [`Diag`].
pub struct SpecDiag {
    pub kind: SpecErrorKind,
    pub span: SpanId,
}

impl View for Diag {
    type V = SpecDiag;

    open spec fn view(&self) -> SpecDiag {
        SpecDiag { kind: self.kind@, span: self.span }
    }
}

impl DeepView for Diag {
    type V = SpecDiag;

    open spec fn deep_view(&self) -> SpecDiag {
        self.view()
    }
}

/// The text a shape is named with inside a shape error.
pub open spec fn spec_shape_text(shape: ShapeKind) -> Seq<char> {
    match shape {
        ShapeKind::Enum => "enums"@,
        ShapeKind::Union => "unions"@,
        ShapeKind::Newtype => "newtype style structs"@,
        ShapeKind::Unit => "unit-like structs"@,
        ShapeKind::Tuple => "tuple structs"@,
    }
}

/// The text a level is named with inside an unknown-attribute error.
pub open spec fn spec_level_text(level: AttrLevel) -> Seq<char> {
    match level {
        AttrLevel::Container => " container attribute: `"@,
        AttrLevel::Variant => " variant attribute: `"@,
        AttrLevel::Field => " field attribute: `"@,
    }
}

impl SpecErrorKind {
    /// The full message an error is reported with.
    pub open spec fn spec_message(self) -> Seq<char> {
        match self {
            SpecErrorKind::DuplicateAttr { name } => "duplicate attribute `"@ + name + "`"@,
            SpecErrorKind::UnknownAttr { level, namespace, key } => "unknown "@ + namespace
                + spec_level_text(level) + key + "`"@,
            SpecErrorKind::NotAString { keyword, found } => keyword + " must be a string not `"@
                + found + "`"@,
            SpecErrorKind::ExpectedValue { keyword } => "expected a value for attribute `"@
                + keyword + "`"@,
            SpecErrorKind::UnexpectedValue { keyword } => "unexpected value for attribute `"@
                + keyword + "`"@,
            SpecErrorKind::UnsupportedShape { generator, shape } => match generator {
                DeriveKind::Builder => "deriving builder pattern not supported for "@
                    + spec_shape_text(shape),
                DeriveKind::From => "deriving from not supported for "@ + spec_shape_text(shape),
            },
        }
    }
}

fn shape_text(shape: &ShapeKind) -> (r: String)
    ensures
        r@ == spec_shape_text(*shape),
{
    match shape {
        ShapeKind::Enum => "enums".to_owned(),
        ShapeKind::Union => "unions".to_owned(),
        ShapeKind::Newtype => "newtype style structs".to_owned(),
        ShapeKind::Unit => "unit-like structs".to_owned(),
        ShapeKind::Tuple => "tuple structs".to_owned(),
    }
}

fn level_text(level: &AttrLevel) -> (r: String)
    ensures
        r@ == spec_level_text(*level),
{
    match level {
        AttrLevel::Container => " container attribute: `".to_owned(),
        AttrLevel::Variant => " variant attribute: `".to_owned(),
        AttrLevel::Field => " field attribute: `".to_owned(),
    }
}

impl ErrorKind {
    /// Renders the message this error is reported with.
    pub fn message(&self) -> (r: String)
        ensures
            r@ == self@.spec_message(),
    {
        match self {
            ErrorKind::DuplicateAttr { name } => {
                let mut s = "duplicate attribute `".to_owned();
                s.append(name.as_str());
                s.append("`");
                s
            },
            ErrorKind::UnknownAttr { level, namespace, key } => {
                let mut s = "unknown ".to_owned();
                s.append(namespace.as_str());
                s.append(level_text(level).as_str());
                s.append(key.as_str());
                s.append("`");
                s
            },
            ErrorKind::NotAString { keyword, found } => {
                let mut s = keyword.clone();
                s.append(" must be a string not `");
                s.append(found.as_str());
                s.append("`");
                s
            },
            ErrorKind::ExpectedValue { keyword } => {
                let mut s = "expected a value for attribute `".to_owned();
                s.append(keyword.as_str());
                s.append("`");
                s
            },
            ErrorKind::UnexpectedValue { keyword } => {
                let mut s = "unexpected value for attribute `".to_owned();
                s.append(keyword.as_str());
                s.append("`");
                s
            },
            ErrorKind::UnsupportedShape { generator, shape } => {
                let mut s = match generator {
                    DeriveKind::Builder => "deriving builder pattern not supported for ".to_owned(),
                    DeriveKind::From => "deriving from not supported for ".to_owned(),
                };
                s.append(shape_text(shape).as_str());
                s
            },
        }
    }
}


/// A duplicate-attribute diagnostic.
pub open spec fn spec_dup(name: Seq<char>, span: SpanId) -> SpecDiag {
    SpecDiag { kind: SpecErrorKind::DuplicateAttr { name }, span }
}

/// An unknown-key diagnostic.
pub open spec fn spec_unknown(
    level: AttrLevel,
    namespace: Seq<char>,
    key: Seq<char>,
    span: SpanId,
) -> SpecDiag {
    SpecDiag { kind: SpecErrorKind::UnknownAttr { level, namespace, key }, span }
}

/// A value-is-not-a-string diagnostic.
pub open spec fn spec_not_string(keyword: Seq<char>, found: Seq<char>, span: SpanId) -> SpecDiag {
    SpecDiag { kind: SpecErrorKind::NotAString { keyword, found }, span }
}

/// A missing-value diagnostic.
pub open spec fn spec_expected_value(keyword: Seq<char>, span: SpanId) -> SpecDiag {
    SpecDiag { kind: SpecErrorKind::ExpectedValue { keyword }, span }
}

/// A value-on-a-flag diagnostic.
pub open spec fn spec_unexpected_value(keyword: Seq<char>, span: SpanId) -> SpecDiag {
    SpecDiag { kind: SpecErrorKind::UnexpectedValue { keyword }, span }
}

/// Every diagnostic accumulated during one invocation, combined into one
/// reportable failure.
#[derive(Clone, Debug, PartialEq, Eq)]
pub struct CompoundError {
    pub errors: Vec<Diag>,
}

impl View for CompoundError {
    type V = Seq<SpecDiag>;

    open spec fn view(&self) -> Seq<SpecDiag> {
        self.errors.deep_view()
    }
}

/// The per-invocation error accumulator.
pub struct Context {
    errors: Vec<Diag>,
}

impl View for Context {
    type V = Seq<SpecDiag>;

    closed spec fn view(&self) -> Seq<SpecDiag> {
        self.errors.deep_view()
    }
}

impl Context {
    /// A fresh context with an empty error list.
    pub fn new() -> (r: Context)
        ensures
            r@ == Seq::<SpecDiag>::empty(),
    {
        Context { errors: Vec::new() }
    }

    /// Records an error tied to the given location. Always succeeds; the
    /// error surfaces only at [`Context::check`].
    pub fn error_spanned_by(&mut self, span: SpanId, kind: ErrorKind)
        ensures
            final(self)@ == old(self)@.push(SpecDiag { kind: kind@, span }),
    {
        let d = Diag { kind, span };
        proof {
            assert(self.errors.deep_view().push(d@) =~= old(self).errors.deep_view().push(d@));
        }
        self.errors.push(d);
        proof {
            assert(self.errors.deep_view() =~= old(self).errors.deep_view().push(
                SpecDiag { kind: kind@, span },
            ));
        }
    }

    /// Records a pre-built diagnostic.
    pub fn syn_error(&mut self, err: Diag)
        ensures
            final(self)@ == old(self)@.push(err@),
    {
        self.errors.push(err);
        proof {
            assert(self.errors.deep_view() =~= old(self).errors.deep_view().push(err@));
        }
    }

    /// Finalizes the context: succeeds when nothing was recorded, and
    /// otherwise fails with every recorded diagnostic, in order. Consuming
    /// `self` makes discarding an unchecked context impossible to write.
    pub fn check(self) -> (r: Result<(), CompoundError>)
        ensures
            self@.len() == 0 <==> r is Ok,
            r matches Err(e) ==> e@ == self@,
    {
        if self.errors.len() == 0 {
            Ok(())
        } else {
            Err(CompoundError { errors: self.errors })
        }
    }
}

} // verus!
