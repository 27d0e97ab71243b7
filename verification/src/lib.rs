//! Companion-code generators for plain data-type declarations.
//!
//! Two generators attach to a declaration of a struct, enum or union and
//! compute replacement code from its shape and a small annotation language:
//!
//!  - `Builder`: one fluent setter method per eligible named field;
//!  - `From`: one trivial conversion per eligible struct shape or enum variant.
//!
//! Both work on a plain model of the declaration tree ([`ast`]) and return
//! a plain model of the generated code, or an accumulated set of diagnostics.

use vstd::prelude::*;

pub mod ast;
pub mod attr;
pub mod builder_derive;
pub mod container;
pub mod context;
pub mod data;
pub mod from_derive;
pub mod laws;
pub mod symbol;

pub use builder_derive::BuilderContainer;
pub use builder_derive::BuilderField;
pub use builder_derive::BuilderMethod;
pub use builder_derive::BuilderOutput;
pub use builder_derive::BuilderVariant;
pub use container::AttrContainer;
pub use container::AttrField;
pub use container::AttrVariant;
pub use container::Container;
pub use from_derive::FromBody;
pub use from_derive::FromContainer;
pub use from_derive::FromField;
pub use from_derive::FromImpl;
pub use from_derive::FromOutput;
pub use from_derive::FromSource;
pub use from_derive::FromVariant;

pub use data::Data;
pub use data::Field;
pub use data::Member;
pub use data::Style;
pub use data::Variant;

pub use ast::AttrNode;
pub use ast::DataNode;
pub use ast::DeriveInput;
pub use ast::FieldNode;
pub use ast::FieldsNode;
pub use ast::GenericsNode;
pub use ast::MetaItem;
pub use ast::MetaValue;
pub use ast::VariantNode;

pub use attr::Attr;
pub use attr::BoolAttr;

pub use context::AttrLevel;
pub use context::CompoundError;
pub use context::Context;
pub use context::DeriveKind;
pub use context::Diag;
pub use context::ErrorKind;
pub use context::ShapeKind;
pub use context::SpanId;
pub use symbol::Symbol;

verus! {

/// The From hook: runs the From generator on one declaration and hands back
/// either the conversions to emit or the combined diagnostics to report at
/// the declaration's location.
pub fn from_derive(input: &DeriveInput) -> (r: Result<FromOutput, CompoundError>)
    requires
        ast::spec_input_wf(input@),
    ensures
        r is Ok <==> from_derive::spec_from_diags(input@).len() == 0,
        r matches Err(e) ==> e@ == from_derive::spec_from_diags(input@),
        r matches Ok(o) ==> o@ == from_derive::spec_from_output(input@),
{
    from_derive::impl_from(input)
}

/// The Builder hook: runs the Builder generator on one declaration and hands
/// back either the setter methods to emit or the combined diagnostics to
/// report at the declaration's location.
pub fn builder_derive(input: &DeriveInput) -> (r: Result<BuilderOutput, CompoundError>)
    requires
        ast::spec_input_wf(input@),
    ensures
        r is Ok <==> builder_derive::spec_builder_diags(input@).len() == 0,
        r matches Err(e) ==> e@ == builder_derive::spec_builder_diags(input@),
        r matches Ok(o) ==> o@ == builder_derive::spec_builder_output(input@),
{
    builder_derive::impl_builder(input)
}

} // verus!
