//! A plain model of one type declaration and its annotations.
//!
//! The host language's parser turns source text into a declaration tree;
//! the generators only read a small part of it: the item's name, the layout
//! of its fields, the text of field types (opaque here), and flat
//! `key`-or-`key = literal` annotation lists at the container, variant and
//! field level. This module models exactly that part as plain values, with
//! a location identifier on every node an error can point at.

use vstd::prelude::*;

use crate::context::SpanId;

verus! {

/// The value given to one annotation key.
#[derive(Clone, Debug, PartialEq, Eq)]
pub enum MetaValue {
    /// The key stands alone (`skip`).
    Flag,
    /// The key is assigned a string literal (`rename = "value"`).
    Str(String),
    /// The key is assigned something that is not a string literal; the
    /// payload is the text of what was found, for the diagnostic.
    NonStr(String),
}

/// Mathematical model of a [`MetaValue`].
pub enum SpecMetaValue {
    Flag,
    Str(Seq<char>),
    NonStr(Seq<char>),
}

impl View for MetaValue {
    type V = SpecMetaValue;

    open spec fn view(&self) -> SpecMetaValue {
        match self {
            MetaValue::Flag => SpecMetaValue::Flag,
            MetaValue::Str(s) => SpecMetaValue::Str(s@),
            MetaValue::NonStr(s) => SpecMetaValue::NonStr(s@),
        }
    }
}

impl DeepView for MetaValue {
    type V = SpecMetaValue;

    open spec fn deep_view(&self) -> SpecMetaValue {
        self.view()
    }
}

/// One `key` or `key = value` entry inside an attribute list.
#[derive(Clone, Debug, PartialEq, Eq)]
pub struct MetaItem {
    pub key: String,
    pub value: MetaValue,
    pub span: SpanId,
}

/// Mathematical model of a [`MetaItem`].
pub struct SpecMetaItem {
    pub key: Seq<char>,
    pub value: SpecMetaValue,
    pub span: SpanId,
}

impl View for MetaItem {
    type V = SpecMetaItem;

    open spec fn view(&self) -> SpecMetaItem {
        SpecMetaItem { key: self.key@, value: self.value@, span: self.span }
    }
}

impl DeepView for MetaItem {
    type V = SpecMetaItem;

    open spec fn deep_view(&self) -> SpecMetaItem {
        self.view()
    }
}

/// One attribute attached to a declaration node: a path and its nested
/// entries. An attribute whose path is not the generator's namespace is
/// ignored entirely.
#[derive(Clone, Debug, PartialEq, Eq)]
pub struct AttrNode {
    pub path: String,
    pub items: Vec<MetaItem>,
    pub span: SpanId,
}

/// Mathematical model of an [`AttrNode`].
pub struct SpecAttrNode {
    pub path: Seq<char>,
    pub items: Seq<SpecMetaItem>,
    pub span: SpanId,
}

impl View for AttrNode {
    type V = SpecAttrNode;

    open spec fn view(&self) -> SpecAttrNode {
        SpecAttrNode { path: self.path@, items: self.items.deep_view(), span: self.span }
    }
}

impl DeepView for AttrNode {
    type V = SpecAttrNode;

    open spec fn deep_view(&self) -> SpecAttrNode {
        self.view()
    }
}

/// One declared field: its name (absent in tuple position), the text of its
/// declared type (opaque to the generators), and its attributes.
#[derive(Clone, Debug, PartialEq, Eq)]
pub struct FieldNode {
    pub name: Option<String>,
    pub ty: String,
    pub attrs: Vec<AttrNode>,
    pub span: SpanId,
}

/// Mathematical model of a [`FieldNode`].
pub struct SpecFieldNode {
    pub name: Option<Seq<char>>,
    pub ty: Seq<char>,
    pub attrs: Seq<SpecAttrNode>,
    pub span: SpanId,
}

impl View for FieldNode {
    type V = SpecFieldNode;

    open spec fn view(&self) -> SpecFieldNode {
        SpecFieldNode {
            name: self.name.deep_view(),
            ty: self.ty@,
            attrs: self.attrs.deep_view(),
            span: self.span,
        }
    }
}

impl DeepView for FieldNode {
    type V = SpecFieldNode;

    open spec fn deep_view(&self) -> SpecFieldNode {
        self.view()
    }
}

/// The field list of a struct or variant, as the host syntax distinguishes
/// it: named braces, unnamed parentheses, or no list at all.
#[derive(Clone, Debug, PartialEq, Eq)]
pub enum FieldsNode {
    Named(Vec<FieldNode>),
    Unnamed(Vec<FieldNode>),
    Unit,
}

/// Mathematical model of a [`FieldsNode`].
pub enum SpecFieldsNode {
    Named(Seq<SpecFieldNode>),
    Unnamed(Seq<SpecFieldNode>),
    Unit,
}

impl View for FieldsNode {
    type V = SpecFieldsNode;

    open spec fn view(&self) -> SpecFieldsNode {
        match self {
            FieldsNode::Named(fields) => SpecFieldsNode::Named(fields.deep_view()),
            FieldsNode::Unnamed(fields) => SpecFieldsNode::Unnamed(fields.deep_view()),
            FieldsNode::Unit => SpecFieldsNode::Unit,
        }
    }
}

impl DeepView for FieldsNode {
    type V = SpecFieldsNode;

    open spec fn deep_view(&self) -> SpecFieldsNode {
        self.view()
    }
}

/// One enum variant: its name, attributes and field list.
#[derive(Clone, Debug, PartialEq, Eq)]
pub struct VariantNode {
    pub ident: String,
    pub attrs: Vec<AttrNode>,
    pub fields: FieldsNode,
    pub span: SpanId,
}

/// Mathematical model of a [`VariantNode`].
pub struct SpecVariantNode {
    pub ident: Seq<char>,
    pub attrs: Seq<SpecAttrNode>,
    pub fields: SpecFieldsNode,
    pub span: SpanId,
}

impl View for VariantNode {
    type V = SpecVariantNode;

    open spec fn view(&self) -> SpecVariantNode {
        SpecVariantNode {
            ident: self.ident@,
            attrs: self.attrs.deep_view(),
            fields: self.fields@,
            span: self.span,
        }
    }
}

impl DeepView for VariantNode {
    type V = SpecVariantNode;

    open spec fn deep_view(&self) -> SpecVariantNode {
        self.view()
    }
}

/// What kind of declaration was given, and its contents. A union's fields
/// are always named.
#[derive(Clone, Debug, PartialEq, Eq)]
pub enum DataNode {
    Struct(FieldsNode),
    Enum(Vec<VariantNode>),
    Union(Vec<FieldNode>),
}

/// Mathematical model of a [`DataNode`].
pub enum SpecDataNode {
    Struct(SpecFieldsNode),
    Enum(Seq<SpecVariantNode>),
    Union(Seq<SpecFieldNode>),
}

impl View for DataNode {
    type V = SpecDataNode;

    open spec fn view(&self) -> SpecDataNode {
        match self {
            DataNode::Struct(fields) => SpecDataNode::Struct(fields@),
            DataNode::Enum(variants) => SpecDataNode::Enum(variants.deep_view()),
            DataNode::Union(fields) => SpecDataNode::Union(fields.deep_view()),
        }
    }
}

impl DeepView for DataNode {
    type V = SpecDataNode;

    open spec fn deep_view(&self) -> SpecDataNode {
        self.view()
    }
}

/// The declaration's generic parameters, already rendered for the three
/// positions an impl block uses them in. Opaque to the generators; copied
/// into the generated code unchanged.
#[derive(Debug, PartialEq, Eq)]
pub struct GenericsNode {
    pub impl_generics: String,
    pub type_generics: String,
    pub where_clause: String,
}

/// Mathematical model of a [`GenericsNode`].
pub struct SpecGenericsNode {
    pub impl_generics: Seq<char>,
    pub type_generics: Seq<char>,
    pub where_clause: Seq<char>,
}

impl View for GenericsNode {
    type V = SpecGenericsNode;

    open spec fn view(&self) -> SpecGenericsNode {
        SpecGenericsNode {
            impl_generics: self.impl_generics@,
            type_generics: self.type_generics@,
            where_clause: self.where_clause@,
        }
    }
}

impl DeepView for GenericsNode {
    type V = SpecGenericsNode;

    open spec fn deep_view(&self) -> SpecGenericsNode {
        self.view()
    }
}

impl Clone for GenericsNode {
    fn clone(&self) -> (r: Self)
        ensures
            r@ == self@,
    {
        GenericsNode {
            impl_generics: self.impl_generics.clone(),
            type_generics: self.type_generics.clone(),
            where_clause: self.where_clause.clone(),
        }
    }
}

/// One whole type declaration, as handed to a generator.
#[derive(Clone, Debug, PartialEq, Eq)]
pub struct DeriveInput {
    pub ident: String,
    pub vis: String,
    pub generics: GenericsNode,
    pub attrs: Vec<AttrNode>,
    pub data: DataNode,
    pub span: SpanId,
}

/// Mathematical model of a [`DeriveInput`].
pub struct SpecDeriveInput {
    pub ident: Seq<char>,
    pub vis: Seq<char>,
    pub generics: SpecGenericsNode,
    pub attrs: Seq<SpecAttrNode>,
    pub data: SpecDataNode,
    pub span: SpanId,
}

impl View for DeriveInput {
    type V = SpecDeriveInput;

    open spec fn view(&self) -> SpecDeriveInput {
        SpecDeriveInput {
            ident: self.ident@,
            vis: self.vis@,
            generics: self.generics@,
            attrs: self.attrs.deep_view(),
            data: self.data@,
            span: self.span,
        }
    }
}

impl DeepView for DeriveInput {
    type V = SpecDeriveInput;

    open spec fn deep_view(&self) -> SpecDeriveInput {
        self.view()
    }
}

/// A field list is well-formed when named braces hold only named fields and
/// unnamed parentheses hold only unnamed ones — what the host parser
/// guarantees of anything it hands over.
pub open spec fn spec_fields_node_wf(fields: SpecFieldsNode) -> bool {
    match fields {
        SpecFieldsNode::Named(l) => forall|i: int|
            0 <= i < l.len() ==> (#[trigger] l[i]).name is Some,
        SpecFieldsNode::Unnamed(l) => forall|i: int|
            0 <= i < l.len() ==> (#[trigger] l[i]).name is None,
        SpecFieldsNode::Unit => true,
    }
}

/// A declaration is well-formed when every field list in it is.
pub open spec fn spec_input_wf(d: SpecDeriveInput) -> bool {
    match d.data {
        SpecDataNode::Struct(fields) => spec_fields_node_wf(fields),
        SpecDataNode::Enum(vs) => forall|i: int|
            0 <= i < vs.len() ==> spec_fields_node_wf((#[trigger] vs[i]).fields),
        SpecDataNode::Union(fs) => forall|i: int|
            0 <= i < fs.len() ==> (#[trigger] fs[i]).name is Some,
    }
}

} // verus!
