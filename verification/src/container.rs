//! The container builder: one declaration in, one classified container out.
//!
//! The walk over the declaration tree is written once, generic over three
//! pluggable extractor schemas: one reads container-level annotations, one
//! variant-level, one field-level. Each schema states, as spec functions,
//! both the payload it extracts from a node and the diagnostics it records
//! while doing so; the walk's own contract is exact in terms of those.

use vstd::prelude::*;

use crate::ast::DeriveInput;
use crate::ast::FieldNode;
use crate::ast::FieldsNode;
use crate::ast::SpecDeriveInput;
use crate::ast::SpecFieldNode;
use crate::ast::SpecFieldsNode;
use crate::ast::SpecGenericsNode;
use crate::ast::SpecVariantNode;
use crate::ast::VariantNode;
use crate::context::Context;
use crate::context::SpanId;
use crate::context::SpecDiag;
use crate::data::Data;
use crate::data::Field;
use crate::data::Member;
use crate::data::SpecData;
use crate::data::SpecField;
use crate::data::SpecMember;
use crate::data::SpecVariant;
use crate::data::Style;
use crate::data::Variant;

verus! {

/// Extracts one generator's container-level annotation payload.
pub trait AttrContainer: Sized + View {
    /// The payload extracted from a declaration.
    spec fn spec_extract(item: SpecDeriveInput) -> Self::V;

    /// The diagnostics recorded while extracting, in order.
    spec fn spec_diags(item: SpecDeriveInput) -> Seq<SpecDiag>;

    /// Scans the declaration's own attributes.
    fn from_ast(cx: &mut Context, item: &DeriveInput) -> (r: Self)
        ensures
            r@ == Self::spec_extract(item@),
            final(cx)@ == old(cx)@ + Self::spec_diags(item@),
    ;
}

/// Extracts one generator's variant-level annotation payload.
pub trait AttrVariant: Sized + View {
    /// The payload extracted from a variant.
    spec fn spec_extract(variant: SpecVariantNode) -> Self::V;

    /// The diagnostics recorded while extracting, in order.
    spec fn spec_diags(variant: SpecVariantNode) -> Seq<SpecDiag>;

    /// Scans one variant's attributes.
    fn from_ast(cx: &mut Context, variant: &VariantNode) -> (r: Self)
        ensures
            r@ == Self::spec_extract(variant@),
            final(cx)@ == old(cx)@ + Self::spec_diags(variant@),
    ;
}

/// Extracts one generator's field-level annotation payload.
pub trait AttrField: Sized + View {
    /// The payload extracted from a field.
    spec fn spec_extract(field: SpecFieldNode) -> Self::V;

    /// The diagnostics recorded while extracting, in order.
    spec fn spec_diags(field: SpecFieldNode) -> Seq<SpecDiag>;

    /// Scans one field's attributes. `index` is the field's position, used
    /// as its identity when it has no name.
    fn from_ast(cx: &mut Context, index: usize, field: &FieldNode) -> (r: Self)
        ensures
            r@ == Self::spec_extract(field@),
            final(cx)@ == old(cx)@ + Self::spec_diags(field@),
    ;
}

/// The top-level parsed unit: identity, container payload, classified data,
/// and the declaration's generics and visibility, carried through to the
/// generated code.
pub struct Container<F, V, C> {
    pub ident: String,
    pub attrs: C,
    pub data: Data<F, V>,
    pub generics: crate::ast::GenericsNode,
    pub vis: String,
    pub span: SpanId,
}

/// Mathematical model of a [`Container`].
pub struct SpecContainer<FV, VV, CV> {
    pub ident: Seq<char>,
    pub attrs: CV,
    pub data: SpecData<FV, VV>,
    pub generics: SpecGenericsNode,
    pub vis: Seq<char>,
    pub span: SpanId,
}

impl<F: View, V: View, C: View> View for Container<F, V, C> {
    type V = SpecContainer<F::V, V::V, C::V>;

    open spec fn view(&self) -> SpecContainer<F::V, V::V, C::V> {
        SpecContainer {
            ident: self.ident@,
            attrs: self.attrs@,
            data: self.data@,
            generics: self.generics@,
            vis: self.vis@,
            span: self.span,
        }
    }
}

/// A field's identity: its name where it has one, else its position.
pub open spec fn spec_member(name: Option<Seq<char>>, index: int) -> SpecMember {
    match name {
        Some(n) => SpecMember::Named(n),
        None => SpecMember::Unnamed(index),
    }
}

/// The shape-model field built from the declared field at `index`.
pub open spec fn spec_field<F: AttrField>(index: int, f: SpecFieldNode) -> SpecField<F::V> {
    SpecField {
        member: spec_member(f.name, index),
        attrs: F::spec_extract(f),
        ty: f.ty,
        span: f.span,
    }
}

/// The shape-model fields built from a declared field list, in order.
pub open spec fn spec_fields<F: AttrField>(fs: Seq<SpecFieldNode>) -> Seq<SpecField<F::V>> {
    fs.map(|i: int, f: SpecFieldNode| spec_field::<F>(i, f))
}

/// The diagnostics recorded while extracting a field list, in field order.
pub open spec fn spec_fields_diags<F: AttrField>(fs: Seq<SpecFieldNode>) -> Seq<SpecDiag>
    decreases fs.len(),
{
    if fs.len() == 0 {
        Seq::empty()
    } else {
        spec_fields_diags::<F>(fs.drop_last()) + F::spec_diags(fs.last())
    }
}

/// The style a field list is classified as: no fields at all are unit, one
/// unnamed field is a newtype, several unnamed fields are a tuple, and named
/// fields (however many) are a struct.
pub open spec fn spec_style(fields: SpecFieldsNode) -> Style {
    match fields {
        SpecFieldsNode::Unit => Style::Unit,
        SpecFieldsNode::Unnamed(l) => if l.len() == 1 {
            Style::Newtype
        } else {
            Style::Tuple
        },
        SpecFieldsNode::Named(_) => Style::Struct,
    }
}

/// The declared fields carried by a field list.
pub open spec fn spec_fields_of(fields: SpecFieldsNode) -> Seq<SpecFieldNode> {
    match fields {
        SpecFieldsNode::Unit => Seq::empty(),
        SpecFieldsNode::Unnamed(l) => l,
        SpecFieldsNode::Named(l) => l,
    }
}

/// The shape-model variant built from a declared variant.
pub open spec fn spec_variant<F: AttrField, V: AttrVariant>(v: SpecVariantNode) -> SpecVariant<
    F::V,
    V::V,
> {
    SpecVariant {
        ident: v.ident,
        attrs: V::spec_extract(v),
        style: spec_style(v.fields),
        fields: spec_fields::<F>(spec_fields_of(v.fields)),
        span: v.span,
    }
}

/// The diagnostics recorded while extracting one variant: its own
/// annotations first, then its fields'.
pub open spec fn spec_variant_diags<F: AttrField, V: AttrVariant>(v: SpecVariantNode) -> Seq<
    SpecDiag,
> {
    V::spec_diags(v) + spec_fields_diags::<F>(spec_fields_of(v.fields))
}

/// The diagnostics recorded while extracting a variant list, in source order.
pub open spec fn spec_variants_diags<F: AttrField, V: AttrVariant>(vs: Seq<SpecVariantNode>) -> Seq<
    SpecDiag,
>
    decreases vs.len(),
{
    if vs.len() == 0 {
        Seq::empty()
    } else {
        spec_variants_diags::<F, V>(vs.drop_last()) + spec_variant_diags::<F, V>(vs.last())
    }
}

/// The classified data built from a declaration's contents.
pub open spec fn spec_data<F: AttrField, V: AttrVariant>(d: crate::ast::SpecDataNode) -> SpecData<
    F::V,
    V::V,
> {
    match d {
        crate::ast::SpecDataNode::Struct(fields) => SpecData::Struct(
            spec_style(fields),
            spec_fields::<F>(spec_fields_of(fields)),
        ),
        crate::ast::SpecDataNode::Enum(vs) => SpecData::Enum(
            vs.map_values(|v: SpecVariantNode| spec_variant::<F, V>(v)),
        ),
        crate::ast::SpecDataNode::Union(fs) => SpecData::Union(spec_fields::<F>(fs)),
    }
}

/// The diagnostics recorded while classifying a declaration's contents.
pub open spec fn spec_data_diags<F: AttrField, V: AttrVariant>(
    d: crate::ast::SpecDataNode,
) -> Seq<SpecDiag> {
    match d {
        crate::ast::SpecDataNode::Struct(fields) => spec_fields_diags::<F>(spec_fields_of(fields)),
        crate::ast::SpecDataNode::Enum(vs) => spec_variants_diags::<F, V>(vs),
        crate::ast::SpecDataNode::Union(fs) => spec_fields_diags::<F>(fs),
    }
}

/// The container built from a declaration.
pub open spec fn spec_container<F: AttrField, V: AttrVariant, C: AttrContainer>(
    item: SpecDeriveInput,
) -> SpecContainer<F::V, V::V, C::V> {
    SpecContainer {
        ident: item.ident,
        attrs: C::spec_extract(item),
        data: spec_data::<F, V>(item.data),
        generics: item.generics,
        vis: item.vis,
        span: item.span,
    }
}

/// The diagnostics recorded while building a container: container-level
/// annotations first, then the declaration's contents in source order.
pub open spec fn spec_container_diags<F: AttrField, V: AttrVariant, C: AttrContainer>(
    item: SpecDeriveInput,
) -> Seq<SpecDiag> {
    C::spec_diags(item) + spec_data_diags::<F, V>(item.data)
}

fn fields_from_ast<F: AttrField>(cx: &mut Context, fields: &Vec<FieldNode>) -> (r: Vec<Field<F>>)
    ensures
        r.deep_view() == spec_fields::<F>(fields.deep_view()),
        final(cx)@ == old(cx)@ + spec_fields_diags::<F>(fields.deep_view()),
{
    let ghost fv = fields.deep_view();
    let mut r: Vec<Field<F>> = Vec::new();
    let mut i: usize = 0;
    proof {
        assert(r.deep_view() =~= spec_fields::<F>(fv.take(0)));
        assert(cx@ =~= old(cx)@ + spec_fields_diags::<F>(fv.take(0)));
    }
    while i < fields.len()
        invariant
            i <= fields.len(),
            fv == fields.deep_view(),
            fields.len() == fv.len(),
            r.deep_view() == spec_fields::<F>(fv.take(i as int)),
            cx@ == old(cx)@ + spec_fields_diags::<F>(fv.take(i as int)),
        decreases fields.len() - i,
    {
        let field = &fields[i];
        let attrs = F::from_ast(cx, i, field);
        let member = match &field.name {
            Some(name) => Member::Named(name.clone()),
            None => Member::Unnamed(i),
        };
        let ghost prev = r.deep_view();
        r.push(Field { member, attrs, ty: field.ty.clone(), span: field.span });
        proof {
            fv.lemma_take_succ_push(i as int);
            assert(r.deep_view() =~= prev.push(spec_field::<F>(i as int, fv[i as int])));
            assert(spec_fields::<F>(fv.take(i + 1)) =~= spec_fields::<F>(fv.take(i as int)).push(
                spec_field::<F>(i as int, fv[i as int]),
            ));
            assert(fv.take(i + 1).drop_last() =~= fv.take(i as int));
            assert(cx@ =~= old(cx)@ + spec_fields_diags::<F>(fv.take(i + 1)));
        }
        i = i + 1;
    }
    proof {
        assert(fv.take(fv.len() as int) =~= fv);
    }
    r
}

fn struct_from_ast<F: AttrField>(cx: &mut Context, fields: &FieldsNode) -> (r: (
    Style,
    Vec<Field<F>>,
))
    ensures
        r.0 == spec_style(fields@),
        r.1.deep_view() == spec_fields::<F>(spec_fields_of(fields@)),
        final(cx)@ == old(cx)@ + spec_fields_diags::<F>(spec_fields_of(fields@)),
{
    match fields {
        FieldsNode::Unit => {
            let r: Vec<Field<F>> = Vec::new();
            proof {
                assert(r.deep_view() =~= spec_fields::<F>(spec_fields_of(fields@)));
                assert(cx@ =~= old(cx)@ + spec_fields_diags::<F>(spec_fields_of(fields@)));
            }
            (Style::Unit, r)
        },
        FieldsNode::Unnamed(list) => {
            let style = if list.len() == 1 {
                Style::Newtype
            } else {
                Style::Tuple
            };
            (style, fields_from_ast::<F>(cx, list))
        },
        FieldsNode::Named(list) => (Style::Struct, fields_from_ast::<F>(cx, list)),
    }
}

fn union_from_ast<F: AttrField>(cx: &mut Context, fields: &Vec<FieldNode>) -> (r: Vec<Field<F>>)
    ensures
        r.deep_view() == spec_fields::<F>(fields.deep_view()),
        final(cx)@ == old(cx)@ + spec_fields_diags::<F>(fields.deep_view()),
{
    fields_from_ast::<F>(cx, fields)
}

fn enum_from_ast<F: AttrField, V: AttrVariant>(cx: &mut Context, variants: &Vec<VariantNode>) -> (r:
    Vec<Variant<F, V>>)
    ensures
        r.deep_view() == variants.deep_view().map_values(
            |v: SpecVariantNode| spec_variant::<F, V>(v),
        ),
        final(cx)@ == old(cx)@ + spec_variants_diags::<F, V>(variants.deep_view()),
{
    let ghost vv = variants.deep_view();
    let mut r: Vec<Variant<F, V>> = Vec::new();
    let mut i: usize = 0;
    proof {
        assert(r.deep_view() =~= vv.take(0).map_values(
            |v: SpecVariantNode| spec_variant::<F, V>(v),
        ));
        assert(cx@ =~= old(cx)@ + spec_variants_diags::<F, V>(vv.take(0)));
    }
    while i < variants.len()
        invariant
            i <= variants.len(),
            vv == variants.deep_view(),
            variants.len() == vv.len(),
            r.deep_view() == vv.take(i as int).map_values(
                |v: SpecVariantNode| spec_variant::<F, V>(v),
            ),
            cx@ == old(cx)@ + spec_variants_diags::<F, V>(vv.take(i as int)),
        decreases variants.len() - i,
    {
        let variant = &variants[i];
        let attrs = V::from_ast(cx, variant);
        let (style, fs) = struct_from_ast::<F>(cx, &variant.fields);
        let ghost prev = r.deep_view();
        r.push(
            Variant {
                ident: variant.ident.clone(),
                attrs,
                style,
                fields: fs,
                span: variant.span,
            },
        );
        proof {
            vv.lemma_take_succ_push(i as int);
            assert(r.deep_view() =~= prev.push(spec_variant::<F, V>(vv[i as int])));
            assert(vv.take(i + 1).map_values(|v: SpecVariantNode| spec_variant::<F, V>(v)) =~= vv
                .take(i as int).map_values(|v: SpecVariantNode| spec_variant::<F, V>(v)).push(
                spec_variant::<F, V>(vv[i as int]),
            ));
            assert(vv.take(i + 1).drop_last() =~= vv.take(i as int));
            assert(cx@ =~= old(cx)@ + spec_variants_diags::<F, V>(vv.take(i + 1)));
        }
        i = i + 1;
    }
    proof {
        assert(vv.take(vv.len() as int) =~= vv);
    }
    r
}

impl<F: AttrField, V: AttrVariant, C: AttrContainer> Container<F, V, C> {
    /// Builds the uniform container from one declaration: extracts
    /// container-level annotations, classifies the contents, and extracts
    /// variant- and field-level annotations along the way. Every annotation
    /// problem is recorded into `cx`; the shape itself always classifies.
    pub fn from_ast(cx: &mut Context, item: &DeriveInput) -> (r: Container<F, V, C>)
        ensures
            r@ == spec_container::<F, V, C>(item@),
            final(cx)@ == old(cx)@ + spec_container_diags::<F, V, C>(item@),
    {
        let attrs = C::from_ast(cx, item);
        let data = match &item.data {
            crate::ast::DataNode::Struct(fields) => {
                let (style, fs) = struct_from_ast::<F>(cx, fields);
                Data::Struct(style, fs)
            },
            crate::ast::DataNode::Enum(variants) => Data::Enum(
                enum_from_ast::<F, V>(cx, variants),
            ),
            crate::ast::DataNode::Union(fields) => Data::Union(union_from_ast::<F>(cx, fields)),
        };
        let r = Container {
            ident: item.ident.clone(),
            attrs,
            data,
            generics: item.generics.clone(),
            vis: item.vis.clone(),
            span: item.span,
        };
        proof {
            assert(cx@ =~= old(cx)@ + spec_container_diags::<F, V, C>(item@));
        }
        r
    }
}

} // verus!
