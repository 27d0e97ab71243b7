//! The shape model: a parsed declaration in uniform form.
//!
//! A declaration is broken into ordered fields with a positional-or-named
//! identity and a structural [`Style`], independent of which generator
//! consumes it. The annotation payload of fields, variants and the container
//! is a type parameter, so the same shape model serves both generators.

use vstd::prelude::*;

use crate::context::SpanId;

verus! {

/// The structural category of a field list: named fields, two or more
/// unnamed fields, exactly one unnamed field, or none at all.
#[derive(Clone, Copy, Debug, PartialEq, Eq, Structural)]
pub enum Style {
    Struct,
    Tuple,
    Newtype,
    Unit,
}

/// A field's identity: its name, or its position.
#[derive(Clone, Debug, PartialEq, Eq)]
pub enum Member {
    Named(String),
    Unnamed(usize),
}

/// Mathematical model of a [`Member`].
pub enum SpecMember {
    Named(Seq<char>),
    Unnamed(int),
}

impl View for Member {
    type V = SpecMember;

    open spec fn view(&self) -> SpecMember {
        match self {
            Member::Named(name) => SpecMember::Named(name@),
            Member::Unnamed(i) => SpecMember::Unnamed(*i as int),
        }
    }
}

impl DeepView for Member {
    type V = SpecMember;

    open spec fn deep_view(&self) -> SpecMember {
        self.view()
    }
}

/// One field of the shape model: identity, extracted annotations, and the
/// declared type's text.
pub struct Field<A> {
    pub member: Member,
    pub attrs: A,
    pub ty: String,
    pub span: SpanId,
}

/// Mathematical model of a [`Field`].
pub struct SpecField<AV> {
    pub member: SpecMember,
    pub attrs: AV,
    pub ty: Seq<char>,
    pub span: SpanId,
}

impl<A: View> View for Field<A> {
    type V = SpecField<A::V>;

    open spec fn view(&self) -> SpecField<A::V> {
        SpecField { member: self.member@, attrs: self.attrs@, ty: self.ty@, span: self.span }
    }
}

impl<A: View> DeepView for Field<A> {
    type V = SpecField<A::V>;

    open spec fn deep_view(&self) -> SpecField<A::V> {
        self.view()
    }
}

/// One enum variant of the shape model.
pub struct Variant<F, V> {
    pub ident: String,
    pub attrs: V,
    pub style: Style,
    pub fields: Vec<Field<F>>,
    pub span: SpanId,
}

/// Mathematical model of a [`Variant`].
pub struct SpecVariant<FV, VV> {
    pub ident: Seq<char>,
    pub attrs: VV,
    pub style: Style,
    pub fields: Seq<SpecField<FV>>,
    pub span: SpanId,
}

impl<F: View, V: View> View for Variant<F, V> {
    type V = SpecVariant<F::V, V::V>;

    open spec fn view(&self) -> SpecVariant<F::V, V::V> {
        SpecVariant {
            ident: self.ident@,
            attrs: self.attrs@,
            style: self.style,
            fields: self.fields.deep_view(),
            span: self.span,
        }
    }
}

impl<F: View, V: View> DeepView for Variant<F, V> {
    type V = SpecVariant<F::V, V::V>;

    open spec fn deep_view(&self) -> SpecVariant<F::V, V::V> {
        self.view()
    }
}

/// The classified contents of a declaration: a struct's fields with their
/// style, an enum's variants, or a union's flat fields.
pub enum Data<F, V> {
    Struct(Style, Vec<Field<F>>),
    Enum(Vec<Variant<F, V>>),
    Union(Vec<Field<F>>),
}

/// Mathematical model of a [`Data`].
pub enum SpecData<FV, VV> {
    Struct(Style, Seq<SpecField<FV>>),
    Enum(Seq<SpecVariant<FV, VV>>),
    Union(Seq<SpecField<FV>>),
}

impl<F: View, V: View> View for Data<F, V> {
    type V = SpecData<F::V, V::V>;

    open spec fn view(&self) -> SpecData<F::V, V::V> {
        match self {
            Data::Struct(style, fields) => SpecData::Struct(*style, fields.deep_view()),
            Data::Enum(variants) => SpecData::Enum(variants.deep_view()),
            Data::Union(fields) => SpecData::Union(fields.deep_view()),
        }
    }
}

impl<F: View, V: View> DeepView for Data<F, V> {
    type V = SpecData<F::V, V::V>;

    open spec fn deep_view(&self) -> SpecData<F::V, V::V> {
        self.view()
    }
}

/// The name a member carries; positional members have none.
pub open spec fn spec_member_name(m: SpecMember) -> Seq<char> {
    match m {
        SpecMember::Named(n) => n,
        SpecMember::Unnamed(_) => Seq::empty(),
    }
}

/// The fields of a sequence of variants, in variant order.
pub open spec fn spec_enum_fields<FV, VV>(variants: Seq<SpecVariant<FV, VV>>) -> Seq<
    SpecField<FV>,
>
    decreases variants.len(),
{
    if variants.len() == 0 {
        Seq::empty()
    } else {
        spec_enum_fields(variants.drop_last()) + variants.last().fields
    }
}

impl<FV, VV> SpecData<FV, VV> {
    /// Every field of the declaration, in declaration order; an enum
    /// contributes the fields of each variant in variant order.
    pub open spec fn spec_all_fields(self) -> Seq<SpecField<FV>> {
        match self {
            SpecData::Struct(_, fields) => fields,
            SpecData::Enum(variants) => spec_enum_fields(variants),
            SpecData::Union(fields) => fields,
        }
    }
}

fn flat_fields<'a, F: View>(fields: &'a Vec<Field<F>>) -> (r: Vec<&'a Field<F>>)
    ensures
        r.deep_view() == fields.deep_view(),
{
    let mut r: Vec<&'a Field<F>> = Vec::new();
    let mut i: usize = 0;
    while i < fields.len()
        invariant
            i <= fields.len(),
            r.deep_view() =~= fields.deep_view().take(i as int),
        decreases fields.len() - i,
    {
        r.push(&fields[i]);
        proof {
            fields.deep_view().lemma_take_succ_push(i as int);
            assert(r.deep_view() =~= fields.deep_view().take(i + 1));
        }
        i = i + 1;
    }
    proof {
        assert(fields.deep_view().take(fields.len() as int) =~= fields.deep_view());
    }
    r
}

impl<F: View, V: View> Data<F, V> {
    /// Every field of the declaration, in declaration order.
    pub fn all_fields<'a>(&'a self) -> (r: Vec<&'a Field<F>>)
        ensures
            r.deep_view() == self@.spec_all_fields(),
    {
        match self {
            Data::Struct(_, fields) => flat_fields(fields),
            Data::Union(fields) => flat_fields(fields),
            Data::Enum(variants) => {
                let mut r: Vec<&'a Field<F>> = Vec::new();
                let mut i: usize = 0;
                while i < variants.len()
                    invariant
                        i <= variants.len(),
                        r.deep_view() =~= spec_enum_fields(variants.deep_view().take(i as int)),
                    decreases variants.len() - i,
                {
                    let fields = &variants[i].fields;
                    let mut j: usize = 0;
                    while j < fields.len()
                        invariant
                            j <= fields.len(),
                            fields == &variants@[i as int].fields,
                            i < variants.len(),
                            r.deep_view() =~= spec_enum_fields(
                                variants.deep_view().take(i as int),
                            ) + fields.deep_view().take(j as int),
                        decreases fields.len() - j,
                    {
                        let ghost prev = r.deep_view();
                        r.push(&fields[j]);
                        proof {
                            assert(r.deep_view() =~= prev.push(fields.deep_view()[j as int]));
                            fields.deep_view().lemma_take_succ_push(j as int);
                            assert(r.deep_view() =~= spec_enum_fields(
                                variants.deep_view().take(i as int),
                            ) + fields.deep_view().take(j + 1));
                        }
                        j = j + 1;
                    }
                    proof {
                        let dv = variants.deep_view();
                        assert(dv.take(i + 1).len() == i + 1);
                        assert(dv.take(i + 1).drop_last() =~= dv.take(i as int));
                        assert(dv.take(i + 1).last() == dv[i as int]);
                        assert(spec_enum_fields(dv.take(i + 1)) == spec_enum_fields(
                            dv.take(i as int),
                        ) + dv[i as int].fields);
                        assert(dv[i as int].fields == fields.deep_view());
                        assert(fields.deep_view().take(fields.len() as int) =~= fields.deep_view());
                        assert(r.deep_view() =~= spec_enum_fields(dv.take(i + 1)));
                    }
                    i = i + 1;
                }
                proof {
                    assert(variants.deep_view().take(variants.len() as int) =~= variants.deep_view(
                    ));
                }
                r
            },
        }
    }
}

} // verus!
