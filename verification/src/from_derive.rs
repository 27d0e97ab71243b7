//! The From generator: one trivial conversion per eligible shape.
//!
//! A struct gets one conversion; an enum gets one per variant not marked
//! `skip` (the only keyword, inside the `from` namespace, recognized at the
//! variant level only); a union is rejected. The conversion's source type
//! collapses single fields: no fields convert from the empty tuple, one
//! field from that field's own type, and two or more from a tuple of the
//! field types in declaration order. The body assigns source component `i`
//! to field `i`; field names never enter the source type.

use vstd::prelude::*;

use crate::ast::DeriveInput;
use crate::ast::FieldNode;
use crate::ast::MetaValue;
use crate::ast::SpecAttrNode;
use crate::ast::SpecDeriveInput;
use crate::ast::SpecFieldNode;
use crate::ast::SpecMetaItem;
use crate::ast::SpecMetaValue;
use crate::ast::SpecVariantNode;
use crate::ast::VariantNode;
use crate::attr::BoolAttr;
use crate::container::AttrContainer;
use crate::container::AttrField;
use crate::container::AttrVariant;
use crate::container::Container;
use crate::container::spec_container_diags;
use crate::container::spec_data;
use crate::container::spec_fields;
use crate::container::spec_fields_of;
use crate::container::spec_style;
use crate::context::AttrLevel;
use crate::context::CompoundError;
use crate::context::Context;
use crate::context::DeriveKind;
use crate::context::ErrorKind;
use crate::context::ShapeKind;
use crate::context::SpecDiag;
use crate::context::SpecErrorKind;
use crate::context::spec_dup;
use crate::context::spec_unexpected_value;
use crate::context::spec_unknown;
use crate::data::Data;
use crate::data::Field;
use crate::data::Member;
use crate::data::SpecData;
use crate::data::SpecField;
use crate::data::SpecVariant;
use crate::data::Style;
use crate::data::spec_member_name;
use crate::symbol::Symbol;

verus! {

/// Container-level From payload: container-level `from` attributes are not
/// scanned, so nothing is recognized and nothing is extracted.
pub struct FromContainer;

impl View for FromContainer {
    type V = ();

    open spec fn view(&self) -> () {
        ()
    }
}

impl AttrContainer for FromContainer {
    open spec fn spec_extract(item: SpecDeriveInput) -> () {
        ()
    }

    open spec fn spec_diags(item: SpecDeriveInput) -> Seq<SpecDiag> {
        Seq::empty()
    }

    /// From recognizes no container-level keywords; nothing is scanned.
    fn from_ast(cx: &mut Context, item: &DeriveInput) -> (r: Self) {
        proof {
            assert(cx@ =~= old(cx)@ + Seq::<SpecDiag>::empty());
        }
        FromContainer
    }
}

/// Field-level From payload: no field keywords are recognized.
pub struct FromField;

impl View for FromField {
    type V = ();

    open spec fn view(&self) -> () {
        ()
    }
}

impl AttrField for FromField {
    open spec fn spec_extract(field: SpecFieldNode) -> () {
        ()
    }

    open spec fn spec_diags(field: SpecFieldNode) -> Seq<SpecDiag> {
        Seq::empty()
    }

    /// From recognizes no field-level keywords; nothing is scanned.
    fn from_ast(cx: &mut Context, index: usize, field: &FieldNode) -> (r: Self) {
        proof {
            assert(cx@ =~= old(cx)@ + Seq::<SpecDiag>::empty());
        }
        FromField
    }
}

/// Variant-level From payload: whether the variant is skipped.
#[derive(Debug, PartialEq, Eq)]
pub struct FromVariant {
    pub skip: bool,
}

/// Mathematical model of a [`FromVariant`].
pub struct SpecFromVariant {
    pub skip: bool,
}

impl View for FromVariant {
    type V = SpecFromVariant;

    open spec fn view(&self) -> SpecFromVariant {
        SpecFromVariant { skip: self.skip }
    }
}

/// Scan state at the From variant level: the skip flag and the diagnostics
/// recorded so far.
pub struct SpecFromVariantScan {
    pub skip: bool,
    pub diags: Seq<SpecDiag>,
}

/// The state before anything is scanned.
pub open spec fn spec_fv_init() -> SpecFromVariantScan {
    SpecFromVariantScan { skip: false, diags: Seq::empty() }
}

/// One variant-level scan step. `skip` is the only keyword; giving it a
/// value is an error after the flag is processed; any other key is unknown
/// and stops the attribute.
pub open spec fn spec_fv_step(st: SpecFromVariantScan, item: SpecMetaItem) -> (
    SpecFromVariantScan,
    bool,
) {
    if item.key == "skip"@ {
        let st1 = if st.skip {
            SpecFromVariantScan { diags: st.diags.push(spec_dup("skip"@, item.span)), ..st }
        } else {
            SpecFromVariantScan { skip: true, ..st }
        };
        match item.value {
            SpecMetaValue::Flag => (st1, false),
            _ => (
                SpecFromVariantScan {
                    diags: st1.diags.push(spec_unexpected_value("skip"@, item.span)),
                    ..st1
                },
                true,
            ),
        }
    } else {
        (
            SpecFromVariantScan {
                diags: st.diags.push(
                    spec_unknown(AttrLevel::Variant, "from"@, item.key, item.span),
                ),
                ..st
            },
            true,
        )
    }
}

/// Scans an attribute's entries from position `i` on, stopping early when a
/// step says so.
pub open spec fn spec_fv_items(
    st: SpecFromVariantScan,
    items: Seq<SpecMetaItem>,
    i: int,
) -> SpecFromVariantScan
    decreases items.len() - i,
{
    if i < 0 || i >= items.len() {
        st
    } else {
        let step = spec_fv_step(st, items[i]);
        if step.1 {
            step.0
        } else {
            spec_fv_items(step.0, items, i + 1)
        }
    }
}

/// Scans the attributes from position `i` on; only attributes in the `from`
/// namespace are looked into.
pub open spec fn spec_fv_attrs(
    st: SpecFromVariantScan,
    attrs: Seq<SpecAttrNode>,
    i: int,
) -> SpecFromVariantScan
    decreases attrs.len() - i,
{
    if i < 0 || i >= attrs.len() {
        st
    } else {
        let st1 = if attrs[i].path == "from"@ {
            spec_fv_items(st, attrs[i].items, 0)
        } else {
            st
        };
        spec_fv_attrs(st1, attrs, i + 1)
    }
}

/// The full variant-level scan of one declared variant.
pub open spec fn spec_fv_scan(variant: SpecVariantNode) -> SpecFromVariantScan {
    spec_fv_attrs(spec_fv_init(), variant.attrs, 0)
}

impl AttrVariant for FromVariant {
    open spec fn spec_extract(variant: SpecVariantNode) -> SpecFromVariant {
        SpecFromVariant { skip: spec_fv_scan(variant).skip }
    }

    open spec fn spec_diags(variant: SpecVariantNode) -> Seq<SpecDiag> {
        spec_fv_scan(variant).diags
    }

    #[verifier::loop_isolation(false)]
    fn from_ast(cx: &mut Context, variant: &VariantNode) -> (r: Self) {
        let skip_sym = Symbol::new("skip");
        let from_sym = Symbol::new("from");
        let mut skip = BoolAttr::none(Symbol::new("skip"));
        let ghost attrsv = variant.attrs.deep_view();
        let ghost mut st = spec_fv_init();
        let mut a: usize = 0;
        while a < variant.attrs.len()
            invariant
                a <= variant.attrs.len(),
                skip.spec_name() == "skip"@,
                skip.spec_is_set() == st.skip,
                cx@ == old(cx)@ + st.diags,
                spec_fv_attrs(spec_fv_init(), attrsv, 0) == spec_fv_attrs(st, attrsv, a as int),
            decreases variant.attrs.len() - a,
        {
            let attr = &variant.attrs[a];
            proof {
                assert(attr@ == attrsv[a as int]);
            }
            if from_sym.matches(&attr.path) {
                let ghost st_enter = st;
                let ghost itemsv = attrsv[a as int].items;
                proof {
                    assert(itemsv == attr.items.deep_view());
                }
                let mut j: usize = 0;
                let mut aborted = false;
                while j < attr.items.len() && !aborted
                    invariant
                        j <= attr.items.len(),
                        skip.spec_name() == "skip"@,
                        skip.spec_is_set() == st.skip,
                        cx@ == old(cx)@ + st.diags,
                        !aborted ==> spec_fv_items(st_enter, itemsv, 0) == spec_fv_items(
                            st,
                            itemsv,
                            j as int,
                        ),
                        aborted ==> spec_fv_items(st_enter, itemsv, 0) == st,
                    decreases attr.items.len() - j,
                {
                    let entry = &attr.items[j];
                    proof {
                        assert(entry@ == itemsv[j as int]);
                    }
                    let ghost st_pre = st;
                    if skip_sym.matches(&entry.key) {
                        skip.set_true(cx, entry.span);
                        match &entry.value {
                            MetaValue::Flag => {},
                            _ => {
                                cx.error_spanned_by(
                                    entry.span,
                                    ErrorKind::UnexpectedValue {
                                        keyword: skip_sym.as_string().clone(),
                                    },
                                );
                                aborted = true;
                            },
                        }
                    } else {
                        cx.error_spanned_by(
                            entry.span,
                            ErrorKind::UnknownAttr {
                                level: AttrLevel::Variant,
                                namespace: from_sym.as_string().clone(),
                                key: entry.key.clone(),
                            },
                        );
                        aborted = true;
                    }
                    proof {
                        let step = spec_fv_step(st_pre, itemsv[j as int]);
                        st = step.0;
                        assert(aborted == step.1);
                        assert(cx@ =~= old(cx)@ + st.diags);
                    }
                    j = j + 1;
                }
                proof {
                    assert(spec_fv_items(st_enter, itemsv, 0) == st);
                    assert(spec_fv_attrs(st_enter, attrsv, a as int) == spec_fv_attrs(
                        st,
                        attrsv,
                        a + 1,
                    ));
                }
            }
            a = a + 1;
        }
        let r = FromVariant { skip: skip.get() };
        proof {
            assert(spec_fv_attrs(st, attrsv, attrsv.len() as int) == st);
            assert(r@ == Self::spec_extract(variant@));
            assert(cx@ == old(cx)@ + Self::spec_diags(variant@));
        }
        r
    }
}

/// The source type of one generated conversion: the empty tuple, one bare
/// field type, or a tuple of field types in declaration order.
#[derive(Debug, PartialEq, Eq)]
pub enum FromSource {
    Unit,
    Single(String),
    Tuple(Vec<String>),
}

/// Mathematical model of a [`FromSource`].
pub enum SpecFromSource {
    Unit,
    Single(Seq<char>),
    Tuple(Seq<Seq<char>>),
}

impl View for FromSource {
    type V = SpecFromSource;

    open spec fn view(&self) -> SpecFromSource {
        match self {
            FromSource::Unit => SpecFromSource::Unit,
            FromSource::Single(ty) => SpecFromSource::Single(ty@),
            FromSource::Tuple(tys) => SpecFromSource::Tuple(tys.deep_view()),
        }
    }
}

/// How the body of one generated conversion builds the value: the bare
/// constructor, the constructor applied to the whole source value, the
/// constructor applied to the source's components in order, or the named
/// forms that assign the source (or its component `i`) into a named field.
#[derive(Debug, PartialEq, Eq)]
pub enum FromBody {
    Bare,
    Call,
    CallTuple(usize),
    NamedSingle(String),
    NamedTuple(Vec<String>),
}

/// Mathematical model of a [`FromBody`].
pub enum SpecFromBody {
    Bare,
    Call,
    CallTuple(int),
    NamedSingle(Seq<char>),
    NamedTuple(Seq<Seq<char>>),
}

impl View for FromBody {
    type V = SpecFromBody;

    open spec fn view(&self) -> SpecFromBody {
        match self {
            FromBody::Bare => SpecFromBody::Bare,
            FromBody::Call => SpecFromBody::Call,
            FromBody::CallTuple(n) => SpecFromBody::CallTuple(*n as int),
            FromBody::NamedSingle(name) => SpecFromBody::NamedSingle(name@),
            FromBody::NamedTuple(names) => SpecFromBody::NamedTuple(names.deep_view()),
        }
    }
}

/// One generated conversion: which enum variant it constructs (none for a
/// struct), its source type, and its body.
#[derive(Debug, PartialEq, Eq)]
pub struct FromImpl {
    pub variant: Option<String>,
    pub source: FromSource,
    pub body: FromBody,
}

/// Mathematical model of a [`FromImpl`].
pub struct SpecFromImpl {
    pub variant: Option<Seq<char>>,
    pub source: SpecFromSource,
    pub body: SpecFromBody,
}

impl View for FromImpl {
    type V = SpecFromImpl;

    open spec fn view(&self) -> SpecFromImpl {
        SpecFromImpl { variant: self.variant.deep_view(), source: self.source@, body: self.body@ }
    }
}

impl DeepView for FromImpl {
    type V = SpecFromImpl;

    open spec fn deep_view(&self) -> SpecFromImpl {
        self.view()
    }
}

/// The From generator's emitted code: one conversion per eligible shape,
/// each an impl of the conversion trait on the declared type.
#[derive(Debug, PartialEq, Eq)]
pub struct FromOutput {
    pub ident: String,
    pub generics: crate::ast::GenericsNode,
    pub impls: Vec<FromImpl>,
}

/// Mathematical model of a [`FromOutput`].
pub struct SpecFromOutput {
    pub ident: Seq<char>,
    pub generics: crate::ast::SpecGenericsNode,
    pub impls: Seq<SpecFromImpl>,
}

impl View for FromOutput {
    type V = SpecFromOutput;

    open spec fn view(&self) -> SpecFromOutput {
        SpecFromOutput {
            ident: self.ident@,
            generics: self.generics@,
            impls: self.impls.deep_view(),
        }
    }
}

/// The declared types of a field list, in order.
pub open spec fn spec_field_tys(fields: Seq<SpecField<()>>) -> Seq<Seq<char>> {
    fields.map_values(|f: SpecField<()>| f.ty)
}

/// The names of a field list, in order.
pub open spec fn spec_field_names(fields: Seq<SpecField<()>>) -> Seq<Seq<char>> {
    fields.map_values(|f: SpecField<()>| spec_member_name(f.member))
}

/// The source type of the conversion generated for one shape: no fields
/// convert from the empty tuple, one field from its own bare type, and two
/// or more from the tuple of their types in declaration order.
pub open spec fn spec_gen_source(style: Style, fields: Seq<SpecField<()>>) -> SpecFromSource {
    match style {
        Style::Unit => SpecFromSource::Unit,
        Style::Newtype => SpecFromSource::Single(fields[0].ty),
        Style::Tuple => if fields.len() == 1 {
            SpecFromSource::Single(fields[0].ty)
        } else {
            SpecFromSource::Tuple(spec_field_tys(fields))
        },
        Style::Struct => if fields.len() == 1 {
            SpecFromSource::Single(fields[0].ty)
        } else {
            SpecFromSource::Tuple(spec_field_tys(fields))
        },
    }
}

/// The body of the conversion generated for one shape. Unnamed fields are
/// filled positionally; named fields are assigned by name, still reading
/// the source positionally.
pub open spec fn spec_gen_body(style: Style, fields: Seq<SpecField<()>>) -> SpecFromBody {
    match style {
        Style::Unit => SpecFromBody::Bare,
        Style::Newtype => SpecFromBody::Call,
        Style::Tuple => if fields.len() == 1 {
            SpecFromBody::Call
        } else {
            SpecFromBody::CallTuple(fields.len() as int)
        },
        Style::Struct => if fields.len() == 1 {
            SpecFromBody::NamedSingle(spec_member_name(fields[0].member))
        } else {
            SpecFromBody::NamedTuple(spec_field_names(fields))
        },
    }
}

#[verifier::loop_isolation(false)]
fn field_tys(fields: &Vec<Field<FromField>>) -> (r: Vec<String>)
    ensures
        r.deep_view() == spec_field_tys(fields.deep_view()),
{
    let ghost fv = fields.deep_view();
    let mut r: Vec<String> = Vec::new();
    let mut i: usize = 0;
    while i < fields.len()
        invariant
            i <= fields.len(),
            fv == fields.deep_view(),
            fields.len() == fv.len(),
            r.deep_view() == spec_field_tys(fv.take(i as int)),
        decreases fields.len() - i,
    {
        let ghost prev = r.deep_view();
        r.push(fields[i].ty.clone());
        proof {
            fv.lemma_take_succ_push(i as int);
            assert(r.deep_view() =~= prev.push(fv[i as int].ty));
            assert(r.deep_view() =~= spec_field_tys(fv.take(i + 1)));
        }
        i = i + 1;
    }
    proof {
        assert(fv.take(fv.len() as int) =~= fv);
    }
    r
}

#[verifier::loop_isolation(false)]
fn field_names(fields: &Vec<Field<FromField>>) -> (r: Vec<String>)
    requires
        forall|i: int|
            0 <= i < fields.deep_view().len() ==> (#[trigger] fields.deep_view()[i]).member
                is Named,
    ensures
        r.deep_view() == spec_field_names(fields.deep_view()),
{
    let ghost fv = fields.deep_view();
    let mut r: Vec<String> = Vec::new();
    let mut i: usize = 0;
    while i < fields.len()
        invariant
            i <= fields.len(),
            fv == fields.deep_view(),
            fields.len() == fv.len(),
            r.deep_view() == spec_field_names(fv.take(i as int)),
        decreases fields.len() - i,
    {
        let ghost prev = r.deep_view();
        let name: &String = match &fields[i].member {
            Member::Named(n) => n,
            Member::Unnamed(_) => unreached(),
        };
        r.push(name.clone());
        proof {
            fv.lemma_take_succ_push(i as int);
            assert(r.deep_view() =~= prev.push(spec_member_name(fv[i as int].member)));
            assert(r.deep_view() =~= spec_field_names(fv.take(i + 1)));
        }
        i = i + 1;
    }
    proof {
        assert(fv.take(fv.len() as int) =~= fv);
    }
    r
}

/// Computes the conversion source type and body for one shape.
pub fn gen_info(style: Style, fields: &Vec<Field<FromField>>) -> (r: (FromSource, FromBody))
    requires
        style == Style::Newtype ==> fields.deep_view().len() == 1,
        style == Style::Struct ==> forall|i: int|
            0 <= i < fields.deep_view().len() ==> (#[trigger] fields.deep_view()[i]).member
                is Named,
    ensures
        r.0@ == spec_gen_source(style, fields.deep_view()),
        r.1@ == spec_gen_body(style, fields.deep_view()),
{
    match style {
        Style::Unit => (FromSource::Unit, FromBody::Bare),
        Style::Newtype => (FromSource::Single(fields[0].ty.clone()), FromBody::Call),
        Style::Tuple => {
            if fields.len() == 1 {
                (FromSource::Single(fields[0].ty.clone()), FromBody::Call)
            } else {
                let n = fields.len();
                (FromSource::Tuple(field_tys(fields)), FromBody::CallTuple(n))
            }
        },
        Style::Struct => {
            if fields.len() == 1 {
                let name: &String = match &fields[0].member {
                    Member::Named(n) => n,
                    Member::Unnamed(_) => unreached(),
                };
                (
                    FromSource::Single(fields[0].ty.clone()),
                    FromBody::NamedSingle(name.clone()),
                )
            } else {
                (FromSource::Tuple(field_tys(fields)), FromBody::NamedTuple(field_names(fields)))
            }
        },
    }
}

/// The conversion generated for one enum variant.
pub open spec fn spec_variant_impl(v: SpecVariant<(), SpecFromVariant>) -> SpecFromImpl {
    SpecFromImpl {
        variant: Some(v.ident),
        source: spec_gen_source(v.style, v.fields),
        body: spec_gen_body(v.style, v.fields),
    }
}

/// The conversions generated for a variant list: one per variant not marked
/// `skip`, in source order. A skipped variant gets none at all.
pub open spec fn spec_enum_impls(vs: Seq<SpecVariant<(), SpecFromVariant>>) -> Seq<SpecFromImpl>
    decreases vs.len(),
{
    if vs.len() == 0 {
        Seq::empty()
    } else {
        let rest = spec_enum_impls(vs.drop_last());
        if vs.last().attrs.skip {
            rest
        } else {
            rest.push(spec_variant_impl(vs.last()))
        }
    }
}

/// The diagnostics one From invocation records while scanning annotations.
pub open spec fn spec_from_parse_diags(d: SpecDeriveInput) -> Seq<SpecDiag> {
    spec_container_diags::<FromField, FromVariant, FromContainer>(d)
}

/// Every diagnostic one From invocation reports: the annotation scan's,
/// then the union rejection where the declaration is a union. The
/// invocation succeeds exactly when this is empty.
pub open spec fn spec_from_diags(d: SpecDeriveInput) -> Seq<SpecDiag> {
    match d.data {
        crate::ast::SpecDataNode::Union(_) => spec_from_parse_diags(d).push(
            SpecDiag {
                kind: SpecErrorKind::UnsupportedShape {
                    generator: DeriveKind::From,
                    shape: ShapeKind::Union,
                },
                span: d.span,
            },
        ),
        _ => spec_from_parse_diags(d),
    }
}

/// The conversions one From invocation generates.
pub open spec fn spec_from_impls(d: SpecDeriveInput) -> Seq<SpecFromImpl> {
    match spec_data::<FromField, FromVariant>(d.data) {
        SpecData::Struct(style, fields) => seq![
            SpecFromImpl {
                variant: None,
                source: spec_gen_source(style, fields),
                body: spec_gen_body(style, fields),
            },
        ],
        SpecData::Enum(vs) => spec_enum_impls(vs),
        SpecData::Union(_) => Seq::empty(),
    }
}

/// What a successful From invocation emits.
pub open spec fn spec_from_output(d: SpecDeriveInput) -> SpecFromOutput {
    SpecFromOutput { ident: d.ident, generics: d.generics, impls: spec_from_impls(d) }
}

/// Runs the From generator on one declaration: scans variant annotations,
/// accumulating every problem, rejects unions, and on a clean declaration
/// emits one conversion for a struct or one per eligible enum variant.
/// Fails with every recorded diagnostic at once; emits nothing on failure.
#[verifier::loop_isolation(false)]
pub(crate) fn impl_from(ast: &DeriveInput) -> (r: Result<FromOutput, CompoundError>)
    requires
        crate::ast::spec_input_wf(ast@),
    ensures
        r is Ok <==> spec_from_diags(ast@).len() == 0,
        r matches Err(e) ==> e@ == spec_from_diags(ast@),
        r matches Ok(o) ==> o@ == spec_from_output(ast@),
{
    let mut cx = Context::new();
    let cont: Container<FromField, FromVariant, FromContainer> = Container::from_ast(&mut cx, ast);
    proof {
        assert(cx@ =~= spec_from_parse_diags(ast@));
    }
    let Container { ident, attrs: _, data, generics, vis: _, span: _ } = cont;
    match data {
        Data::Struct(style, fields) => {
            match cx.check() {
                Err(e) => Err(e),
                Ok(()) => {
                    proof {
                        let fnode = ast@.data->Struct_0;
                        assert(fields.deep_view() == spec_fields::<FromField>(
                            spec_fields_of(fnode),
                        ));
                        if style == Style::Struct {
                            assert forall|i: int| 0 <= i < fields.deep_view().len() implies (
                            #[trigger] fields.deep_view()[i]).member is Named by {
                                assert(spec_fields_of(fnode)[i].name is Some);
                            }
                        }
                    }
                    let (source, body) = gen_info(style, &fields);
                    let mut impls: Vec<FromImpl> = Vec::new();
                    impls.push(FromImpl { variant: None, source, body });
                    let r = FromOutput { ident, generics, impls };
                    proof {
                        assert(r@.impls =~= spec_from_impls(ast@));
                    }
                    Ok(r)
                },
            }
        },
        Data::Enum(variants) => {
            match cx.check() {
                Err(e) => Err(e),
                Ok(()) => {
                    let ghost vv = variants.deep_view();
                    let ghost vsnode = ast@.data->Enum_0;
                    proof {
                        assert(vv == vsnode.map_values(
                            |v: SpecVariantNode| crate::container::spec_variant::<
                                FromField,
                                FromVariant,
                            >(v),
                        ));
                    }
                    let mut impls: Vec<FromImpl> = Vec::new();
                    let mut i: usize = 0;
                    while i < variants.len()
                        invariant
                            i <= variants.len(),
                            impls.deep_view() == spec_enum_impls(vv.take(i as int)),
                        decreases variants.len() - i,
                    {
                        let v = &variants[i];
                        proof {
                            assert(v@ == vv[i as int]);
                            assert(vv[i as int] == crate::container::spec_variant::<
                                FromField,
                                FromVariant,
                            >(vsnode[i as int]));
                            vv.lemma_take_succ_push(i as int);
                            assert(vv.take(i + 1).drop_last() =~= vv.take(i as int));
                        }
                        if !v.attrs.skip {
                            proof {
                                let fnode = vsnode[i as int].fields;
                                assert(v@.fields == spec_fields::<FromField>(
                                    spec_fields_of(fnode),
                                ));
                                if v.style == Style::Struct {
                                    assert(spec_style(fnode) == Style::Struct);
                                    assert(crate::ast::spec_fields_node_wf(fnode));
                                    assert forall|k: int|
                                        0 <= k < v.fields.deep_view().len() implies (
                                    #[trigger] v.fields.deep_view()[k]).member is Named by {
                                        assert(spec_fields_of(fnode)[k].name is Some);
                                    }
                                }
                            }
                            let (source, body) = gen_info(v.style, &v.fields);
                            let ghost prev = impls.deep_view();
                            impls.push(
                                FromImpl { variant: Some(v.ident.clone()), source, body },
                            );
                            proof {
                                assert(impls.deep_view() =~= prev.push(
                                    spec_variant_impl(vv[i as int]),
                                ));
                                assert(impls.deep_view() == spec_enum_impls(vv.take(i + 1)));
                            }
                        } else {
                            proof {
                                assert(impls.deep_view() == spec_enum_impls(vv.take(i + 1)));
                            }
                        }
                        i = i + 1;
                    }
                    proof {
                        assert(vv.take(vv.len() as int) =~= vv);
                    }
                    let r = FromOutput { ident, generics, impls };
                    proof {
                        assert(r@.impls =~= spec_from_impls(ast@));
                    }
                    Ok(r)
                },
            }
        },
        Data::Union(_) => {
            cx.error_spanned_by(
                ast.span,
                ErrorKind::UnsupportedShape {
                    generator: DeriveKind::From,
                    shape: ShapeKind::Union,
                },
            );
            match cx.check() {
                Err(e) => Err(e),
                Ok(()) => unreached(),
            }
        },
    }
}

} // verus!
