//! The Builder generator: one fluent setter method per eligible field.
//!
//! Recognized annotations, all inside the `builder` namespace:
//! container level `prefix = "<string>"`; field level `skip`, `no_into`,
//! `rename = "<string>"`. The generator is defined only for structs with
//! named fields; every other shape is rejected with a diagnostic.
//!
//! The scan of an annotation list is specified as a fold: one step per
//! `key`-or-`key = value` entry, carrying the slot states and the
//! diagnostics recorded so far. A step that hits an unknown key or a
//! malformed value records one diagnostic and stops the scan of that
//! attribute; the next attribute is scanned afresh.

use vstd::prelude::*;

use crate::ast::DeriveInput;
use crate::ast::FieldNode;
use crate::ast::MetaValue;
use crate::ast::SpecAttrNode;
use crate::ast::SpecDeriveInput;
use crate::ast::SpecFieldNode;
use crate::ast::SpecMetaItem;
use crate::ast::SpecMetaValue;
use crate::ast::SpecVariantNode;
use crate::ast::VariantNode;
use crate::attr::Attr;
use crate::attr::BoolAttr;
use crate::container::AttrContainer;
use crate::container::AttrField;
use crate::container::AttrVariant;
use crate::container::Container;
use crate::container::spec_container_diags;
use crate::container::spec_fields;
use crate::container::spec_fields_of;
use crate::container::spec_style;
use crate::context::AttrLevel;
use crate::context::CompoundError;
use crate::context::Context;
use crate::context::DeriveKind;
use crate::context::ErrorKind;
use crate::context::ShapeKind;
use crate::context::SpecDiag;
use crate::context::SpecErrorKind;
use crate::context::spec_dup;
use crate::context::spec_expected_value;
use crate::context::spec_not_string;
use crate::context::spec_unexpected_value;
use crate::context::spec_unknown;
use crate::data::Data;
use crate::data::Member;
use crate::data::spec_member_name;
use crate::data::SpecField;
use crate::data::Style;
use crate::symbol::Symbol;

verus! {

/// Container-level Builder payload: the optional method-name prefix.
#[derive(Debug, PartialEq, Eq)]
pub struct BuilderContainer {
    pub prefix: Option<String>,
}

/// Mathematical model of a [`BuilderContainer`].
pub struct SpecBuilderContainer {
    pub prefix: Option<Seq<char>>,
}

impl View for BuilderContainer {
    type V = SpecBuilderContainer;

    open spec fn view(&self) -> SpecBuilderContainer {
        SpecBuilderContainer { prefix: self.prefix.deep_view() }
    }
}

/// Variant-level Builder payload: Builder recognizes no variant keywords.
pub struct BuilderVariant;

impl View for BuilderVariant {
    type V = ();

    open spec fn view(&self) -> () {
        ()
    }
}

/// Field-level Builder payload.
#[derive(Debug, PartialEq, Eq)]
pub struct BuilderField {
    pub skip: bool,
    pub no_into: bool,
    pub rename: Option<String>,
}

/// Mathematical model of a [`BuilderField`].
pub struct SpecBuilderField {
    pub skip: bool,
    pub no_into: bool,
    pub rename: Option<Seq<char>>,
}

impl View for BuilderField {
    type V = SpecBuilderField;

    open spec fn view(&self) -> SpecBuilderField {
        SpecBuilderField {
            skip: self.skip,
            no_into: self.no_into,
            rename: self.rename.deep_view(),
        }
    }
}

/// Scan state at the Builder field level: the three slots and the
/// diagnostics recorded so far.
pub struct SpecBuilderFieldScan {
    pub skip: bool,
    pub no_into: bool,
    pub rename: Option<Seq<char>>,
    pub diags: Seq<SpecDiag>,
}

/// The state before anything is scanned.
pub open spec fn spec_bf_init() -> SpecBuilderFieldScan {
    SpecBuilderFieldScan { skip: false, no_into: false, rename: None, diags: Seq::empty() }
}

/// One field-level scan step: the state after the entry, and whether the
/// entry stops the scan of its attribute. A flag keyword is set on first
/// sight and records a duplicate on a second; giving it a value is an
/// error after the flag is processed. `rename` takes exactly one string
/// value. An unknown key, a missing value and a non-string value each
/// record one diagnostic and stop the attribute.
pub open spec fn spec_bf_step(st: SpecBuilderFieldScan, item: SpecMetaItem) -> (
    SpecBuilderFieldScan,
    bool,
) {
    if item.key == "skip"@ {
        let st1 = if st.skip {
            SpecBuilderFieldScan { diags: st.diags.push(spec_dup("skip"@, item.span)), ..st }
        } else {
            SpecBuilderFieldScan { skip: true, ..st }
        };
        match item.value {
            SpecMetaValue::Flag => (st1, false),
            _ => (
                SpecBuilderFieldScan {
                    diags: st1.diags.push(spec_unexpected_value("skip"@, item.span)),
                    ..st1
                },
                true,
            ),
        }
    } else if item.key == "no_into"@ {
        let st1 = if st.no_into {
            SpecBuilderFieldScan { diags: st.diags.push(spec_dup("no_into"@, item.span)), ..st }
        } else {
            SpecBuilderFieldScan { no_into: true, ..st }
        };
        match item.value {
            SpecMetaValue::Flag => (st1, false),
            _ => (
                SpecBuilderFieldScan {
                    diags: st1.diags.push(spec_unexpected_value("no_into"@, item.span)),
                    ..st1
                },
                true,
            ),
        }
    } else if item.key == "rename"@ {
        match item.value {
            SpecMetaValue::Str(s) => if st.rename is Some {
                (
                    SpecBuilderFieldScan {
                        diags: st.diags.push(spec_dup("rename"@, item.span)),
                        ..st
                    },
                    false,
                )
            } else {
                (SpecBuilderFieldScan { rename: Some(s), ..st }, false)
            },
            SpecMetaValue::NonStr(found) => (
                SpecBuilderFieldScan {
                    diags: st.diags.push(spec_not_string("rename"@, found, item.span)),
                    ..st
                },
                true,
            ),
            SpecMetaValue::Flag => (
                SpecBuilderFieldScan {
                    diags: st.diags.push(spec_expected_value("rename"@, item.span)),
                    ..st
                },
                true,
            ),
        }
    } else {
        (
            SpecBuilderFieldScan {
                diags: st.diags.push(spec_unknown(AttrLevel::Field, "builder"@, item.key, item.span)),
                ..st
            },
            true,
        )
    }
}

/// Scans an attribute's entries from position `i` on, stopping early when a
/// step says so.
pub open spec fn spec_bf_items(
    st: SpecBuilderFieldScan,
    items: Seq<SpecMetaItem>,
    i: int,
) -> SpecBuilderFieldScan
    decreases items.len() - i,
{
    if i < 0 || i >= items.len() {
        st
    } else {
        let step = spec_bf_step(st, items[i]);
        if step.1 {
            step.0
        } else {
            spec_bf_items(step.0, items, i + 1)
        }
    }
}

/// Scans the attributes from position `i` on; only attributes in the
/// `builder` namespace are looked into.
pub open spec fn spec_bf_attrs(
    st: SpecBuilderFieldScan,
    attrs: Seq<SpecAttrNode>,
    i: int,
) -> SpecBuilderFieldScan
    decreases attrs.len() - i,
{
    if i < 0 || i >= attrs.len() {
        st
    } else {
        let st1 = if attrs[i].path == "builder"@ {
            spec_bf_items(st, attrs[i].items, 0)
        } else {
            st
        };
        spec_bf_attrs(st1, attrs, i + 1)
    }
}

/// The full field-level scan of one declared field.
pub open spec fn spec_bf_scan(field: SpecFieldNode) -> SpecBuilderFieldScan {
    spec_bf_attrs(spec_bf_init(), field.attrs, 0)
}

impl AttrField for BuilderField {
    open spec fn spec_extract(field: SpecFieldNode) -> SpecBuilderField {
        let st = spec_bf_scan(field);
        SpecBuilderField { skip: st.skip, no_into: st.no_into, rename: st.rename }
    }

    open spec fn spec_diags(field: SpecFieldNode) -> Seq<SpecDiag> {
        spec_bf_scan(field).diags
    }

    #[verifier::loop_isolation(false)]
    fn from_ast(cx: &mut Context, index: usize, field: &FieldNode) -> (r: Self) {
        let skip_sym = Symbol::new("skip");
        let no_into_sym = Symbol::new("no_into");
        let rename_sym = Symbol::new("rename");
        let builder_sym = Symbol::new("builder");
        let mut skip = BoolAttr::none(Symbol::new("skip"));
        let mut no_into = BoolAttr::none(Symbol::new("no_into"));
        let mut rename = Attr::<String>::none(Symbol::new("rename"));
        let ghost attrsv = field.attrs.deep_view();
        let ghost mut st = spec_bf_init();
        let mut a: usize = 0;
        while a < field.attrs.len()
            invariant
                a <= field.attrs.len(),
                skip.spec_name() == "skip"@,
                no_into.spec_name() == "no_into"@,
                rename.spec_name() == "rename"@,
                skip.spec_is_set() == st.skip,
                no_into.spec_is_set() == st.no_into,
                rename.spec_value().deep_view() == st.rename,
                cx@ == old(cx)@ + st.diags,
                spec_bf_attrs(spec_bf_init(), attrsv, 0) == spec_bf_attrs(st, attrsv, a as int),
            decreases field.attrs.len() - a,
        {
            let attr = &field.attrs[a];
            proof {
                assert(attr@ == attrsv[a as int]);
            }
            if builder_sym.matches(&attr.path) {
                let ghost st_enter = st;
                let ghost itemsv = attrsv[a as int].items;
                proof {
                    assert(itemsv == attr.items.deep_view());
                }
                let mut j: usize = 0;
                let mut aborted = false;
                while j < attr.items.len() && !aborted
                    invariant
                        j <= attr.items.len(),
                        skip.spec_name() == "skip"@,
                        no_into.spec_name() == "no_into"@,
                        rename.spec_name() == "rename"@,
                        skip.spec_is_set() == st.skip,
                        no_into.spec_is_set() == st.no_into,
                        rename.spec_value().deep_view() == st.rename,
                        cx@ == old(cx)@ + st.diags,
                        !aborted ==> spec_bf_items(st_enter, itemsv, 0) == spec_bf_items(
                            st,
                            itemsv,
                            j as int,
                        ),
                        aborted ==> spec_bf_items(st_enter, itemsv, 0) == st,
                    decreases attr.items.len() - j,
                {
                    let item = &attr.items[j];
                    proof {
                        assert(item@ == itemsv[j as int]);
                    }
                    let ghost st_pre = st;
                    if skip_sym.matches(&item.key) {
                        skip.set_true(cx, item.span);
                        match &item.value {
                            MetaValue::Flag => {},
                            _ => {
                                cx.error_spanned_by(
                                    item.span,
                                    ErrorKind::UnexpectedValue {
                                        keyword: skip_sym.as_string().clone(),
                                    },
                                );
                                aborted = true;
                            },
                        }
                    } else if no_into_sym.matches(&item.key) {
                        no_into.set_true(cx, item.span);
                        match &item.value {
                            MetaValue::Flag => {},
                            _ => {
                                cx.error_spanned_by(
                                    item.span,
                                    ErrorKind::UnexpectedValue {
                                        keyword: no_into_sym.as_string().clone(),
                                    },
                                );
                                aborted = true;
                            },
                        }
                    } else if rename_sym.matches(&item.key) {
                        match &item.value {
                            MetaValue::Str(s) => {
                                rename.set(cx, item.span, s.clone());
                            },
                            MetaValue::NonStr(found) => {
                                cx.error_spanned_by(
                                    item.span,
                                    ErrorKind::NotAString {
                                        keyword: rename_sym.as_string().clone(),
                                        found: found.clone(),
                                    },
                                );
                                aborted = true;
                            },
                            MetaValue::Flag => {
                                cx.error_spanned_by(
                                    item.span,
                                    ErrorKind::ExpectedValue {
                                        keyword: rename_sym.as_string().clone(),
                                    },
                                );
                                aborted = true;
                            },
                        }
                    } else {
                        cx.error_spanned_by(
                            item.span,
                            ErrorKind::UnknownAttr {
                                level: AttrLevel::Field,
                                namespace: builder_sym.as_string().clone(),
                                key: item.key.clone(),
                            },
                        );
                        aborted = true;
                    }
                    proof {
                        let step = spec_bf_step(st_pre, itemsv[j as int]);
                        st = step.0;
                        assert(aborted == step.1);
                        assert(cx@ =~= old(cx)@ + st.diags);
                    }
                    j = j + 1;
                }
                proof {
                    assert(spec_bf_items(st_enter, itemsv, 0) == st);
                    assert(spec_bf_attrs(st_enter, attrsv, a as int) == spec_bf_attrs(
                        st,
                        attrsv,
                        a + 1,
                    ));
                }
            }
            a = a + 1;
        }
        let r = BuilderField { skip: skip.get(), no_into: no_into.get(), rename: rename.get() };
        proof {
            assert(spec_bf_attrs(st, attrsv, attrsv.len() as int) == st);
            assert(r@ == Self::spec_extract(field@));
            assert(cx@ == old(cx)@ + Self::spec_diags(field@));
        }
        r
    }
}

/// Scan state at the Builder container level: the prefix slot and the
/// diagnostics recorded so far.
pub struct SpecBuilderContScan {
    pub prefix: Option<Seq<char>>,
    pub diags: Seq<SpecDiag>,
}

/// The state before anything is scanned.
pub open spec fn spec_bc_init() -> SpecBuilderContScan {
    SpecBuilderContScan { prefix: None, diags: Seq::empty() }
}

/// One container-level scan step. `prefix` takes exactly one string value;
/// everything else is unknown at this level.
pub open spec fn spec_bc_step(st: SpecBuilderContScan, item: SpecMetaItem) -> (
    SpecBuilderContScan,
    bool,
) {
    if item.key == "prefix"@ {
        match item.value {
            SpecMetaValue::Str(s) => if st.prefix is Some {
                (
                    SpecBuilderContScan {
                        diags: st.diags.push(spec_dup("prefix"@, item.span)),
                        ..st
                    },
                    false,
                )
            } else {
                (SpecBuilderContScan { prefix: Some(s), ..st }, false)
            },
            SpecMetaValue::NonStr(found) => (
                SpecBuilderContScan {
                    diags: st.diags.push(spec_not_string("prefix"@, found, item.span)),
                    ..st
                },
                true,
            ),
            SpecMetaValue::Flag => (
                SpecBuilderContScan {
                    diags: st.diags.push(spec_expected_value("prefix"@, item.span)),
                    ..st
                },
                true,
            ),
        }
    } else {
        (
            SpecBuilderContScan {
                diags: st.diags.push(spec_unknown(AttrLevel::Container, "builder"@, item.key, item.span)),
                ..st
            },
            true,
        )
    }
}

/// Scans an attribute's entries from position `i` on, stopping early when a
/// step says so.
pub open spec fn spec_bc_items(
    st: SpecBuilderContScan,
    items: Seq<SpecMetaItem>,
    i: int,
) -> SpecBuilderContScan
    decreases items.len() - i,
{
    if i < 0 || i >= items.len() {
        st
    } else {
        let step = spec_bc_step(st, items[i]);
        if step.1 {
            step.0
        } else {
            spec_bc_items(step.0, items, i + 1)
        }
    }
}

/// Scans the attributes from position `i` on; only attributes in the
/// `builder` namespace are looked into.
pub open spec fn spec_bc_attrs(
    st: SpecBuilderContScan,
    attrs: Seq<SpecAttrNode>,
    i: int,
) -> SpecBuilderContScan
    decreases attrs.len() - i,
{
    if i < 0 || i >= attrs.len() {
        st
    } else {
        let st1 = if attrs[i].path == "builder"@ {
            spec_bc_items(st, attrs[i].items, 0)
        } else {
            st
        };
        spec_bc_attrs(st1, attrs, i + 1)
    }
}

/// The full container-level scan of one declaration.
pub open spec fn spec_bc_scan(item: SpecDeriveInput) -> SpecBuilderContScan {
    spec_bc_attrs(spec_bc_init(), item.attrs, 0)
}

impl AttrContainer for BuilderContainer {
    open spec fn spec_extract(item: SpecDeriveInput) -> SpecBuilderContainer {
        SpecBuilderContainer { prefix: spec_bc_scan(item).prefix }
    }

    open spec fn spec_diags(item: SpecDeriveInput) -> Seq<SpecDiag> {
        spec_bc_scan(item).diags
    }

    #[verifier::loop_isolation(false)]
    fn from_ast(cx: &mut Context, item: &DeriveInput) -> (r: Self) {
        let prefix_sym = Symbol::new("prefix");
        let builder_sym = Symbol::new("builder");
        let mut prefix = Attr::<String>::none(Symbol::new("prefix"));
        let ghost attrsv = item.attrs.deep_view();
        let ghost mut st = spec_bc_init();
        let mut a: usize = 0;
        while a < item.attrs.len()
            invariant
                a <= item.attrs.len(),
                prefix.spec_name() == "prefix"@,
                prefix.spec_value().deep_view() == st.prefix,
                cx@ == old(cx)@ + st.diags,
                spec_bc_attrs(spec_bc_init(), attrsv, 0) == spec_bc_attrs(st, attrsv, a as int),
            decreases item.attrs.len() - a,
        {
            let attr = &item.attrs[a];
            proof {
                assert(attr@ == attrsv[a as int]);
            }
            if builder_sym.matches(&attr.path) {
                let ghost st_enter = st;
                let ghost itemsv = attrsv[a as int].items;
                proof {
                    assert(itemsv == attr.items.deep_view());
                }
                let mut j: usize = 0;
                let mut aborted = false;
                while j < attr.items.len() && !aborted
                    invariant
                        j <= attr.items.len(),
                        prefix.spec_name() == "prefix"@,
                        prefix.spec_value().deep_view() == st.prefix,
                        cx@ == old(cx)@ + st.diags,
                        !aborted ==> spec_bc_items(st_enter, itemsv, 0) == spec_bc_items(
                            st,
                            itemsv,
                            j as int,
                        ),
                        aborted ==> spec_bc_items(st_enter, itemsv, 0) == st,
                    decreases attr.items.len() - j,
                {
                    let entry = &attr.items[j];
                    proof {
                        assert(entry@ == itemsv[j as int]);
                    }
                    let ghost st_pre = st;
                    if prefix_sym.matches(&entry.key) {
                        match &entry.value {
                            MetaValue::Str(s) => {
                                prefix.set(cx, entry.span, s.clone());
                            },
                            MetaValue::NonStr(found) => {
                                cx.error_spanned_by(
                                    entry.span,
                                    ErrorKind::NotAString {
                                        keyword: prefix_sym.as_string().clone(),
                                        found: found.clone(),
                                    },
                                );
                                aborted = true;
                            },
                            MetaValue::Flag => {
                                cx.error_spanned_by(
                                    entry.span,
                                    ErrorKind::ExpectedValue {
                                        keyword: prefix_sym.as_string().clone(),
                                    },
                                );
                                aborted = true;
                            },
                        }
                    } else {
                        cx.error_spanned_by(
                            entry.span,
                            ErrorKind::UnknownAttr {
                                level: AttrLevel::Container,
                                namespace: builder_sym.as_string().clone(),
                                key: entry.key.clone(),
                            },
                        );
                        aborted = true;
                    }
                    proof {
                        let step = spec_bc_step(st_pre, itemsv[j as int]);
                        st = step.0;
                        assert(aborted == step.1);
                        assert(cx@ =~= old(cx)@ + st.diags);
                    }
                    j = j + 1;
                }
                proof {
                    assert(spec_bc_items(st_enter, itemsv, 0) == st);
                    assert(spec_bc_attrs(st_enter, attrsv, a as int) == spec_bc_attrs(
                        st,
                        attrsv,
                        a + 1,
                    ));
                }
            }
            a = a + 1;
        }
        let r = BuilderContainer { prefix: prefix.get() };
        proof {
            assert(spec_bc_attrs(st, attrsv, attrsv.len() as int) == st);
            assert(r@ == Self::spec_extract(item@));
            assert(cx@ == old(cx)@ + Self::spec_diags(item@));
        }
        r
    }
}

/// One generated setter method: its emitted name, the field it assigns,
/// the field's declared type, and whether the value is taken through a
/// conversion (`into == true`) or must match the field type exactly.
#[derive(Debug, PartialEq, Eq)]
pub struct BuilderMethod {
    pub name: String,
    pub field: String,
    pub ty: String,
    pub into: bool,
}

/// Mathematical model of a [`BuilderMethod`].
pub struct SpecBuilderMethod {
    pub name: Seq<char>,
    pub field: Seq<char>,
    pub ty: Seq<char>,
    pub into: bool,
}

impl View for BuilderMethod {
    type V = SpecBuilderMethod;

    open spec fn view(&self) -> SpecBuilderMethod {
        SpecBuilderMethod { name: self.name@, field: self.field@, ty: self.ty@, into: self.into }
    }
}

impl DeepView for BuilderMethod {
    type V = SpecBuilderMethod;

    open spec fn deep_view(&self) -> SpecBuilderMethod {
        self.view()
    }
}

/// The Builder generator's emitted code: one impl block on the declared
/// type, holding one setter per eligible field, each with the declaring
/// type's visibility.
#[derive(Debug, PartialEq, Eq)]
pub struct BuilderOutput {
    pub ident: String,
    pub vis: String,
    pub generics: crate::ast::GenericsNode,
    pub methods: Vec<BuilderMethod>,
}

/// Mathematical model of a [`BuilderOutput`].
pub struct SpecBuilderOutput {
    pub ident: Seq<char>,
    pub vis: Seq<char>,
    pub generics: crate::ast::SpecGenericsNode,
    pub methods: Seq<SpecBuilderMethod>,
}

impl View for BuilderOutput {
    type V = SpecBuilderOutput;

    open spec fn view(&self) -> SpecBuilderOutput {
        SpecBuilderOutput {
            ident: self.ident@,
            vis: self.vis@,
            generics: self.generics@,
            methods: self.methods.deep_view(),
        }
    }
}

/// The prefix applied to unrenamed method names: the given one, or nothing.
pub open spec fn spec_prefix_or_empty(prefix: Option<Seq<char>>) -> Seq<char> {
    match prefix {
        Some(p) => p,
        None => Seq::empty(),
    }
}

/// The name a setter method is emitted under: an explicit `rename` wins;
/// otherwise the container's prefix (empty when absent) followed by the
/// field's own name.
pub open spec fn spec_method_name(
    prefix: Option<Seq<char>>,
    rename: Option<Seq<char>>,
    field_name: Seq<char>,
) -> Seq<char> {
    match rename {
        Some(r) => r,
        None => spec_prefix_or_empty(prefix) + field_name,
    }
}

/// The setter generated for one eligible field.
pub open spec fn spec_builder_method(
    prefix: Option<Seq<char>>,
    f: SpecField<SpecBuilderField>,
) -> SpecBuilderMethod {
    SpecBuilderMethod {
        name: spec_method_name(prefix, f.attrs.rename, spec_member_name(f.member)),
        field: spec_member_name(f.member),
        ty: f.ty,
        into: !f.attrs.no_into,
    }
}

/// The setters generated for a field list: one per field not marked `skip`,
/// in field order.
pub open spec fn spec_builder_methods(
    prefix: Option<Seq<char>>,
    fields: Seq<SpecField<SpecBuilderField>>,
) -> Seq<SpecBuilderMethod>
    decreases fields.len(),
{
    if fields.len() == 0 {
        Seq::empty()
    } else {
        let rest = spec_builder_methods(prefix, fields.drop_last());
        if fields.last().attrs.skip {
            rest
        } else {
            rest.push(spec_builder_method(prefix, fields.last()))
        }
    }
}

/// The shape Builder rejects a declaration for, if any: everything but a
/// struct with named fields.
pub open spec fn spec_builder_shape(data: crate::ast::SpecDataNode) -> Option<ShapeKind> {
    match data {
        crate::ast::SpecDataNode::Struct(fields) => match spec_style(fields) {
            Style::Struct => None,
            Style::Newtype => Some(ShapeKind::Newtype),
            Style::Unit => Some(ShapeKind::Unit),
            Style::Tuple => Some(ShapeKind::Tuple),
        },
        crate::ast::SpecDataNode::Enum(_) => Some(ShapeKind::Enum),
        crate::ast::SpecDataNode::Union(_) => Some(ShapeKind::Union),
    }
}

/// The diagnostics one Builder invocation records while scanning
/// annotations, in scan order.
pub open spec fn spec_builder_parse_diags(d: SpecDeriveInput) -> Seq<SpecDiag> {
    spec_container_diags::<BuilderField, BuilderVariant, BuilderContainer>(d)
}

/// Every diagnostic one Builder invocation reports: the annotation scan's,
/// then the shape rejection where the shape is unsupported. The invocation
/// succeeds exactly when this is empty.
pub open spec fn spec_builder_diags(d: SpecDeriveInput) -> Seq<SpecDiag> {
    match spec_builder_shape(d.data) {
        None => spec_builder_parse_diags(d),
        Some(shape) => spec_builder_parse_diags(d).push(
            SpecDiag {
                kind: SpecErrorKind::UnsupportedShape { generator: DeriveKind::Builder, shape },
                span: d.span,
            },
        ),
    }
}

/// The shape-model fields of a declaration Builder accepts.
pub open spec fn spec_builder_fields(d: SpecDeriveInput) -> Seq<SpecField<SpecBuilderField>> {
    match d.data {
        crate::ast::SpecDataNode::Struct(fields) => spec_fields::<BuilderField>(
            spec_fields_of(fields),
        ),
        _ => Seq::empty(),
    }
}

/// What a successful Builder invocation emits.
pub open spec fn spec_builder_output(d: SpecDeriveInput) -> SpecBuilderOutput {
    SpecBuilderOutput {
        ident: d.ident,
        vis: d.vis,
        generics: d.generics,
        methods: spec_builder_methods(
            BuilderContainer::spec_extract(d).prefix,
            spec_builder_fields(d),
        ),
    }
}

/// Runs the Builder generator on one declaration: scans all annotations,
/// accumulating every problem, rejects unsupported shapes, and on a clean
/// declaration emits one setter per eligible field. Fails with every
/// recorded diagnostic at once; emits nothing on failure.
#[verifier::loop_isolation(false)]
pub(crate) fn impl_builder(ast: &DeriveInput) -> (r: Result<BuilderOutput, CompoundError>)
    requires
        crate::ast::spec_input_wf(ast@),
    ensures
        r is Ok <==> spec_builder_diags(ast@).len() == 0,
        r matches Err(e) ==> e@ == spec_builder_diags(ast@),
        r matches Ok(o) ==> o@ == spec_builder_output(ast@),
{
    let mut cx = Context::new();
    let cont: Container<BuilderField, BuilderVariant, BuilderContainer> = Container::from_ast(
        &mut cx,
        ast,
    );
    proof {
        assert(cx@ =~= spec_builder_parse_diags(ast@));
    }
    let Container { ident, attrs, data, generics, vis, span: _ } = cont;
    match data {
        Data::Struct(Style::Struct, fields) => {
            proof {
                assert(spec_builder_shape(ast@.data) is None);
            }
            match cx.check() {
                Err(e) => Err(e),
                Ok(()) => {
                    let prefix: String = match attrs.prefix {
                        Some(p) => p,
                        None => String::new(),
                    };
                    let ghost prefixv = BuilderContainer::spec_extract(ast@).prefix;
                    proof {
                        assert(prefix@ == spec_prefix_or_empty(prefixv));
                    }
                    let ghost fieldsv = fields.deep_view();
                    proof {
                        assert(fieldsv == spec_builder_fields(ast@));
                    }
                    let mut methods: Vec<BuilderMethod> = Vec::new();
                    let mut i: usize = 0;
                    while i < fields.len()
                        invariant
                            i <= fields.len(),
                            methods.deep_view() == spec_builder_methods(
                                prefixv,
                                fieldsv.take(i as int),
                            ),
                        decreases fields.len() - i,
                    {
                        let f = &fields[i];
                        proof {
                            assert(f@ == fieldsv[i as int]);
                            fieldsv.lemma_take_succ_push(i as int);
                            assert(fieldsv.take(i + 1).drop_last() =~= fieldsv.take(i as int));
                        }
                        if !f.attrs.skip {
                            let field_name: &String = match &f.member {
                                Member::Named(n) => n,
                                Member::Unnamed(_) => unreached(),
                            };
                            let name: String = match &f.attrs.rename {
                                Some(r) => r.clone(),
                                None => {
                                    let mut n = prefix.clone();
                                    n.append(field_name.as_str());
                                    n
                                },
                            };
                            let ghost prev = methods.deep_view();
                            methods.push(
                                BuilderMethod {
                                    name,
                                    field: field_name.clone(),
                                    ty: f.ty.clone(),
                                    into: !f.attrs.no_into,
                                },
                            );
                            proof {
                                assert(methods.deep_view() =~= prev.push(
                                    spec_builder_method(prefixv, fieldsv[i as int]),
                                ));
                                assert(methods.deep_view() == spec_builder_methods(
                                    prefixv,
                                    fieldsv.take(i + 1),
                                ));
                            }
                        } else {
                            proof {
                                assert(methods.deep_view() == spec_builder_methods(
                                    prefixv,
                                    fieldsv.take(i + 1),
                                ));
                            }
                        }
                        i = i + 1;
                    }
                    proof {
                        assert(fieldsv.take(fieldsv.len() as int) =~= fieldsv);
                    }
                    Ok(BuilderOutput { ident, vis, generics, methods })
                },
            }
        },
        Data::Struct(Style::Newtype, _) => {
            cx.error_spanned_by(
                ast.span,
                ErrorKind::UnsupportedShape {
                    generator: DeriveKind::Builder,
                    shape: ShapeKind::Newtype,
                },
            );
            match cx.check() {
                Err(e) => Err(e),
                Ok(()) => unreached(),
            }
        },
        Data::Struct(Style::Unit, _) => {
            cx.error_spanned_by(
                ast.span,
                ErrorKind::UnsupportedShape {
                    generator: DeriveKind::Builder,
                    shape: ShapeKind::Unit,
                },
            );
            match cx.check() {
                Err(e) => Err(e),
                Ok(()) => unreached(),
            }
        },
        Data::Struct(Style::Tuple, _) => {
            cx.error_spanned_by(
                ast.span,
                ErrorKind::UnsupportedShape {
                    generator: DeriveKind::Builder,
                    shape: ShapeKind::Tuple,
                },
            );
            match cx.check() {
                Err(e) => Err(e),
                Ok(()) => unreached(),
            }
        },
        Data::Enum(_) => {
            cx.error_spanned_by(
                ast.span,
                ErrorKind::UnsupportedShape {
                    generator: DeriveKind::Builder,
                    shape: ShapeKind::Enum,
                },
            );
            match cx.check() {
                Err(e) => Err(e),
                Ok(()) => unreached(),
            }
        },
        Data::Union(_) => {
            cx.error_spanned_by(
                ast.span,
                ErrorKind::UnsupportedShape {
                    generator: DeriveKind::Builder,
                    shape: ShapeKind::Union,
                },
            );
            match cx.check() {
                Err(e) => Err(e),
                Ok(()) => unreached(),
            }
        },
    }
}

impl AttrVariant for BuilderVariant {
    open spec fn spec_extract(variant: SpecVariantNode) -> () {
        ()
    }

    open spec fn spec_diags(variant: SpecVariantNode) -> Seq<SpecDiag> {
        Seq::empty()
    }

    /// Builder recognizes no variant-level keywords; nothing is scanned.
    fn from_ast(cx: &mut Context, variant: &VariantNode) -> (r: Self) {
        proof {
            assert(cx@ =~= old(cx)@ + Seq::<SpecDiag>::empty());
        }
        BuilderVariant
    }
}

} // verus!
