//! Laws of the two generators, stated and proved over their specifications.
//!
//! The setters and conversions this library generates are source text for a
//! downstream compiler, so their run-time meaning is stated here as spec
//! functions — a setter stores one field of a record, a conversion body
//! fills a record from the source's components — and the laws are proved of
//! the generated descriptions.

use vstd::prelude::*;

use crate::ast::SpecDeriveInput;
use crate::builder_derive::SpecBuilderContScan;
use crate::builder_derive::SpecBuilderField;
use crate::builder_derive::SpecBuilderMethod;
use crate::builder_derive::spec_bc_step;
use crate::builder_derive::spec_builder_diags;
use crate::builder_derive::spec_builder_parse_diags;
use crate::builder_derive::spec_builder_method;
use crate::builder_derive::spec_builder_methods;
use crate::builder_derive::spec_builder_shape;
use crate::builder_derive::spec_method_name;
use crate::builder_derive::spec_prefix_or_empty;
use crate::context::spec_dup;
use crate::data::SpecField;
use crate::data::SpecMember;
use crate::data::SpecVariant;
use crate::data::Style;
use crate::data::spec_member_name;
use crate::from_derive::SpecFromBody;
use crate::from_derive::SpecFromSource;
use crate::from_derive::SpecFromVariant;
use crate::from_derive::spec_enum_impls;
use crate::from_derive::spec_field_tys;
use crate::from_derive::spec_gen_body;
use crate::from_derive::spec_gen_source;
use crate::from_derive::spec_variant_impl;

verus! {

/// The fields of a list that are not marked `skip`, in order.
pub open spec fn spec_eligible_fields(fields: Seq<SpecField<SpecBuilderField>>) -> Seq<
    SpecField<SpecBuilderField>,
>
    decreases fields.len(),
{
    if fields.len() == 0 {
        Seq::empty()
    } else {
        let rest = spec_eligible_fields(fields.drop_last());
        if fields.last().attrs.skip {
            rest
        } else {
            rest.push(fields.last())
        }
    }
}

/// Law: the Builder generator emits exactly one setter per eligible field,
/// in field order, and none for a skipped field; on a declaration with no
/// skipped fields that is exactly one setter per field.
pub proof fn lemma_builder_one_method_per_eligible_field(
    prefix: Option<Seq<char>>,
    fields: Seq<SpecField<SpecBuilderField>>,
)
    ensures
        spec_builder_methods(prefix, fields) == spec_eligible_fields(fields).map_values(
            |f: SpecField<SpecBuilderField>| spec_builder_method(prefix, f),
        ),
        spec_builder_methods(prefix, fields).len() == spec_eligible_fields(fields).len(),
        (forall|i: int| 0 <= i < fields.len() ==> !(#[trigger] fields[i]).attrs.skip)
            ==> spec_eligible_fields(fields) == fields,
    decreases fields.len(),
{
    if fields.len() == 0 {
        assert(spec_builder_methods(prefix, fields) =~= spec_eligible_fields(fields).map_values(
            |f: SpecField<SpecBuilderField>| spec_builder_method(prefix, f),
        ));
        assert(spec_eligible_fields(fields) =~= fields);
    } else {
        let rest = fields.drop_last();
        lemma_builder_one_method_per_eligible_field(prefix, rest);
        assert(spec_builder_methods(prefix, fields) =~= spec_eligible_fields(fields).map_values(
            |f: SpecField<SpecBuilderField>| spec_builder_method(prefix, f),
        ));
        if forall|i: int| 0 <= i < fields.len() ==> !(#[trigger] fields[i]).attrs.skip {
            assert(forall|i: int| 0 <= i < rest.len() ==> !(#[trigger] rest[i]).attrs.skip);
            assert(!fields.last().attrs.skip);
            assert(spec_eligible_fields(fields) =~= fields);
        }
    }
}

/// Law: removing a skipped field from the declaration changes nothing of
/// what the Builder generator emits — a skipped field contributes no setter.
pub proof fn lemma_builder_skip_removed(
    prefix: Option<Seq<char>>,
    fields: Seq<SpecField<SpecBuilderField>>,
    i: int,
)
    requires
        0 <= i < fields.len(),
        fields[i].attrs.skip,
    ensures
        spec_builder_methods(prefix, fields.remove(i)) == spec_builder_methods(prefix, fields),
    decreases fields.len(),
{
    if i == fields.len() - 1 {
        assert(fields.remove(i) =~= fields.drop_last());
    } else {
        let rest = fields.drop_last();
        lemma_builder_skip_removed(prefix, rest, i);
        assert(fields.remove(i).drop_last() =~= rest.remove(i));
        assert(fields.remove(i).last() == fields.last());
    }
}

/// The meaning of one generated setter, applied to a record of field
/// values: the method's field now holds the given value and the receiver is
/// returned, so calls chain.
pub open spec fn spec_apply_setter<T>(
    state: Map<Seq<char>, T>,
    m: SpecBuilderMethod,
    value: T,
) -> Map<Seq<char>, T> {
    state.insert(m.field, value)
}

/// Law: reading a field right after its setter yields the value given to
/// the setter, and a field another setter wrote keeps its value.
pub proof fn lemma_setter_reads_back<T>(
    state: Map<Seq<char>, T>,
    m: SpecBuilderMethod,
    value: T,
    other: Seq<char>,
)
    ensures
        spec_apply_setter(state, m, value)[m.field] == value,
        other != m.field && state.dom().contains(other) ==> spec_apply_setter(state, m, value)[
            other] == state[other],
{
}

/// Law: setters of two distinct fields commute — invoking them in either
/// order leaves the record the same.
pub proof fn lemma_setters_commute<T>(
    state: Map<Seq<char>, T>,
    m1: SpecBuilderMethod,
    v1: T,
    m2: SpecBuilderMethod,
    v2: T,
)
    requires
        m1.field != m2.field,
    ensures
        spec_apply_setter(spec_apply_setter(state, m1, v1), m2, v2) == spec_apply_setter(
            spec_apply_setter(state, m2, v2),
            m1,
            v1,
        ),
{
    assert(spec_apply_setter(spec_apply_setter(state, m1, v1), m2, v2) =~= spec_apply_setter(
        spec_apply_setter(state, m2, v2),
        m1,
        v1,
    ));
}

/// Law: the same field's setter is last-write-wins — an earlier value is
/// fully overwritten.
pub proof fn lemma_setter_last_write_wins<T>(
    state: Map<Seq<char>, T>,
    m: SpecBuilderMethod,
    v1: T,
    v2: T,
)
    ensures
        spec_apply_setter(spec_apply_setter(state, m, v1), m, v2) == spec_apply_setter(
            state,
            m,
            v2,
        ),
{
    assert(spec_apply_setter(spec_apply_setter(state, m, v1), m, v2) =~= spec_apply_setter(
        state,
        m,
        v2,
    ));
}

/// Law: `rename` always wins over `prefix`; `prefix` with no `rename`
/// yields the prefix followed by the field name; with neither, the method
/// carries the bare field name.
pub proof fn lemma_method_naming(
    prefix: Option<Seq<char>>,
    rename: Seq<char>,
    field_name: Seq<char>,
)
    ensures
        spec_method_name(prefix, Some(rename), field_name) == rename,
        prefix matches Some(p) ==> spec_method_name(prefix, None, field_name) == p + field_name,
        spec_method_name(None, None, field_name) == field_name,
{
    assert(spec_prefix_or_empty(None) + field_name =~= field_name);
}

/// Law: Builder rejects every declaration that is not a struct with named
/// fields — an enum, a union, a unit-like struct, a newtype or a tuple
/// struct never passes, whatever its annotations say.
pub proof fn lemma_builder_rejects_unsupported_shape(d: SpecDeriveInput)
    requires
        spec_builder_shape(d.data) is Some,
    ensures
        spec_builder_diags(d).len() > 0,
{
}

/// The arity of a conversion's source type: how many components the source
/// value hands over.
pub open spec fn spec_source_arity(source: SpecFromSource) -> int {
    match source {
        SpecFromSource::Unit => 0,
        SpecFromSource::Single(_) => 1,
        SpecFromSource::Tuple(tys) => tys.len() as int,
    }
}

/// Law: a conversion's declared source type has arity equal to the field
/// count, collapsed by the single-field rule: no fields take the empty
/// source, one field takes its own bare type, and two or more take the
/// tuple of the field types in declaration order.
pub proof fn lemma_from_source_arity(style: Style, fields: Seq<SpecField<()>>)
    requires
        style == Style::Unit ==> fields.len() == 0,
        style == Style::Newtype ==> fields.len() == 1,
    ensures
        spec_source_arity(spec_gen_source(style, fields)) == fields.len(),
        fields.len() == 1 ==> spec_gen_source(style, fields) == SpecFromSource::Single(
            fields[0].ty,
        ),
        fields.len() >= 2 ==> spec_gen_source(style, fields) == SpecFromSource::Tuple(
            spec_field_tys(fields),
        ),
{
}

/// The member a conversion body assigns source component `i` into.
pub open spec fn spec_body_member(body: SpecFromBody, i: int) -> SpecMember {
    match body {
        SpecFromBody::Bare => SpecMember::Unnamed(0),
        SpecFromBody::Call => SpecMember::Unnamed(0),
        SpecFromBody::CallTuple(_) => SpecMember::Unnamed(i),
        SpecFromBody::NamedSingle(name) => SpecMember::Named(name),
        SpecFromBody::NamedTuple(names) => SpecMember::Named(names[i]),
    }
}

/// The record a conversion body constructs: source component `i` is stored
/// under the member the body assigns it to, with no transformation.
pub open spec fn spec_construct<T>(body: SpecFromBody, components: Seq<T>) -> Map<SpecMember, T>
    decreases components.len(),
{
    if components.len() == 0 {
        Map::empty()
    } else {
        spec_construct(body, components.drop_last()).insert(
            spec_body_member(body, components.len() - 1),
            components.last(),
        )
    }
}

/// Reading any assigned member of a constructed record gives back the
/// component that was stored there, provided the body assigns each
/// component its own member.
proof fn lemma_construct_reads<T>(body: SpecFromBody, components: Seq<T>)
    requires
        forall|i: int, j: int|
            0 <= i < j < components.len() ==> spec_body_member(body, i) != spec_body_member(
                body,
                j,
            ),
    ensures
        forall|i: int|
            0 <= i < components.len() ==> spec_construct(body, components)[#[trigger] spec_body_member(
                body,
                i,
            )] == components[i],
    decreases components.len(),
{
    if components.len() > 0 {
        lemma_construct_reads(body, components.drop_last());
    }
}

/// Law: the generated conversion round-trips — constructing a value from a
/// source value and reading back its fields reproduces exactly the source's
/// components, in order, with no transformation. `components` is the source
/// value: empty for the unit source, one element for a bare single-field
/// source, the tuple's elements otherwise.
pub proof fn lemma_from_round_trip<T>(style: Style, fields: Seq<SpecField<()>>, components: Seq<T>)
    requires
        style == Style::Unit ==> fields.len() == 0,
        style == Style::Newtype ==> fields.len() == 1,
        components.len() == fields.len(),
        style == Style::Struct ==> forall|i: int|
            0 <= i < fields.len() ==> (#[trigger] fields[i]).member is Named,
        style == Style::Newtype || style == Style::Tuple ==> forall|i: int|
            0 <= i < fields.len() ==> (#[trigger] fields[i]).member == SpecMember::Unnamed(i),
        forall|i: int, j: int|
            0 <= i < j < fields.len() ==> (#[trigger] fields[i]).member != (
            #[trigger] fields[j]).member,
    ensures
        forall|i: int|
            0 <= i < fields.len() ==> spec_construct(spec_gen_body(style, fields), components)[(
            #[trigger] fields[i]).member] == components[i],
{
    let body = spec_gen_body(style, fields);
    assert forall|i: int| 0 <= i < fields.len() implies spec_body_member(body, i) == fields[
        i].member by {
        if style == Style::Struct {
            if fields.len() == 1 {
                assert(spec_body_member(body, i) == SpecMember::Named(
                    spec_member_name(fields[0].member),
                ));
            } else {
                assert(spec_body_member(body, i) == SpecMember::Named(
                    spec_member_name(fields[i].member),
                ));
            }
        }
    }
    assert forall|i: int, j: int|
        0 <= i < j < components.len() implies spec_body_member(body, i) != spec_body_member(
        body,
        j,
    ) by {
        assert(spec_body_member(body, i) == fields[i].member);
        assert(spec_body_member(body, j) == fields[j].member);
    }
    lemma_construct_reads(body, components);
    assert forall|i: int| 0 <= i < fields.len() implies spec_construct(body, components)[(
    #[trigger] fields[i]).member] == components[i] by {
        assert(spec_body_member(body, i) == fields[i].member);
        assert(spec_construct(body, components)[spec_body_member(body, i)] == components[i]);
    }
}

/// Every conversion the From generator emits for an enum comes from a
/// variant that is not marked `skip`.
proof fn lemma_enum_impls_from_eligible(vs: Seq<SpecVariant<(), SpecFromVariant>>)
    ensures
        forall|j: int|
            0 <= j < spec_enum_impls(vs).len() ==> exists|k: int|
                0 <= k < vs.len() && !(#[trigger] vs[k]).attrs.skip && #[trigger] spec_enum_impls(
                    vs,
                )[j] == spec_variant_impl(vs[k]),
    decreases vs.len(),
{
    if vs.len() > 0 {
        let rest = vs.drop_last();
        lemma_enum_impls_from_eligible(rest);
        assert forall|j: int| 0 <= j < spec_enum_impls(vs).len() implies exists|k: int|
            0 <= k < vs.len() && !(#[trigger] vs[k]).attrs.skip && #[trigger] spec_enum_impls(vs)[j]
                == spec_variant_impl(vs[k]) by {
            if j < spec_enum_impls(rest).len() {
                let k = choose|k: int|
                    0 <= k < rest.len() && !(#[trigger] rest[k]).attrs.skip && spec_enum_impls(
                        rest,
                    )[j] == spec_variant_impl(rest[k]);
                assert(vs[k] == rest[k]);
                assert(0 <= k < vs.len() && !vs[k].attrs.skip && spec_enum_impls(vs)[j]
                    == spec_variant_impl(vs[k]));
            } else {
                let k = vs.len() - 1;
                assert(0 <= k < vs.len() && !vs[k].attrs.skip && spec_enum_impls(vs)[j]
                    == spec_variant_impl(vs[k]));
            }
        }
    }
}

/// Law: a skipped enum variant has no conversion at all — among variants
/// with distinct names, no emitted conversion constructs the skipped one.
pub proof fn lemma_skipped_variant_has_no_conversion(
    vs: Seq<SpecVariant<(), SpecFromVariant>>,
    i: int,
)
    requires
        0 <= i < vs.len(),
        vs[i].attrs.skip,
        forall|k: int, l: int| 0 <= k < l < vs.len() ==> vs[k].ident != vs[l].ident,
    ensures
        forall|j: int|
            0 <= j < spec_enum_impls(vs).len() ==> (#[trigger] spec_enum_impls(vs)[j]).variant
                != Some(vs[i].ident),
{
    lemma_enum_impls_from_eligible(vs);
    assert forall|j: int| 0 <= j < spec_enum_impls(vs).len() implies (
    #[trigger] spec_enum_impls(vs)[j]).variant != Some(vs[i].ident) by {
        let k = choose|k: int|
            0 <= k < vs.len() && !(#[trigger] vs[k]).attrs.skip && spec_enum_impls(vs)[j]
                == spec_variant_impl(vs[k]);
        assert(spec_enum_impls(vs)[j].variant == Some(vs[k].ident));
        if vs[k].ident == vs[i].ident {
            assert(k != i);
            if k < i {
                assert(vs[k].ident != vs[i].ident);
            } else {
                assert(vs[i].ident != vs[k].ident);
            }
        }
    }
}

/// Law: removing a skipped variant from the declaration changes nothing of
/// what the From generator emits.
pub proof fn lemma_enum_impls_skip_removed(vs: Seq<SpecVariant<(), SpecFromVariant>>, i: int)
    requires
        0 <= i < vs.len(),
        vs[i].attrs.skip,
    ensures
        spec_enum_impls(vs.remove(i)) == spec_enum_impls(vs),
    decreases vs.len(),
{
    if i == vs.len() - 1 {
        assert(vs.remove(i) =~= vs.drop_last());
    } else {
        let rest = vs.drop_last();
        lemma_enum_impls_skip_removed(rest, i);
        assert(vs.remove(i).drop_last() =~= rest.remove(i));
        assert(vs.remove(i).last() == vs.last());
    }
}

/// Law: a second assignment of an already-assigned keyword (here: a second
/// `prefix` at the container level) records exactly one duplicate
/// diagnostic, keeps the first value, and does not stop the scan; the
/// invocation still fails as a whole, because a generator succeeds only
/// when the diagnostic list stays empty.
pub proof fn lemma_duplicate_prefix(st: SpecBuilderContScan, item: crate::ast::SpecMetaItem)
    requires
        st.prefix is Some,
        item.key == "prefix"@,
        item.value is Str,
    ensures
        spec_bc_step(st, item).0.prefix == st.prefix,
        spec_bc_step(st, item).0.diags == st.diags.push(spec_dup("prefix"@, item.span)),
        spec_bc_step(st, item).1 == false,
{
}

/// Law: a single recorded diagnostic makes the whole invocation fail — the
/// accumulated-error path takes precedence over any value that was still
/// extracted correctly.
pub proof fn lemma_parse_errors_fail_the_build(d: SpecDeriveInput)
    requires
        spec_builder_parse_diags(d).len() > 0,
    ensures
        spec_builder_diags(d).len() > 0,
{
}

} // verus!
