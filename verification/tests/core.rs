use boring_derive::Attr;
use boring_derive::BoolAttr;
use boring_derive::Container;
use boring_derive::Context;
use boring_derive::Data;
use boring_derive::DataNode;
use boring_derive::DeriveInput;
use boring_derive::ErrorKind;
use boring_derive::Field;
use boring_derive::FieldNode;
use boring_derive::FieldsNode;
use boring_derive::FromField;
use boring_derive::FromVariant;
use boring_derive::GenericsNode;
use boring_derive::Member;
use boring_derive::Style;
use boring_derive::Symbol;
use boring_derive::VariantNode;

#[test]
fn attr_first_write_wins() {
    let mut cx = Context::new();
    let mut slot: Attr<String> = Attr::none(Symbol::new("rename"));
    slot.set(&mut cx, 1, "first".to_string());
    slot.set(&mut cx, 2, "second".to_string());
    assert_eq!(slot.get(), Some("first".to_string()));
    let err = cx.check().unwrap_err();
    assert_eq!(err.errors.len(), 1);
    assert_eq!(err.errors[0].span, 2);
    assert_eq!(
        err.errors[0].kind,
        ErrorKind::DuplicateAttr { name: "rename".to_string() }
    );
}

#[test]
fn attr_get_with_tokens_returns_the_set_location() {
    let mut cx = Context::new();
    let mut slot: Attr<String> = Attr::none(Symbol::new("rename"));
    slot.set(&mut cx, 7, "value".to_string());
    assert_eq!(slot.get_with_tokens(), Some((7, "value".to_string())));
    assert!(cx.check().is_ok());
}

#[test]
fn attr_set_opt_ignores_absent_values() {
    let mut cx = Context::new();
    let mut slot: Attr<String> = Attr::none(Symbol::new("rename"));
    slot.set_opt(&mut cx, 1, None);
    assert_eq!(slot.get(), None);
    assert!(cx.check().is_ok());
}

#[test]
fn attr_set_opt_stores_present_values() {
    let mut cx = Context::new();
    let mut slot: Attr<String> = Attr::none(Symbol::new("rename"));
    slot.set_opt(&mut cx, 1, Some("value".to_string()));
    assert_eq!(slot.get(), Some("value".to_string()));
    assert!(cx.check().is_ok());
}

#[test]
fn bool_attr_reports_a_second_sighting() {
    let mut cx = Context::new();
    let mut slot = BoolAttr::none(Symbol::new("skip"));
    assert!(!slot.get());
    slot.set_true(&mut cx, 1);
    assert!(slot.get());
    slot.set_true(&mut cx, 2);
    assert!(slot.get());
    let err = cx.check().unwrap_err();
    assert_eq!(err.errors.len(), 1);
    assert_eq!(err.errors[0].kind.message(), "duplicate attribute `skip`");
}

#[test]
fn empty_context_checks_clean() {
    let cx = Context::new();
    assert!(cx.check().is_ok());
}

#[test]
fn context_keeps_errors_in_order() {
    let mut cx = Context::new();
    cx.error_spanned_by(1, ErrorKind::ExpectedValue { keyword: "prefix".to_string() });
    cx.error_spanned_by(2, ErrorKind::UnexpectedValue { keyword: "skip".to_string() });
    let err = cx.check().unwrap_err();
    assert_eq!(err.errors.len(), 2);
    assert_eq!(err.errors[0].span, 1);
    assert_eq!(err.errors[1].span, 2);
    assert_eq!(
        err.errors[0].kind.message(),
        "expected a value for attribute `prefix`"
    );
    assert_eq!(
        err.errors[1].kind.message(),
        "unexpected value for attribute `skip`"
    );
}

#[test]
fn prebuilt_diagnostics_are_recorded_in_order() {
    let mut cx = Context::new();
    cx.syn_error(boring_derive::Diag {
        kind: ErrorKind::DuplicateAttr { name: "skip".to_string() },
        span: 4,
    });
    let err = cx.check().unwrap_err();
    assert_eq!(err.errors.len(), 1);
    assert_eq!(err.errors[0].span, 4);
}

#[test]
fn symbol_matches_its_own_text() {
    let sym = Symbol::new("builder");
    assert!(sym.matches(&"builder".to_string()));
    assert!(!sym.matches(&"from".to_string()));
    assert_eq!(sym.as_string().as_str(), "builder");
}

fn named(name: &str, ty: &str, span: u64) -> FieldNode {
    FieldNode { name: Some(name.to_string()), ty: ty.to_string(), attrs: vec![], span }
}

fn unnamed(ty: &str, span: u64) -> FieldNode {
    FieldNode { name: None, ty: ty.to_string(), attrs: vec![], span }
}

fn input(data: DataNode) -> DeriveInput {
    DeriveInput {
        ident: "Example".to_string(),
        vis: String::new(),
        generics: GenericsNode {
            impl_generics: String::new(),
            type_generics: String::new(),
            where_clause: String::new(),
        },
        attrs: vec![],
        data,
        span: 0,
    }
}

fn build(data: DataNode) -> Container<FromField, FromVariant, boring_derive::FromContainer> {
    let mut cx = Context::new();
    let cont = Container::from_ast(&mut cx, &input(data));
    assert!(cx.check().is_ok());
    cont
}

#[test]
fn classification_follows_field_arity_and_naming() {
    match build(DataNode::Struct(FieldsNode::Unit)).data {
        Data::Struct(style, fields) => {
            assert_eq!(style, Style::Unit);
            assert!(fields.is_empty());
        }
        _ => panic!("expected a struct"),
    }
    match build(DataNode::Struct(FieldsNode::Unnamed(vec![unnamed("u32", 1)]))).data {
        Data::Struct(style, _) => assert_eq!(style, Style::Newtype),
        _ => panic!("expected a struct"),
    }
    match build(DataNode::Struct(FieldsNode::Unnamed(vec![
        unnamed("u32", 1),
        unnamed("u64", 2),
    ])))
    .data
    {
        Data::Struct(style, _) => assert_eq!(style, Style::Tuple),
        _ => panic!("expected a struct"),
    }
    match build(DataNode::Struct(FieldsNode::Named(vec![named("a", "u32", 1)]))).data {
        Data::Struct(style, fields) => {
            assert_eq!(style, Style::Struct);
            assert_eq!(fields.len(), 1);
            assert_eq!(fields[0].member, Member::Named("a".to_string()));
            assert_eq!(fields[0].ty, "u32");
        }
        _ => panic!("expected a struct"),
    }
    let cont = build(DataNode::Struct(FieldsNode::Named(vec![
        named("a", "u32", 1),
        named("b", "u64", 2),
    ])));
    assert_eq!(cont.data.all_fields().len(), 2);
}

#[test]
fn unnamed_fields_are_identified_by_position() {
    match build(DataNode::Struct(FieldsNode::Unnamed(vec![
        unnamed("u32", 1),
        unnamed("u64", 2),
    ])))
    .data
    {
        Data::Struct(_, fields) => {
            assert_eq!(fields[0].member, Member::Unnamed(0));
            assert_eq!(fields[1].member, Member::Unnamed(1));
        }
        _ => panic!("expected a struct"),
    }
}

#[test]
fn all_fields_walks_every_variant_in_order() {
    let data = DataNode::Enum(vec![
        VariantNode {
            ident: "A".to_string(),
            attrs: vec![],
            fields: FieldsNode::Unnamed(vec![unnamed("u8", 1), unnamed("u16", 2)]),
            span: 1,
        },
        VariantNode {
            ident: "B".to_string(),
            attrs: vec![],
            fields: FieldsNode::Named(vec![named("x", "u32", 3)]),
            span: 2,
        },
    ]);
    let cont = build(data);
    let fields: Vec<&Field<FromField>> = cont.data.all_fields();
    let tys: Vec<&str> = fields.iter().map(|f| f.ty.as_str()).collect();
    assert_eq!(tys, vec!["u8", "u16", "u32"]);
}

#[test]
fn union_fields_are_collected_flat() {
    let cont = build(DataNode::Union(vec![named("a", "u32", 1), named("b", "u64", 2)]));
    match &cont.data {
        Data::Union(fields) => assert_eq!(fields.len(), 2),
        _ => panic!("expected a union"),
    }
    assert_eq!(cont.data.all_fields().len(), 2);
}

#[test]
fn container_copies_identity_and_generics() {
    let mut cx = Context::new();
    let mut inp = input(DataNode::Struct(FieldsNode::Unit));
    inp.ident = "Thing".to_string();
    inp.vis = "pub(crate)".to_string();
    inp.generics.impl_generics = "<T: Clone>".to_string();
    let cont: Container<FromField, FromVariant, boring_derive::FromContainer> =
        Container::from_ast(&mut cx, &inp);
    assert!(cx.check().is_ok());
    assert_eq!(cont.ident, "Thing");
    assert_eq!(cont.vis, "pub(crate)");
    assert_eq!(cont.generics.impl_generics, "<T: Clone>");
}
