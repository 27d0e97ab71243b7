use boring_derive::AttrLevel;
use boring_derive::AttrNode;
use boring_derive::BuilderMethod;
use boring_derive::DataNode;
use boring_derive::DeriveInput;
use boring_derive::DeriveKind;
use boring_derive::ErrorKind;
use boring_derive::FieldNode;
use boring_derive::FieldsNode;
use boring_derive::GenericsNode;
use boring_derive::MetaItem;
use boring_derive::MetaValue;
use boring_derive::ShapeKind;
use boring_derive::builder_derive;

fn generics() -> GenericsNode {
    GenericsNode {
        impl_generics: String::new(),
        type_generics: String::new(),
        where_clause: String::new(),
    }
}

fn input(ident: &str, attrs: Vec<AttrNode>, data: DataNode) -> DeriveInput {
    DeriveInput {
        ident: ident.to_string(),
        vis: "pub".to_string(),
        generics: generics(),
        attrs,
        data,
        span: 0,
    }
}

fn named(name: &str, ty: &str, attrs: Vec<AttrNode>, span: u64) -> FieldNode {
    FieldNode { name: Some(name.to_string()), ty: ty.to_string(), attrs, span }
}

fn unnamed(ty: &str, span: u64) -> FieldNode {
    FieldNode { name: None, ty: ty.to_string(), attrs: vec![], span }
}

fn battr(items: Vec<MetaItem>, span: u64) -> AttrNode {
    AttrNode { path: "builder".to_string(), items, span }
}

fn flag(key: &str, span: u64) -> MetaItem {
    MetaItem { key: key.to_string(), value: MetaValue::Flag, span }
}

fn strv(key: &str, value: &str, span: u64) -> MetaItem {
    MetaItem { key: key.to_string(), value: MetaValue::Str(value.to_string()), span }
}

fn method(name: &str, field: &str, ty: &str, into: bool) -> BuilderMethod {
    BuilderMethod {
        name: name.to_string(),
        field: field.to_string(),
        ty: ty.to_string(),
        into,
    }
}

#[test]
fn plain_struct_one_method_per_field() {
    let data = DataNode::Struct(FieldsNode::Named(vec![
        named("x", "Float", vec![], 1),
        named("y", "Text", vec![], 2),
    ]));
    let out = builder_derive(&input("Example", vec![], data)).unwrap();
    assert_eq!(out.ident, "Example");
    assert_eq!(out.vis, "pub");
    assert_eq!(
        out.methods,
        vec![method("x", "x", "Float", true), method("y", "y", "Text", true)]
    );
}

#[test]
fn prefix_applies_to_every_unrenamed_field() {
    let data = DataNode::Struct(FieldsNode::Named(vec![named("item", "String", vec![], 1)]));
    let attrs = vec![battr(vec![strv("prefix", "set_", 10)], 10)];
    let out = builder_derive(&input("Example", attrs, data)).unwrap();
    assert_eq!(out.methods, vec![method("set_item", "item", "String", true)]);
}

#[test]
fn rename_replaces_the_method_name() {
    let field = named("item", "String", vec![battr(vec![strv("rename", "value", 11)], 11)], 1);
    let data = DataNode::Struct(FieldsNode::Named(vec![field]));
    let out = builder_derive(&input("Example", vec![], data)).unwrap();
    assert_eq!(out.methods, vec![method("value", "item", "String", true)]);
}

#[test]
fn rename_wins_over_prefix() {
    let field = named("item", "String", vec![battr(vec![strv("rename", "value", 11)], 11)], 1);
    let data = DataNode::Struct(FieldsNode::Named(vec![field]));
    let attrs = vec![battr(vec![strv("prefix", "set_", 10)], 10)];
    let out = builder_derive(&input("Example", attrs, data)).unwrap();
    assert_eq!(out.methods, vec![method("value", "item", "String", true)]);
}

#[test]
fn skipped_field_gets_no_method() {
    let data = DataNode::Struct(FieldsNode::Named(vec![
        named("field1", "Float", vec![battr(vec![flag("skip", 11)], 11)], 1),
        named("field2", "String", vec![], 2),
    ]));
    let out = builder_derive(&input("Example", vec![], data)).unwrap();
    assert_eq!(out.methods, vec![method("field2", "field2", "String", true)]);
}

#[test]
fn no_into_takes_the_exact_field_type() {
    let data = DataNode::Struct(FieldsNode::Named(vec![
        named("field1", "Float", vec![], 1),
        named("field2", "String", vec![battr(vec![flag("no_into", 11)], 11)], 2),
    ]));
    let out = builder_derive(&input("Example", vec![], data)).unwrap();
    assert_eq!(
        out.methods,
        vec![
            method("field1", "field1", "Float", true),
            method("field2", "field2", "String", false)
        ]
    );
}

#[test]
fn enum_is_rejected() {
    let data = DataNode::Enum(vec![]);
    let err = builder_derive(&input("Example", vec![], data)).unwrap_err();
    assert_eq!(err.errors.len(), 1);
    assert_eq!(
        err.errors[0].kind,
        ErrorKind::UnsupportedShape { generator: DeriveKind::Builder, shape: ShapeKind::Enum }
    );
    assert_eq!(
        err.errors[0].kind.message(),
        "deriving builder pattern not supported for enums"
    );
}

#[test]
fn newtype_struct_is_rejected() {
    let data = DataNode::Struct(FieldsNode::Unnamed(vec![unnamed("usize", 1)]));
    let err = builder_derive(&input("Example", vec![], data)).unwrap_err();
    assert_eq!(err.errors.len(), 1);
    assert_eq!(
        err.errors[0].kind.message(),
        "deriving builder pattern not supported for newtype style structs"
    );
}

#[test]
fn tuple_struct_is_rejected() {
    let data = DataNode::Struct(FieldsNode::Unnamed(vec![
        unnamed("String", 1),
        unnamed("usize", 2),
    ]));
    let err = builder_derive(&input("Example", vec![], data)).unwrap_err();
    assert_eq!(err.errors.len(), 1);
    assert_eq!(
        err.errors[0].kind.message(),
        "deriving builder pattern not supported for tuple structs"
    );
}

#[test]
fn unit_struct_is_rejected() {
    let data = DataNode::Struct(FieldsNode::Unit);
    let err = builder_derive(&input("Example", vec![], data)).unwrap_err();
    assert_eq!(err.errors.len(), 1);
    assert_eq!(
        err.errors[0].kind.message(),
        "deriving builder pattern not supported for unit-like structs"
    );
}

#[test]
fn builder_rejects_unions() {
    let data = DataNode::Union(vec![named("a", "u32", vec![], 1)]);
    let err = builder_derive(&input("Example", vec![], data)).unwrap_err();
    assert_eq!(err.errors.len(), 1);
    assert_eq!(
        err.errors[0].kind.message(),
        "deriving builder pattern not supported for unions"
    );
}

#[test]
fn rejected_shape_still_reports_field_errors() {
    let variant = boring_derive::VariantNode {
        ident: "Left".to_string(),
        attrs: vec![],
        fields: FieldsNode::Named(vec![named(
            "a",
            "u32",
            vec![battr(vec![flag("bogus", 11)], 11)],
            1,
        )]),
        span: 3,
    };
    let data = DataNode::Enum(vec![variant]);
    let err = builder_derive(&input("Example", vec![], data)).unwrap_err();
    assert_eq!(err.errors.len(), 2);
    assert_eq!(
        err.errors[0].kind,
        ErrorKind::UnknownAttr {
            level: AttrLevel::Field,
            namespace: "builder".to_string(),
            key: "bogus".to_string(),
        }
    );
    assert_eq!(
        err.errors[1].kind,
        ErrorKind::UnsupportedShape { generator: DeriveKind::Builder, shape: ShapeKind::Enum }
    );
}

#[test]
fn unknown_field_key_is_reported() {
    let field = named("item", "String", vec![battr(vec![flag("bogus", 11)], 11)], 1);
    let data = DataNode::Struct(FieldsNode::Named(vec![field]));
    let err = builder_derive(&input("Example", vec![], data)).unwrap_err();
    assert_eq!(err.errors.len(), 1);
    assert_eq!(err.errors[0].span, 11);
    assert_eq!(
        err.errors[0].kind.message(),
        "unknown builder field attribute: `bogus`"
    );
}

#[test]
fn unknown_container_key_is_reported() {
    let data = DataNode::Struct(FieldsNode::Named(vec![named("item", "String", vec![], 1)]));
    let attrs = vec![battr(vec![flag("bogus", 10)], 10)];
    let err = builder_derive(&input("Example", attrs, data)).unwrap_err();
    assert_eq!(err.errors.len(), 1);
    assert_eq!(
        err.errors[0].kind.message(),
        "unknown builder container attribute: `bogus`"
    );
}

#[test]
fn prefix_must_be_a_string() {
    let data = DataNode::Struct(FieldsNode::Named(vec![named("item", "String", vec![], 1)]));
    let attrs = vec![battr(
        vec![MetaItem {
            key: "prefix".to_string(),
            value: MetaValue::NonStr("0.0".to_string()),
            span: 10,
        }],
        10,
    )];
    let err = builder_derive(&input("Example", attrs, data)).unwrap_err();
    assert_eq!(err.errors.len(), 1);
    assert_eq!(
        err.errors[0].kind.message(),
        "prefix must be a string not `0.0`"
    );
}

#[test]
fn rename_must_be_a_string() {
    let field = named(
        "item",
        "String",
        vec![battr(
            vec![MetaItem {
                key: "rename".to_string(),
                value: MetaValue::NonStr("0.0".to_string()),
                span: 11,
            }],
            11,
        )],
        1,
    );
    let data = DataNode::Struct(FieldsNode::Named(vec![field]));
    let err = builder_derive(&input("Example", vec![], data)).unwrap_err();
    assert_eq!(err.errors.len(), 1);
    assert_eq!(
        err.errors[0].kind.message(),
        "rename must be a string not `0.0`"
    );
}

#[test]
fn duplicate_prefix_reports_once_and_fails() {
    let data = DataNode::Struct(FieldsNode::Named(vec![named("item", "String", vec![], 1)]));
    let attrs = vec![battr(
        vec![strv("prefix", "a_", 10), strv("prefix", "b_", 12)],
        10,
    )];
    let err = builder_derive(&input("Example", attrs, data)).unwrap_err();
    assert_eq!(err.errors.len(), 1);
    assert_eq!(err.errors[0].span, 12);
    assert_eq!(
        err.errors[0].kind,
        ErrorKind::DuplicateAttr { name: "prefix".to_string() }
    );
    assert_eq!(err.errors[0].kind.message(), "duplicate attribute `prefix`");
}

#[test]
fn duplicate_skip_reports_once_and_fails() {
    let field = named(
        "item",
        "String",
        vec![battr(vec![flag("skip", 11), flag("skip", 12)], 11)],
        1,
    );
    let data = DataNode::Struct(FieldsNode::Named(vec![field]));
    let err = builder_derive(&input("Example", vec![], data)).unwrap_err();
    assert_eq!(err.errors.len(), 1);
    assert_eq!(err.errors[0].span, 12);
    assert_eq!(err.errors[0].kind.message(), "duplicate attribute `skip`");
}

#[test]
fn prefix_without_value_is_reported() {
    let data = DataNode::Struct(FieldsNode::Named(vec![named("item", "String", vec![], 1)]));
    let attrs = vec![battr(vec![flag("prefix", 10)], 10)];
    let err = builder_derive(&input("Example", attrs, data)).unwrap_err();
    assert_eq!(err.errors.len(), 1);
    assert_eq!(
        err.errors[0].kind,
        ErrorKind::ExpectedValue { keyword: "prefix".to_string() }
    );
}

#[test]
fn skip_with_value_is_reported() {
    let field = named(
        "item",
        "String",
        vec![battr(vec![strv("skip", "yes", 11)], 11)],
        1,
    );
    let data = DataNode::Struct(FieldsNode::Named(vec![field]));
    let err = builder_derive(&input("Example", vec![], data)).unwrap_err();
    assert_eq!(err.errors.len(), 1);
    assert_eq!(
        err.errors[0].kind,
        ErrorKind::UnexpectedValue { keyword: "skip".to_string() }
    );
}

#[test]
fn unknown_key_stops_its_attribute_only() {
    // The unknown key stops the rest of its own attribute (the following
    // `skip` is never seen), but a later attribute is scanned afresh.
    let field = named(
        "item",
        "String",
        vec![
            battr(vec![flag("bogus", 11), flag("skip", 12)], 11),
            battr(vec![strv("rename", "value", 13)], 13),
        ],
        1,
    );
    let data = DataNode::Struct(FieldsNode::Named(vec![field]));
    let err = builder_derive(&input("Example", vec![], data)).unwrap_err();
    assert_eq!(err.errors.len(), 1);
    assert_eq!(err.errors[0].span, 11);
}

#[test]
fn foreign_namespace_is_ignored() {
    let field = named(
        "item",
        "String",
        vec![AttrNode {
            path: "serde".to_string(),
            items: vec![flag("bogus", 11)],
            span: 11,
        }],
        1,
    );
    let data = DataNode::Struct(FieldsNode::Named(vec![field]));
    let out = builder_derive(&input("Example", vec![], data)).unwrap();
    assert_eq!(out.methods.len(), 1);
}

#[test]
fn empty_named_struct_builds_no_methods() {
    let data = DataNode::Struct(FieldsNode::Named(vec![]));
    let out = builder_derive(&input("Example", vec![], data)).unwrap();
    assert_eq!(out.methods, Vec::<BuilderMethod>::new());
}

#[test]
fn generics_and_visibility_carry_through() {
    let data = DataNode::Struct(FieldsNode::Named(vec![named("item", "T", vec![], 1)]));
    let mut inp = input("Stuff", vec![], data);
    inp.vis = String::new();
    inp.generics = GenericsNode {
        impl_generics: "<T>".to_string(),
        type_generics: "<T>".to_string(),
        where_clause: String::new(),
    };
    let out = builder_derive(&inp).unwrap();
    assert_eq!(out.vis, "");
    assert_eq!(out.generics.impl_generics, "<T>");
    assert_eq!(out.generics.type_generics, "<T>");
}
