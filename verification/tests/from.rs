use boring_derive::AttrLevel;
use boring_derive::AttrNode;
use boring_derive::DataNode;
use boring_derive::DeriveInput;
use boring_derive::DeriveKind;
use boring_derive::ErrorKind;
use boring_derive::FieldNode;
use boring_derive::FieldsNode;
use boring_derive::FromBody;
use boring_derive::FromImpl;
use boring_derive::FromSource;
use boring_derive::GenericsNode;
use boring_derive::MetaItem;
use boring_derive::MetaValue;
use boring_derive::ShapeKind;
use boring_derive::VariantNode;
use boring_derive::from_derive;

fn generics() -> GenericsNode {
    GenericsNode {
        impl_generics: String::new(),
        type_generics: String::new(),
        where_clause: String::new(),
    }
}

fn input(ident: &str, data: DataNode) -> DeriveInput {
    DeriveInput {
        ident: ident.to_string(),
        vis: String::new(),
        generics: generics(),
        attrs: vec![],
        data,
        span: 0,
    }
}

fn named(name: &str, ty: &str, span: u64) -> FieldNode {
    FieldNode { name: Some(name.to_string()), ty: ty.to_string(), attrs: vec![], span }
}

fn unnamed(ty: &str, span: u64) -> FieldNode {
    FieldNode { name: None, ty: ty.to_string(), attrs: vec![], span }
}

fn variant(ident: &str, attrs: Vec<AttrNode>, fields: FieldsNode, span: u64) -> VariantNode {
    VariantNode { ident: ident.to_string(), attrs, fields, span }
}

fn fattr(items: Vec<MetaItem>, span: u64) -> AttrNode {
    AttrNode { path: "from".to_string(), items, span }
}

fn flag(key: &str, span: u64) -> MetaItem {
    MetaItem { key: key.to_string(), value: MetaValue::Flag, span }
}

#[test]
fn named_struct_converts_from_a_tuple() {
    let data = DataNode::Struct(FieldsNode::Named(vec![
        named("x", "Float", 1),
        named("y", "Text", 2),
    ]));
    let out = from_derive(&input("Example", data)).unwrap();
    assert_eq!(out.ident, "Example");
    assert_eq!(
        out.impls,
        vec![FromImpl {
            variant: None,
            source: FromSource::Tuple(vec!["Float".to_string(), "Text".to_string()]),
            body: FromBody::NamedTuple(vec!["x".to_string(), "y".to_string()]),
        }]
    );
}

#[test]
fn newtype_converts_from_its_bare_field_type() {
    let data = DataNode::Struct(FieldsNode::Unnamed(vec![unnamed("usize", 1)]));
    let out = from_derive(&input("B", data)).unwrap();
    assert_eq!(
        out.impls,
        vec![FromImpl {
            variant: None,
            source: FromSource::Single("usize".to_string()),
            body: FromBody::Call,
        }]
    );
}

#[test]
fn unit_struct_converts_from_the_empty_tuple() {
    let data = DataNode::Struct(FieldsNode::Unit);
    let out = from_derive(&input("A", data)).unwrap();
    assert_eq!(
        out.impls,
        vec![FromImpl { variant: None, source: FromSource::Unit, body: FromBody::Bare }]
    );
}

#[test]
fn tuple_struct_converts_positionally() {
    let data = DataNode::Struct(FieldsNode::Unnamed(vec![
        unnamed("String", 1),
        unnamed("usize", 2),
    ]));
    let out = from_derive(&input("C", data)).unwrap();
    assert_eq!(
        out.impls,
        vec![FromImpl {
            variant: None,
            source: FromSource::Tuple(vec!["String".to_string(), "usize".to_string()]),
            body: FromBody::CallTuple(2),
        }]
    );
}

#[test]
fn single_named_field_collapses_to_its_bare_type() {
    let data = DataNode::Struct(FieldsNode::Named(vec![named("item", "usize", 1)]));
    let out = from_derive(&input("Example", data)).unwrap();
    assert_eq!(
        out.impls,
        vec![FromImpl {
            variant: None,
            source: FromSource::Single("usize".to_string()),
            body: FromBody::NamedSingle("item".to_string()),
        }]
    );
}

#[test]
fn enum_gets_one_conversion_per_variant() {
    let data = DataNode::Enum(vec![
        variant("Empty", vec![], FieldsNode::Unit, 1),
        variant(
            "Number",
            vec![],
            FieldsNode::Unnamed(vec![unnamed("Float", 2)]),
            2,
        ),
    ]);
    let out = from_derive(&input("Example", data)).unwrap();
    assert_eq!(
        out.impls,
        vec![
            FromImpl {
                variant: Some("Empty".to_string()),
                source: FromSource::Unit,
                body: FromBody::Bare,
            },
            FromImpl {
                variant: Some("Number".to_string()),
                source: FromSource::Single("Float".to_string()),
                body: FromBody::Call,
            },
        ]
    );
}

#[test]
fn skipped_variant_has_no_conversion() {
    let data = DataNode::Enum(vec![
        variant("Empty", vec![], FieldsNode::Unit, 1),
        variant(
            "Number",
            vec![fattr(vec![flag("skip", 11)], 11)],
            FieldsNode::Unnamed(vec![unnamed("Float", 2)]),
            2,
        ),
    ]);
    let out = from_derive(&input("Example", data)).unwrap();
    assert_eq!(
        out.impls,
        vec![FromImpl {
            variant: Some("Empty".to_string()),
            source: FromSource::Unit,
            body: FromBody::Bare,
        }]
    );
}

#[test]
fn mixed_enum_keeps_the_unskipped_variant() {
    let data = DataNode::Enum(vec![
        variant(
            "Left",
            vec![],
            FieldsNode::Unnamed(vec![unnamed("String", 1)]),
            1,
        ),
        variant(
            "Right",
            vec![fattr(vec![flag("skip", 11)], 11)],
            FieldsNode::Unnamed(vec![unnamed("usize", 2)]),
            2,
        ),
    ]);
    let out = from_derive(&input("Balls", data)).unwrap();
    assert_eq!(out.impls.len(), 1);
    assert_eq!(out.impls[0].variant, Some("Left".to_string()));
}

#[test]
fn unknown_variant_key_is_reported() {
    let data = DataNode::Enum(vec![variant(
        "Empty",
        vec![fattr(vec![flag("bogus", 11)], 11)],
        FieldsNode::Unit,
        1,
    )]);
    let err = from_derive(&input("Example", data)).unwrap_err();
    assert_eq!(err.errors.len(), 1);
    assert_eq!(err.errors[0].span, 11);
    assert_eq!(
        err.errors[0].kind,
        ErrorKind::UnknownAttr {
            level: AttrLevel::Variant,
            namespace: "from".to_string(),
            key: "bogus".to_string(),
        }
    );
    assert_eq!(
        err.errors[0].kind.message(),
        "unknown from variant attribute: `bogus`"
    );
}

#[test]
fn duplicate_skip_on_a_variant_fails() {
    let data = DataNode::Enum(vec![variant(
        "Empty",
        vec![fattr(vec![flag("skip", 11), flag("skip", 12)], 11)],
        FieldsNode::Unit,
        1,
    )]);
    let err = from_derive(&input("Example", data)).unwrap_err();
    assert_eq!(err.errors.len(), 1);
    assert_eq!(err.errors[0].span, 12);
    assert_eq!(err.errors[0].kind.message(), "duplicate attribute `skip`");
}

#[test]
fn from_rejects_unions() {
    let data = DataNode::Union(vec![named("a", "u32", 1)]);
    let err = from_derive(&input("Example", data)).unwrap_err();
    assert_eq!(err.errors.len(), 1);
    assert_eq!(
        err.errors[0].kind,
        ErrorKind::UnsupportedShape { generator: DeriveKind::From, shape: ShapeKind::Union }
    );
    assert_eq!(
        err.errors[0].kind.message(),
        "deriving from not supported for unions"
    );
}

#[test]
fn container_level_from_attributes_are_not_scanned() {
    let data = DataNode::Struct(FieldsNode::Named(vec![named("item", "usize", 1)]));
    let mut inp = input("Example", data);
    inp.attrs = vec![fattr(vec![flag("bogus", 10)], 10)];
    let out = from_derive(&inp).unwrap();
    assert_eq!(out.impls.len(), 1);
}

#[test]
fn empty_named_struct_converts_from_an_empty_tuple() {
    let data = DataNode::Struct(FieldsNode::Named(vec![]));
    let out = from_derive(&input("Example", data)).unwrap();
    assert_eq!(
        out.impls,
        vec![FromImpl {
            variant: None,
            source: FromSource::Tuple(vec![]),
            body: FromBody::NamedTuple(vec![]),
        }]
    );
}

#[test]
fn empty_enum_generates_nothing() {
    let out = from_derive(&input("Never", DataNode::Enum(vec![]))).unwrap();
    assert_eq!(out.impls, Vec::<FromImpl>::new());
}

#[test]
fn generics_carry_through() {
    let data = DataNode::Struct(FieldsNode::Named(vec![named("item", "T", 1)]));
    let mut inp = input("Stuff", data);
    inp.generics = GenericsNode {
        impl_generics: "<T>".to_string(),
        type_generics: "<T>".to_string(),
        where_clause: String::new(),
    };
    let out = from_derive(&inp).unwrap();
    assert_eq!(out.generics.impl_generics, "<T>");
    assert_eq!(out.generics.type_generics, "<T>");
}
