use weldgen::codegen::{RustCodeGen, TypeSupport};
use weldgen::error::CodegenError;
use weldgen::smithy::{
    AppliedTrait, AppliedTraits, CodegenRust, MemberShape, Model, Operation, Serialization,
    Service, Shape, ShapeId, ShapeKind, ShapeRef, Simple, Value,
};
use weldgen::text::Writer;

fn id(namespace: &str, name: &str) -> ShapeId {
    ShapeId {
        namespace: namespace.to_string(),
        shape_name: name.to_string(),
        member_name: None,
    }
}

fn named(namespace: &str, name: &str) -> ShapeRef {
    ShapeRef { id: id(namespace, name), rust_name: name.to_string() }
}

fn prelude(name: &str) -> ShapeRef {
    named("smithy.api", name)
}

fn traits(marks: &[&str]) -> AppliedTraits {
    AppliedTraits {
        applied: marks
            .iter()
            .map(|name| AppliedTrait { id: id("smithy.api", name), value: None })
            .collect(),
        codegen_rust: Ok(None),
        serialization: Ok(None),
        wasmbus: Ok(None),
    }
}

fn field(name: &str, field_name: &str, target: ShapeRef, marks: &[&str]) -> MemberShape {
    MemberShape {
        name: name.to_string(),
        field_name: Ok(field_name.to_string()),
        target,
        traits: traits(marks),
    }
}

fn documented(text: &str) -> AppliedTraits {
    let mut documented = traits(&[]);
    documented.applied.push(AppliedTrait {
        id: id("smithy.api", "documentation"),
        value: Some(Value::Text(text.to_string())),
    });
    documented
}

fn shape(namespace: &str, name: &str, body: ShapeKind) -> Shape {
    Shape { shape: named(namespace, name), traits: traits(&[]), body }
}

fn model(shapes: Vec<Shape>) -> Model {
    Model { smithy_version: "1.0".to_string(), shapes }
}

fn structure(traits: &AppliedTraits, members: Vec<MemberShape>) -> (String, Result<(), CodegenError>) {
    let mut w = Writer::new();
    let outcome = RustCodeGen::default().declare_structure_shape(
        &mut w,
        &named("com.example", "Thing"),
        traits,
        &members,
    );
    (w.as_str().to_string(), outcome)
}

#[test]
fn simple_declarations() {
    let generator = RustCodeGen::default();
    let expected = [
        (Simple::Blob, "Vec<u8>"),
        (Simple::Boolean, "bool"),
        (Simple::Text, "String"),
        (Simple::Byte, "i8"),
        (Simple::Short, "i16"),
        (Simple::Integer, "i32"),
        (Simple::Long, "i64"),
        (Simple::Float, "f32"),
        (Simple::Double, "f64"),
        (Simple::Document, "Vec<u8>"),
    ];
    for (simple, ty) in expected {
        let mut w = Writer::new();
        let thing = named("com.example", "Thing");
        assert!(generator.declare_simple_shape(&mut w, &thing, &traits(&[]), &simple).is_ok());
        assert_eq!(w.as_str(), format!("pub type Thing = {};\n\n", ty));
    }
}

#[test]
fn optional_simple_declarations() {
    let thing = named("com.example", "Thing");
    let without = RustCodeGen::default();
    let mut w = Writer::new();
    assert!(matches!(
        without.declare_simple_shape(&mut w, &thing, &traits(&[]), &Simple::Timestamp),
        Err(CodegenError::UnsupportedTimestamp)
    ));
    assert_eq!(w.as_str(), "pub type Thing = ");
    assert!(matches!(
        without.declare_simple_shape(&mut w, &thing, &traits(&[]), &Simple::BigInteger),
        Err(CodegenError::UnsupportedBigInteger)
    ));
    assert!(matches!(
        without.declare_simple_shape(&mut w, &thing, &traits(&[]), &Simple::BigDecimal),
        Err(CodegenError::UnsupportedBigDecimal)
    ));
    let with = RustCodeGen::with_support(TypeSupport {
        timestamp: true,
        big_integer: true,
        big_decimal: true,
    });
    let mut w = Writer::new();
    for simple in [Simple::Timestamp, Simple::BigInteger, Simple::BigDecimal] {
        assert!(with.declare_simple_shape(&mut w, &thing, &traits(&[]), &simple).is_ok());
    }
    assert_eq!(
        w.as_str(),
        "pub type Thing = Timestamp;\n\npub type Thing = BigInteger;\n\npub type Thing = BigDecimal;\n\n"
    );
}

#[test]
fn documented_declaration() {
    let mut w = Writer::new();
    let outcome = RustCodeGen::default().declare_simple_shape(
        &mut w,
        &named("com.example", "Thing"),
        &documented("A thing."),
        &Simple::Text,
    );
    assert!(outcome.is_ok());
    assert_eq!(w.as_str(), "/// A thing.\npub type Thing = String;\n\n");
}

#[test]
fn map_declaration() {
    let generator = RustCodeGen::default();
    let thing = named("com.example", "Things");
    let mut w = Writer::new();
    let value = named("com.example", "Thing");
    assert!(generator
        .declare_map_shape(&mut w, &thing, &traits(&[]), &prelude("String"), &value)
        .is_ok());
    assert_eq!(w.as_str(), "pub type Things = std::collections::HashMap<String,Thing>;\n\n");

    let mut w = Writer::new();
    let outcome =
        generator.declare_map_shape(&mut w, &thing, &traits(&[]), &prelude("String"), &prelude("X"));
    assert!(matches!(outcome, Err(CodegenError::UnsupportedType(name)) if name == "X"));
    assert_eq!(w.as_str(), "pub type Things = std::collections::HashMap<String,");
}

#[test]
fn list_and_set_declarations() {
    let shapes = model(vec![
        shape("com.example", "Words", ShapeKind::SetOf(prelude("String"))),
        shape("com.example", "Numbers", ShapeKind::ListOf(prelude("Integer"))),
    ]);
    let mut w = Writer::new();
    assert!(RustCodeGen::default().declare_types(&mut w, &shapes).is_ok());
    assert_eq!(
        w.as_str(),
        "pub type Numbers = Vec<i32>;\n\npub type Words = std::collections::BTreeSet<String>;\n\n"
    );
}

#[test]
fn empty_structure() {
    let (text, outcome) = structure(&traits(&[]), vec![]);
    assert!(outcome.is_ok());
    assert_eq!(
        text,
        "#[derive(Clone, Debug, Serialize, Deserialize)]\npub struct Thing {\n}\n\n"
    );
}

#[test]
fn structure_fields() {
    let members = vec![
        field("name", "name", prelude("String"), &["required"]),
        field("itemCount", "item_count", prelude("Integer"), &[]),
        field("data", "data", prelude("Blob"), &[]),
        field("maybe", "maybe", prelude("Boolean"), &["box"]),
    ];
    let (text, outcome) = structure(&traits(&[]), members);
    assert!(outcome.is_ok());
    assert_eq!(
        text,
        concat_lines(&[
            "#[derive(Clone, Debug, Serialize, Deserialize)]",
            "pub struct Thing {",
            "  pub name: String,",
            "  #[serde(rename=\"itemCount\")]   pub item_count: i32,",
            "  #[serde(with=\"serde_bytes\")]   #[serde(default, skip_serializing_if = \"Option::is_none\")]  pub data: Option<Vec<u8>>,",
            "  #[serde(default, skip_serializing_if = \"Option::is_none\")]  pub maybe: Option<bool>,",
            "}",
            "",
        ])
    );
}

fn concat_lines(lines: &[&str]) -> String {
    lines.iter().map(|line| format!("{}\n", line)).collect()
}

#[test]
fn blob_in_any_case() {
    let mut blob = prelude("Blob");
    blob.id.namespace = "Smithy.Api".to_string();
    let (text, _) = structure(&traits(&[]), vec![field("a", "a", blob, &["required"])]);
    assert!(text.contains("  #[serde(with=\"serde_bytes\")]   pub a: Vec<u8>,\n"));

    let mut lower = prelude("blob");
    lower.id.namespace = "smithy.api".to_string();
    let (text, outcome) = structure(&traits(&[]), vec![field("a", "a", lower, &["required"])]);
    assert!(matches!(outcome, Err(CodegenError::UnsupportedType(name)) if name == "blob"));
    assert!(text.ends_with("{\n  #[serde(with=\"serde_bytes\")]   pub a: "));

    let other = named("com.example", "Blob");
    let (text, _) = structure(&traits(&[]), vec![field("a", "a", other, &["required"])]);
    assert!(text.contains("{\n  pub a: Blob,\n"));
}

#[test]
fn serialized_names() {
    let mut member = field("name", "name", prelude("String"), &["required"]);
    member.traits.serialization = Ok(Some(Serialization { name: Some("other".to_string()) }));
    let (text, _) = structure(&traits(&[]), vec![member]);
    assert!(text.contains("{\n  #[serde(rename=\"other\")]   pub name: String,\n"));

    let mut member = field("itemName", "item_name", prelude("String"), &["required"]);
    member.traits.serialization = Ok(Some(Serialization { name: Some("item_name".to_string()) }));
    let (text, _) = structure(&traits(&[]), vec![member]);
    assert!(text.contains("{\n  pub item_name: String,\n"));

    let mut member = field("itemName", "item_name", prelude("String"), &["required"]);
    member.traits.serialization = Ok(Some(Serialization { name: None }));
    let (text, _) = structure(&traits(&[]), vec![member]);
    assert!(text.contains("{\n  #[serde(rename=\"itemName\")]   pub item_name: String,\n"));
}

#[test]
fn derived_default() {
    let mut with = traits(&[]);
    with.codegen_rust = Ok(Some(CodegenRust { derive_default: true }));
    let (text, _) = structure(&with, vec![]);
    assert!(text.starts_with("#[derive(Default, Clone, Debug, Serialize, Deserialize)]\n"));
    with.codegen_rust = Ok(Some(CodegenRust { derive_default: false }));
    let (text, _) = structure(&with, vec![]);
    assert!(text.starts_with("#[derive(Clone, Debug, Serialize, Deserialize)]\n"));
}

#[test]
fn trait_structures_have_defaults() {
    let members = || {
        vec![
            field("a", "a", prelude("Integer"), &[]),
            field("b", "b", prelude("Integer"), &["required"]),
            field("c", "c", prelude("String"), &[]),
        ]
    };
    let (text, _) = structure(&traits(&["trait"]), members());
    assert!(text.contains("  #[serde(default)]  pub a: i32,\n  pub b: i32,\n"));
    assert!(text.contains(
        "  #[serde(default, skip_serializing_if = \"Option::is_none\")]  pub c: Option<String>,\n"
    ));
    let (text, _) = structure(&traits(&[]), members());
    assert!(text.contains("{\n  pub a: i32,\n  pub b: i32,\n"));
}

#[test]
fn errors_of_a_structure() {
    let failure = || CodegenError::Model("bad trait".to_string());
    let is_failure =
        |outcome: Result<(), CodegenError>| matches!(outcome, Err(CodegenError::Model(r)) if r == "bad trait");

    let mut bad = documented("Doc");
    bad.codegen_rust = Err(failure());
    let (text, outcome) = structure(&bad, vec![]);
    assert!(is_failure(outcome));
    assert_eq!(text, "/// Doc\n");

    let head = "#[derive(Clone, Debug, Serialize, Deserialize)]\npub struct Thing {\n";
    let mut member = field("a", "a", prelude("String"), &["unstable"]);
    member.traits.serialization = Err(failure());
    let (text, outcome) = structure(&traits(&[]), vec![member]);
    assert!(is_failure(outcome));
    assert_eq!(text, format!("{}/// @unstable\n", head));

    let mut member = field("a", "a", prelude("String"), &[]);
    member.field_name = Err(failure());
    let (text, outcome) = structure(&traits(&[]), vec![member]);
    assert!(is_failure(outcome));
    assert_eq!(text, head);

    let members = vec![
        field("a", "a", prelude("String"), &["required"]),
        field("b", "b", prelude("Timestamp"), &["required"]),
        field("c", "c", prelude("String"), &["required"]),
    ];
    let (text, outcome) = structure(&traits(&[]), members);
    assert!(matches!(outcome, Err(CodegenError::UnsupportedTimestamp)));
    assert_eq!(text, format!("{}  pub a: String,\n  pub b: ", head));
}

fn blob(namespace: &str, name: &str) -> Shape {
    shape(namespace, name, ShapeKind::Simple(Simple::Blob))
}

fn declared(scope: Option<&str>, shapes: Vec<Shape>) -> String {
    let mut generator = RustCodeGen::default();
    assert!(generator.init_file(&scope.map(|ns| ns.to_string())).is_ok());
    let mut w = Writer::new();
    assert!(generator.declare_types(&mut w, &model(shapes)).is_ok());
    w.as_str().to_string()
}

#[test]
fn declarations_are_ordered_by_identity() {
    let text = declared(
        None,
        vec![blob("b", "A"), blob("a", "c"), blob("a", "B"), blob("a", "a"), blob("B", "D")],
    );
    let names: Vec<&str> = text
        .split("\n\n")
        .filter(|part| !part.is_empty())
        .map(|part| &part[9..10])
        .collect();
    assert_eq!(names, vec!["D", "B", "a", "c", "A"]);
}

#[test]
fn declarations_do_not_depend_on_the_order_of_the_model() {
    let forward = declared(None, vec![blob("a", "X"), blob("a", "Y"), blob("b", "Z")]);
    let backward = declared(None, vec![blob("b", "Z"), blob("a", "Y"), blob("a", "X")]);
    assert_eq!(forward, backward);
}

#[test]
fn shapes_of_one_identity_keep_their_order() {
    let first = shape("a", "X", ShapeKind::Simple(Simple::Byte));
    let second = shape("a", "X", ShapeKind::Simple(Simple::Long));
    assert_eq!(
        declared(None, vec![first, blob("a", "A"), second]),
        "pub type A = Vec<u8>;\n\npub type X = i8;\n\npub type X = i64;\n\n"
    );
}

#[test]
fn a_namespace_limits_declarations() {
    let shapes = || vec![blob("com.a", "X"), blob("com.b", "Y"), blob("COM.A", "Z")];
    assert_eq!(
        declared(Some("com.a"), shapes()),
        declared(None, vec![blob("com.a", "X"), blob("COM.A", "Z")])
    );
    assert_eq!(declared(Some("com.c"), shapes()), "");
}

#[test]
fn other_shapes_are_not_declared() {
    let operation = Operation { input: None, output: None };
    let text = declared(
        None,
        vec![
            shape("a", "A", ShapeKind::Operation(operation)),
            shape("a", "B", ShapeKind::Service(Service { operations: vec![] })),
            shape("a", "C", ShapeKind::Union),
            shape("a", "D", ShapeKind::Resource),
            shape("a", "E", ShapeKind::Unresolved),
        ],
    );
    assert_eq!(text, "");
}

#[test]
fn declarations_stop_at_an_error() {
    let shapes = model(vec![
        blob("a", "C"),
        shape("a", "B", ShapeKind::Simple(Simple::Timestamp)),
        blob("a", "A"),
    ]);
    let mut w = Writer::new();
    w.write("// kept\n");
    let outcome = RustCodeGen::default().declare_types(&mut w, &shapes);
    assert!(matches!(outcome, Err(CodegenError::UnsupportedTimestamp)));
    assert_eq!(w.as_str(), "// kept\npub type A = Vec<u8>;\n\npub type B = ");
}

#[test]
fn structures_are_declared_with_the_rest() {
    let thing = shape(
        "a",
        "Thing",
        ShapeKind::Structure(vec![field("x", "x", named("a", "Other"), &[])]),
    );
    let pairs = shape(
        "a",
        "Pairs",
        ShapeKind::MapOf { key: prelude("String"), value: prelude("Long") },
    );
    assert_eq!(
        declared(Some("a"), vec![thing, pairs]),
        concat_lines(&[
            "pub type Pairs = std::collections::HashMap<String,i64>;",
            "",
            "#[derive(Clone, Debug, Serialize, Deserialize)]",
            "pub struct Thing {",
            "  #[serde(default, skip_serializing_if = \"Option::is_none\")]  pub x: Option<Other>,",
            "}",
            "",
        ])
    );
}
