use weldgen::codegen::{is_rust_source, CommentKind, RustCodeGen, TypeSupport};
use weldgen::error::CodegenError;
use weldgen::smithy::{AppliedTrait, AppliedTraits, Model, Shape, ShapeId, ShapeKind, ShapeRef, Simple, Value};
use weldgen::text::Writer;

fn id(namespace: &str, name: &str) -> ShapeId {
    ShapeId {
        namespace: namespace.to_string(),
        shape_name: name.to_string(),
        member_name: None,
    }
}

fn traits(applied: Vec<(&str, Option<Value>)>) -> AppliedTraits {
    AppliedTraits {
        applied: applied
            .into_iter()
            .map(|(name, value)| AppliedTrait { id: id("smithy.api", name), value })
            .collect(),
        codegen_rust: Ok(None),
        serialization: Ok(None),
        wasmbus: Ok(None),
    }
}

fn text(s: &str) -> Value {
    Value::Text(s.to_string())
}

fn documented(traits: &AppliedTraits) -> String {
    let mut w = Writer::new();
    RustCodeGen::default().apply_documentation_traits(&mut w, traits);
    w.as_str().to_string()
}

fn blob_in(namespace: &str, name: &str) -> Shape {
    Shape {
        shape: ShapeRef { id: id(namespace, name), rust_name: name.to_string() },
        traits: traits(vec![]),
        body: ShapeKind::Simple(Simple::Blob),
    }
}

fn two_namespaces() -> Model {
    Model {
        smithy_version: "1.0".to_string(),
        shapes: vec![blob_in("com.b", "B"), blob_in("com.a", "A")],
    }
}

fn declared(generator: &RustCodeGen) -> String {
    let mut w = Writer::new();
    assert!(generator.declare_types(&mut w, &two_namespaces()).is_ok());
    w.as_str().to_string()
}

#[test]
fn comments() {
    let generator = RustCodeGen::default();
    let mut w = Writer::new();
    generator.write_comment(&mut w, CommentKind::Documentation, "doc");
    generator.write_comment(&mut w, CommentKind::Inner, "inner");
    assert_eq!(w.as_str(), "/// doc\n// inner\n");
}

#[test]
fn documentation_by_line() {
    let generator = RustCodeGen::default();
    let mut w = Writer::new();
    generator.write_documentation(&mut w, "one\n\ntwo \u{e9}");
    assert_eq!(w.as_str(), "/// one\n/// \n/// two \u{e9}\n");
    let mut w = Writer::new();
    generator.write_documentation(&mut w, "");
    assert_eq!(w.as_str(), "/// \n");
    let mut w = Writer::new();
    generator.write_documentation(&mut w, "end\n");
    assert_eq!(w.as_str(), "/// end\n/// \n");
}

#[test]
fn documentation_stays_in_its_comment() {
    let source = "a\nb\n\nc";
    let mut w = Writer::new();
    RustCodeGen::default().write_documentation(&mut w, source);
    let lines: Vec<&str> = w.as_str().split('\n').collect();
    let mut expected: Vec<String> = source.split('\n').map(|l| format!("/// {}", l)).collect();
    expected.push(String::new());
    assert_eq!(lines, expected);
}

#[test]
fn documentation_traits() {
    assert_eq!(documented(&traits(vec![])), "");
    assert_eq!(
        documented(&traits(vec![("documentation", Some(text("Hello\nworld")))])),
        "/// Hello\n/// world\n"
    );
    assert_eq!(documented(&traits(vec![("documentation", None)])), "");
    assert_eq!(documented(&traits(vec![("documentation", Some(Value::Boolean(true)))])), "");
    assert_eq!(documented(&traits(vec![("Documentation", Some(text("x")))])), "");
    assert_eq!(documented(&traits(vec![("unstable", None)])), "/// @unstable\n");
    assert_eq!(documented(&traits(vec![("unstable", Some(Value::Null))])), "/// @unstable\n");
}

#[test]
fn deprecation_trait() {
    let deprecated = |entries: Vec<(&str, Value)>| {
        let entries = entries.into_iter().map(|(k, v)| (k.to_string(), v)).collect();
        documented(&traits(vec![("deprecated", Some(Value::Object(entries)))]))
    };
    assert_eq!(deprecated(vec![]), "#[deprecated()\n");
    assert_eq!(deprecated(vec![("since", text("1.2"))]), "#[deprecated(since=\"1.2\"\n)\n");
    assert_eq!(
        deprecated(vec![("message", text("old")), ("since", text("1.2"))]),
        "#[deprecated(since=\"1.2\"\nnote=\"old\"\n)\n"
    );
    assert_eq!(
        deprecated(vec![("since", Value::Number("1".to_string()))]),
        "#[deprecated()\n"
    );
    assert_eq!(documented(&traits(vec![("deprecated", None)])), "");
}

#[test]
fn all_documentation_traits_in_order() {
    let all = traits(vec![
        ("unstable", None),
        ("deprecated", Some(Value::Object(vec![]))),
        ("documentation", Some(text("doc"))),
    ]);
    assert_eq!(documented(&all), "/// doc\n#[deprecated()\n/// @unstable\n");
}

#[test]
fn member_traits_are_not_shape_traits() {
    let mut all = traits(vec![("unstable", None)]);
    all.applied[0].id.member_name = Some("m".to_string());
    assert_eq!(documented(&all), "");
}

fn header(params: Vec<(String, Value)>) -> String {
    let model = Model { smithy_version: "1.0".to_string(), shapes: vec![] };
    let mut w = Writer::new();
    assert!(RustCodeGen::default().write_source_file_header(&mut w, &model, &params).is_ok());
    w.as_str().to_string()
}

#[test]
fn source_file_header() {
    assert_eq!(
        header(vec![]),
        r#"// This file is generated automatically using wasmcloud-weld and smithy model definitions
//
#[allow(unused_imports)]
use wasmbus_rpc::{
    client, context, deserialize, serialize, MessageDispatch, RpcError,
    Transport, Message,
};
#[allow(unused_imports)] use async_trait::async_trait;
#[allow(unused_imports)] use serde::{Deserialize, Serialize};
#[allow(unused_imports)] use std::borrow::Cow;

pub const SMITHY_VERSION : &str = "1.0";

"#
    );
}

#[test]
fn header_imports_itself_with_crate() {
    let param = |value: Value| header(vec![("crate".to_string(), value)]);
    assert!(param(text("wasmbus_rpc")).contains("\nuse crate::{\n"));
    assert!(param(text("other")).contains("\nuse wasmbus_rpc::{\n"));
    assert!(param(Value::Boolean(true)).contains("\nuse wasmbus_rpc::{\n"));
    let other = vec![("crates".to_string(), text("wasmbus_rpc"))];
    assert!(header(other).contains("\nuse wasmbus_rpc::{\n"));
}

#[test]
fn rust_sources() {
    assert!(is_rust_source("lib.rs"));
    assert!(is_rust_source("src/lib.rs"));
    assert!(is_rust_source("\u{e9}.rs"));
    assert!(is_rust_source(".rs"));
    assert!(!is_rust_source(""));
    assert!(!is_rust_source("rs"));
    assert!(!is_rust_source("lib.rs/"));
    assert!(!is_rust_source("lib.rss"));
    assert!(!is_rust_source("lib.RS"));
    assert!(!is_rust_source("Cargo.toml"));
}

#[test]
fn format_picks_rust_sources() {
    let generator = RustCodeGen::default();
    let files: Vec<String> =
        ["a.rs", "b.txt", "c.rs", "d.rs.bak", "a.rs"].iter().map(|f| f.to_string()).collect();
    assert_eq!(generator.format(&files), vec![0, 2, 4]);
    assert_eq!(generator.format(&vec![]), Vec::<usize>::new());
    assert_eq!(generator.format(&vec!["x".to_string()]), Vec::<usize>::new());
}

#[test]
fn file_extension() {
    let extension = RustCodeGen::default().get_file_extension();
    assert_eq!(extension, "rs");
    assert!(is_rust_source(&format!("name.{}", extension)));
}

#[test]
fn templates() {
    let names = RustCodeGen::template_names();
    assert_eq!(names.len(), 9);
    assert_eq!(names[0], "rust.actor.manifest.yaml");
    assert_eq!(names[8], "rust.Makefile");
}

#[test]
fn init_file_limits_to_a_namespace() {
    let mut generator = RustCodeGen::default();
    assert_eq!(declared(&generator), "pub type A = Vec<u8>;\n\npub type B = Vec<u8>;\n\n");
    assert!(generator.init_file(&Some("com.a".to_string())).is_ok());
    assert_eq!(declared(&generator), "pub type A = Vec<u8>;\n\n");
    assert!(generator.init_file(&Some("COM.B".to_string())).is_ok());
    assert_eq!(declared(&generator), "pub type B = Vec<u8>;\n\n");
    assert!(generator.init_file(&None).is_ok());
    assert_eq!(declared(&generator), "pub type A = Vec<u8>;\n\npub type B = Vec<u8>;\n\n");
}

#[test]
fn init_file_accepts_namespaces() {
    for name in ["a", "aBc", "_aBc", "___aBc", "a1", "a_", "aBc.dEf", "aBc.dEf.gHi"] {
        let mut generator = RustCodeGen::default();
        assert!(generator.init_file(&Some(name.to_string())).is_ok());
    }
}

#[test]
fn init_file_rejects_other_texts() {
    for name in ["", "_", "1a", "_1", "a!", ".aBc", "aBc.", "a..b", "a b", "a\n", "\u{e9}"] {
        let mut generator = RustCodeGen::default();
        assert!(generator.init_file(&Some("com.a".to_string())).is_ok());
        match generator.init_file(&Some(name.to_string())) {
            Err(CodegenError::InvalidNamespace(text)) => assert_eq!(text, name),
            _ => panic!("accepted {:?}", name),
        }
        assert_eq!(declared(&generator), "pub type A = Vec<u8>;\n\n");
    }
}

#[test]
fn init_resets_the_namespace() {
    let mut generator = RustCodeGen::default();
    assert!(generator.init_file(&Some("com.a".to_string())).is_ok());
    let failed = generator.init(Err(CodegenError::Model("no template".to_string())));
    assert!(matches!(failed, Err(CodegenError::Model(reason)) if reason == "no template"));
    assert_eq!(declared(&generator), "pub type A = Vec<u8>;\n\n");
    assert!(generator.init(Ok(())).is_ok());
    assert_eq!(declared(&generator), "pub type A = Vec<u8>;\n\npub type B = Vec<u8>;\n\n");
}

#[test]
fn no_optional_types_by_default() {
    let support = TypeSupport::default();
    assert!(!support.timestamp && !support.big_integer && !support.big_decimal);
}
