use weldgen::codegen::{RustCodeGen, TypeSupport};
use weldgen::error::CodegenError;
use weldgen::smithy::{
    is_opt_namespace, AppliedTrait, AppliedTraits, MemberShape, ShapeId, ShapeRef,
};
use weldgen::text::Writer;
use weldgen::types::{is_optional_type, Ty};

fn id(namespace: &str, name: &str) -> ShapeId {
    ShapeId {
        namespace: namespace.to_string(),
        shape_name: name.to_string(),
        member_name: None,
    }
}

fn shape(namespace: &str, name: &str) -> ShapeRef {
    ShapeRef { id: id(namespace, name), rust_name: format!("Rust{}", name) }
}

fn field(target: ShapeRef, marks: &[&str]) -> MemberShape {
    MemberShape {
        name: "field".to_string(),
        field_name: Ok("field".to_string()),
        target,
        traits: AppliedTraits {
            applied: marks
                .iter()
                .map(|name| AppliedTrait { id: id("smithy.api", name), value: None })
                .collect(),
            codegen_rust: Ok(None),
            serialization: Ok(None),
            wasmbus: Ok(None),
        },
    }
}

fn written(generator: &RustCodeGen, ty: Ty<'_>) -> String {
    let mut w = Writer::new();
    assert!(generator.write_type(&mut w, ty).is_ok());
    w.as_str().to_string()
}

fn all_types() -> RustCodeGen {
    RustCodeGen::with_support(TypeSupport {
        timestamp: true,
        big_integer: true,
        big_decimal: true,
    })
}

#[test]
fn prelude_types() {
    let generator = RustCodeGen::default();
    let expected = [
        ("Blob", "Vec<u8>"),
        ("Boolean", "bool"),
        ("PrimitiveBoolean", "bool"),
        ("String", "String"),
        ("Byte", "i8"),
        ("PrimitiveByte", "i8"),
        ("Short", "i16"),
        ("PrimitiveShort", "i16"),
        ("Integer", "i32"),
        ("PrimitiveInteger", "i32"),
        ("Long", "i64"),
        ("PrimitiveLong", "i64"),
        ("Float", "float32"),
        ("PrimitiveFloat", "float32"),
        ("Double", "float64"),
        ("PrimitiveDouble", "float64"),
        ("Document", "Vec<u8>"),
    ];
    for (name, ty) in expected {
        assert_eq!(written(&generator, Ty::Shape(&shape("smithy.api", name))), ty);
    }
}

#[test]
fn optional_prelude_types() {
    let without = RustCodeGen::default();
    let mut w = Writer::new();
    let timestamp = shape("smithy.api", "Timestamp");
    let integer = shape("smithy.api", "BigInteger");
    let decimal = shape("smithy.api", "BigDecimal");
    assert!(matches!(
        without.write_type(&mut w, Ty::Shape(&timestamp)),
        Err(CodegenError::UnsupportedTimestamp)
    ));
    assert!(matches!(
        without.write_type(&mut w, Ty::Shape(&integer)),
        Err(CodegenError::UnsupportedBigInteger)
    ));
    assert!(matches!(
        without.write_type(&mut w, Ty::Shape(&decimal)),
        Err(CodegenError::UnsupportedBigDecimal)
    ));
    assert_eq!(w.as_str(), "");
    let with = all_types();
    assert_eq!(written(&with, Ty::Shape(&timestamp)), "Timestamp");
    assert_eq!(written(&with, Ty::Shape(&integer)), "BigInteger");
    assert_eq!(written(&with, Ty::Shape(&decimal)), "BigDecimal");
}

#[test]
fn unknown_prelude_types() {
    for name in ["Other", "blob", ""] {
        let mut w = Writer::new();
        match all_types().write_type(&mut w, Ty::Shape(&shape("smithy.api", name))) {
            Err(CodegenError::UnsupportedType(unknown)) => assert_eq!(unknown, name),
            _ => panic!("{:?} has a type", name),
        }
        assert_eq!(w.as_str(), "");
    }
}

#[test]
fn namespaces_in_any_case() {
    let generator = RustCodeGen::default();
    assert_eq!(written(&generator, Ty::Shape(&shape("Smithy.API", "Blob"))), "Vec<u8>");
    assert_eq!(written(&generator, Ty::Shape(&shape("ORG.wasmcloud.model", "U8"))), "u8");
}

#[test]
fn wasmcloud_types() {
    let generator = RustCodeGen::default();
    let expected = [
        ("U64", "u64"),
        ("U32", "u32"),
        ("U16", "u16"),
        ("U8", "u8"),
        ("I64", "i64"),
        ("I32", "i32"),
        ("I16", "i16"),
        ("I8", "i8"),
        ("ActorLinks", "ActorLinks"),
        ("u8", "u8"),
        ("U128", "U128"),
    ];
    for (name, ty) in expected {
        assert_eq!(written(&generator, Ty::Shape(&shape("org.wasmcloud.model", name))), ty);
    }
}

#[test]
fn other_types_go_by_their_rust_name() {
    let generator = RustCodeGen::default();
    assert_eq!(written(&generator, Ty::Shape(&shape("com.example", "Blob"))), "RustBlob");
}

#[test]
fn type_modifiers() {
    let generator = RustCodeGen::default();
    let text = shape("smithy.api", "String");
    assert_eq!(written(&generator, Ty::Opt(&text)), "Option<String>");
    assert_eq!(written(&generator, Ty::Ref(&text)), "&String");
    let other = shape("com.example", "Game");
    assert_eq!(written(&generator, Ty::Opt(&other)), "Option<RustGame>");
    assert_eq!(written(&generator, Ty::Ref(&other)), "&RustGame");
}

#[test]
fn a_failed_type_leaves_its_modifier() {
    let generator = RustCodeGen::default();
    let mut w = Writer::new();
    w.write("before ");
    let outcome = generator.write_type(&mut w, Ty::Opt(&shape("smithy.api", "Timestamp")));
    assert!(outcome.is_err());
    assert_eq!(w.as_str(), "before Option<");
}

#[test]
fn suffixes() {
    let mut w = Writer::new();
    let game = ShapeRef { id: id("com.example", "game"), rust_name: "Game".to_string() };
    assert!(RustCodeGen::default().write_ident_with_suffix(&mut w, &game, "Context").is_ok());
    assert_eq!(w.as_str(), "GameContext");
}

#[test]
fn optional_fields() {
    let plain = ["Boolean", "Byte", "Short", "Integer", "Long", "Float", "Double"];
    for name in plain {
        let target = || shape("smithy.api", name);
        assert!(!is_optional_type(&field(target(), &[])));
        assert!(is_optional_type(&field(target(), &["box"])));
        assert!(!is_optional_type(&field(target(), &["required"])));
    }
    for name in ["String", "Blob", "PrimitiveInteger", "boolean"] {
        let target = || shape("smithy.api", name);
        assert!(is_optional_type(&field(target(), &[])));
        assert!(is_optional_type(&field(target(), &["box"])));
        assert!(!is_optional_type(&field(target(), &["required"])));
    }
    assert!(!is_optional_type(&field(shape("com.example", "Integer"), &[])));
    assert!(is_optional_type(&field(shape("smithy.api", "String"), &["required", "box"])));
}

#[test]
fn field_types() {
    let generator = RustCodeGen::default();
    let write = |member: MemberShape| {
        let mut w = Writer::new();
        assert!(generator.write_field_type(&mut w, &member).is_ok());
        w.as_str().to_string()
    };
    assert_eq!(write(field(shape("smithy.api", "String"), &[])), "Option<String>");
    assert_eq!(write(field(shape("smithy.api", "String"), &["required"])), "String");
    assert_eq!(write(field(shape("smithy.api", "Integer"), &[])), "i32");
    assert_eq!(write(field(shape("smithy.api", "Integer"), &["box"])), "Option<i32>");
}

#[test]
fn namespaces_beyond_ascii() {
    let kelvin = id("\u{212a}", "X");
    assert!(is_opt_namespace(&kelvin, &Some("k".to_string())));
    assert!(!is_opt_namespace(&kelvin, &Some("c".to_string())));
    assert!(is_opt_namespace(&kelvin, &None));
}

#[test]
fn same_shapes() {
    let a = id("com.example", "Thing");
    let mut b = id("COM.Example", "thing");
    assert!(a.is_same(&b));
    b.member_name = Some("m".to_string());
    assert!(!a.is_same(&b));
    let mut c = id("com.example", "Thing");
    c.member_name = Some("M".to_string());
    assert!(b.is_same(&c));
    assert!(!a.is_same(&id("com.example", "Other")));
    assert!(!a.is_same(&id("com.other", "Thing")));
}

#[test]
fn order_of_shapes() {
    let member = |name: &str| ShapeId {
        namespace: "b".to_string(),
        shape_name: "S".to_string(),
        member_name: Some(name.to_string()),
    };
    let ordered = [id("B", "Z"), id("a", "Z"), id("b", "S"), member("m"), member("n"), id("b", "T")];
    for (i, x) in ordered.iter().enumerate() {
        for (j, y) in ordered.iter().enumerate() {
            assert_eq!(x.is_before(y), i < j);
        }
    }
}
