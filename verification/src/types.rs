//! How a shape is written as a Rust type.

use vstd::prelude::*;

use crate::codegen::{prelude_namespace, RustCodeGen, TypeSupport};
use crate::emission::{group_append, Emission};
use crate::error::{CodegenError, ErrorView};
use crate::outside::{alike, same_namespace, same_text};
use crate::smithy::{MemberShape, ShapeRef, Simple};
use crate::text::Writer;

verus! {

broadcast use group_append;

/// Modifiers on data type
pub enum Ty<'typ> {
    /// write a plain shape declaration
    Shape(&'typ ShapeRef),
    /// write a type wrapped in Option<>
    Opt(&'typ ShapeRef),
    /// write a reference type: preceeded by &
    Ref(&'typ ShapeRef),
}

// ---------------------------------------------------------------------------
// What the output says

/// The namespace of the shapes that the wasmCloud model adds to the prelude.
pub open spec fn wasmcloud_model_namespace() -> Seq<char> {
    "org.wasmcloud.model"@
}

/// A type that needs support: its name where it is supported, else the error.
pub open spec fn supported(support: bool, name: Seq<char>, error: ErrorView) -> Result<
    Seq<char>,
    ErrorView,
> {
    if support {
        Ok(name)
    } else {
        Err(error)
    }
}

/// The Rust type of a prelude shape.
pub open spec fn prelude_type(name: Seq<char>, support: TypeSupport) -> Result<
    Seq<char>,
    ErrorView,
> {
    if name == "Blob"@ {
        Ok("Vec<u8>"@)
    } else if name == "Boolean"@ || name == "PrimitiveBoolean"@ {
        Ok("bool"@)
    } else if name == "String"@ {
        Ok("String"@)
    } else if name == "Byte"@ || name == "PrimitiveByte"@ {
        Ok("i8"@)
    } else if name == "Short"@ || name == "PrimitiveShort"@ {
        Ok("i16"@)
    } else if name == "Integer"@ || name == "PrimitiveInteger"@ {
        Ok("i32"@)
    } else if name == "Long"@ || name == "PrimitiveLong"@ {
        Ok("i64"@)
    } else if name == "Float"@ || name == "PrimitiveFloat"@ {
        Ok("float32"@)
    } else if name == "Double"@ || name == "PrimitiveDouble"@ {
        Ok("float64"@)
    } else if name == "Document"@ {
        Ok("Vec<u8>"@)
    } else if name == "Timestamp"@ {
        supported(support.timestamp, "Timestamp"@, ErrorView::UnsupportedTimestamp)
    } else if name == "BigInteger"@ {
        supported(support.big_integer, "BigInteger"@, ErrorView::UnsupportedBigInteger)
    } else if name == "BigDecimal"@ {
        supported(support.big_decimal, "BigDecimal"@, ErrorView::UnsupportedBigDecimal)
    } else {
        Err(ErrorView::UnsupportedType(name))
    }
}

/// The Rust type of a shape of the wasmCloud model: the integers of fixed
/// width, and every other shape under its own name.
pub open spec fn wasmcloud_type(name: Seq<char>) -> Seq<char> {
    if name == "U64"@ {
        "u64"@
    } else if name == "U32"@ {
        "u32"@
    } else if name == "U8"@ {
        "u8"@
    } else if name == "I64"@ {
        "i64"@
    } else if name == "I32"@ {
        "i32"@
    } else if name == "I8"@ {
        "i8"@
    } else if name == "U16"@ {
        "u16"@
    } else if name == "I16"@ {
        "i16"@
    } else {
        name
    }
}

/// The Rust type of a shape.
pub open spec fn shape_type(shape: ShapeRef, support: TypeSupport) -> Result<
    Seq<char>,
    ErrorView,
> {
    if alike(shape.id.namespace@, prelude_namespace()) {
        prelude_type(shape.id.shape_name@, support)
    } else if alike(shape.id.namespace@, wasmcloud_model_namespace()) {
        Ok(wasmcloud_type(shape.id.shape_name@))
    } else {
        Ok(shape.rust_name@)
    }
}

/// Writing the type of a shape, without modifiers.
pub open spec fn shape_emission(shape: ShapeRef, support: TypeSupport) -> Emission {
    match shape_type(shape, support) {
        Ok(text) => Emission::text(text),
        Err(error) => Emission::fail(error),
    }
}

/// Writing a type with its modifier.
pub open spec fn type_emission(ty: Ty, support: TypeSupport) -> Emission {
    match ty {
        Ty::Opt(shape) => Emission::text("Option<"@).followed_by(
            shape_emission(*shape, support),
        ).say(">"@),
        Ty::Ref(shape) => Emission::text("&"@).followed_by(shape_emission(*shape, support)),
        Ty::Shape(shape) => shape_emission(*shape, support),
    }
}

/// The Rust type of a simple shape.
pub open spec fn simple_type(simple: Simple, support: TypeSupport) -> Result<
    Seq<char>,
    ErrorView,
> {
    match simple {
        Simple::Blob => Ok("Vec<u8>"@),
        Simple::Boolean => Ok("bool"@),
        Simple::Text => Ok("String"@),
        Simple::Byte => Ok("i8"@),
        Simple::Short => Ok("i16"@),
        Simple::Integer => Ok("i32"@),
        Simple::Long => Ok("i64"@),
        Simple::Float => Ok("f32"@),
        Simple::Double => Ok("f64"@),
        Simple::Document => Ok("Vec<u8>"@),
        Simple::Timestamp => supported(
            support.timestamp,
            "Timestamp"@,
            ErrorView::UnsupportedTimestamp,
        ),
        Simple::BigInteger => supported(
            support.big_integer,
            "BigInteger"@,
            ErrorView::UnsupportedBigInteger,
        ),
        Simple::BigDecimal => supported(
            support.big_decimal,
            "BigDecimal"@,
            ErrorView::UnsupportedBigDecimal,
        ),
    }
}

/// The names of the shapes that have a value without being given one.
pub open spec fn is_plain_value(name: Seq<char>) -> bool {
    ||| name == "Boolean"@
    ||| name == "Byte"@
    ||| name == "Short"@
    ||| name == "Integer"@
    ||| name == "Long"@
    ||| name == "Float"@
    ||| name == "Double"@
}

/// A member carries the `box` trait.
pub open spec fn is_boxed(field: MemberShape) -> bool {
    field.traits.has(prelude_namespace(), "box"@)
}

/// A member carries the `required` trait.
pub open spec fn is_required(field: MemberShape) -> bool {
    field.traits.has(prelude_namespace(), "required"@)
}

/// The field is wrapped in Option<>: it has an explicit `box` trait, or it is
/// un-annotated and not one of (boolean, byte, short, integer, long, float, double).
pub open spec fn is_optional(field: MemberShape) -> bool {
    is_boxed(field) || (!is_required(field) && !is_plain_value(field.target.id.shape_name@))
}

/// Writing the type of a field.
pub open spec fn field_type_emission(field: MemberShape, support: TypeSupport) -> Emission {
    if is_optional(field) {
        type_emission(Ty::Opt(&field.target), support)
    } else {
        type_emission(Ty::Shape(&field.target), support)
    }
}

// ---------------------------------------------------------------------------
// Writing it

/// The Rust type of a prelude shape.
fn prelude_type_name(name: &String, support: TypeSupport) -> (ty: Result<
    &'static str,
    CodegenError,
>)
    ensures
        match ty {
            Ok(text) => prelude_type(name@, support) == Ok::<Seq<char>, ErrorView>(text@),
            Err(e) => prelude_type(name@, support) == Err::<Seq<char>, ErrorView>(e@),
        },
{
    let shape = name.as_str();
    if same_text(shape, "Blob") {
        Ok("Vec<u8>")
    } else if same_text(shape, "Boolean") || same_text(shape, "PrimitiveBoolean") {
        Ok("bool")
    } else if same_text(shape, "String") {
        Ok("String")
    } else if same_text(shape, "Byte") || same_text(shape, "PrimitiveByte") {
        Ok("i8")
    } else if same_text(shape, "Short") || same_text(shape, "PrimitiveShort") {
        Ok("i16")
    } else if same_text(shape, "Integer") || same_text(shape, "PrimitiveInteger") {
        Ok("i32")
    } else if same_text(shape, "Long") || same_text(shape, "PrimitiveLong") {
        Ok("i64")
    } else if same_text(shape, "Float") || same_text(shape, "PrimitiveFloat") {
        Ok("float32")
    } else if same_text(shape, "Double") || same_text(shape, "PrimitiveDouble") {
        Ok("float64")
    } else if same_text(shape, "Document") {
        // if declared as members (of a struct, list, or map), we don't have trait data here to write
        // as anything other than a blob. Instead, a type should be created for the Document that can have traits,
        // and that type used for the member. This should probably be a lint rule.
        Ok("Vec<u8>")
    } else if same_text(shape, "Timestamp") {
        if support.timestamp {
            Ok("Timestamp")
        } else {
            Err(CodegenError::UnsupportedTimestamp)
        }
    } else if same_text(shape, "BigInteger") {
        if support.big_integer {
            Ok("BigInteger")
        } else {
            Err(CodegenError::UnsupportedBigInteger)
        }
    } else if same_text(shape, "BigDecimal") {
        if support.big_decimal {
            Ok("BigDecimal")
        } else {
            Err(CodegenError::UnsupportedBigDecimal)
        }
    } else {
        Err(CodegenError::UnsupportedType(name.clone()))
    }
}

/// The Rust type of a shape of the wasmCloud model.
fn wasmcloud_type_name(name: &str) -> (ty: &str)
    ensures
        ty@ == wasmcloud_type(name@),
{
    if same_text(name, "U64") {
        "u64"
    } else if same_text(name, "U32") {
        "u32"
    } else if same_text(name, "U8") {
        "u8"
    } else if same_text(name, "I64") {
        "i64"
    } else if same_text(name, "I32") {
        "i32"
    } else if same_text(name, "I8") {
        "i8"
    } else if same_text(name, "U16") {
        "u16"
    } else if same_text(name, "I16") {
        "i16"
    } else {
        name
    }
}

/// The Rust type of a simple shape.
pub(crate) fn simple_type_name(simple: &Simple, support: TypeSupport) -> (ty: Result<
    &'static str,
    CodegenError,
>)
    ensures
        match ty {
            Ok(text) => simple_type(*simple, support) == Ok::<Seq<char>, ErrorView>(text@),
            Err(e) => simple_type(*simple, support) == Err::<Seq<char>, ErrorView>(e@),
        },
{
    match simple {
        Simple::Blob => Ok("Vec<u8>"),
        Simple::Boolean => Ok("bool"),
        Simple::Text => Ok("String"),
        Simple::Byte => Ok("i8"),
        Simple::Short => Ok("i16"),
        Simple::Integer => Ok("i32"),
        Simple::Long => Ok("i64"),
        Simple::Float => Ok("f32"),
        Simple::Double => Ok("f64"),
        // note: traits may modify this
        Simple::Document => Ok("Vec<u8>"),
        Simple::Timestamp => if support.timestamp {
            Ok("Timestamp")
        } else {
            Err(CodegenError::UnsupportedTimestamp)
        },
        Simple::BigInteger => if support.big_integer {
            Ok("BigInteger")
        } else {
            Err(CodegenError::UnsupportedBigInteger)
        },
        Simple::BigDecimal => if support.big_decimal {
            Ok("BigDecimal")
        } else {
            Err(CodegenError::UnsupportedBigDecimal)
        },
    }
}

/// is_optional_type determines whether the field should be wrapped in Option<>
/// the value is true if it has an explicit `box` trait, or if it's
/// un-annotated and not one of (boolean, byte, short, integer, long, float, double)
pub fn is_optional_type(field: &MemberShape) -> (optional: bool)
    ensures
        optional == is_optional(*field),
{
    let name = field.target.id.shape_name.as_str();
    field.traits.get("smithy.api", "box").is_some() || (field.traits.get(
        "smithy.api",
        "required",
    ).is_none() && !(same_text(name, "Boolean") || same_text(name, "Byte") || same_text(
        name,
        "Short",
    ) || same_text(name, "Integer") || same_text(name, "Long") || same_text(name, "Float")
        || same_text(name, "Double")))
}

impl RustCodeGen {
    /// Write a type name, a primitive or defined type, with or without deref('&') and with or without Option<>
    pub fn write_type(&self, w: &mut Writer, ty: Ty<'_>) -> (outcome: Result<(), CodegenError>)
        ensures
            type_emission(ty, self.types()).takes(old(w)@, final(w)@, outcome),
        decreases
                (match ty {
                    Ty::Shape(_) => 0nat,
                    _ => 1nat,
                }),
    {
        match ty {
            Ty::Opt(shape) => {
                w.write("Option<");
                match self.write_type(w, Ty::Shape(shape)) {
                    Ok(()) => {},
                    Err(e) => {
                        return Err(e);
                    },
                }
                w.write(">");
            },
            Ty::Ref(shape) => {
                w.write("&");
                match self.write_type(w, Ty::Shape(shape)) {
                    Ok(()) => {},
                    Err(e) => {
                        return Err(e);
                    },
                }
            },
            Ty::Shape(shape) => {
                if same_namespace(shape.id.namespace.as_str(), "smithy.api") {
                    match prelude_type_name(&shape.id.shape_name, self.type_support()) {
                        Ok(name) => {
                            w.write(name);
                        },
                        Err(e) => {
                            return Err(e);
                        },
                    }
                } else if same_namespace(shape.id.namespace.as_str(), "org.wasmcloud.model") {
                    w.write(wasmcloud_type_name(shape.id.shape_name.as_str()));
                } else {
                    w.write(shape.rust_name.as_str());
                }
            },
        }
        Ok(())
    }

    /// append suffix to type name, for example "Game", "Context" -> "GameContext"
    pub fn write_ident_with_suffix(&self, w: &mut Writer, id: &ShapeRef, suffix: &str) -> (outcome:
        Result<(), CodegenError>)
        ensures
            final(w)@ == old(w)@ + (id.rust_name@ + suffix@),
            outcome is Ok,
    {
        self.write_ident(w, id);
        w.write(suffix);
        Ok(())
    }

    /// Writes the name of a shape.
    pub fn write_ident(&self, w: &mut Writer, id: &ShapeRef)
        ensures
            final(w)@ == old(w)@ + id.rust_name@,
    {
        w.write(id.rust_name.as_str());
    }

    /// write field type, wrapping with Option where the field is optional
    pub fn write_field_type(&self, w: &mut Writer, field: &MemberShape) -> (outcome: Result<
        (),
        CodegenError,
    >)
        ensures
            field_type_emission(*field, self.types()).takes(old(w)@, final(w)@, outcome),
    {
        self.write_type(
            w,
            if is_optional_type(field) {
                Ty::Opt(&field.target)
            } else {
                Ty::Shape(&field.target)
            },
        )
    }
}

} // verus!
