//! What holds of the types that the output names.

use vstd::prelude::*;

use crate::codegen::TypeSupport;
use crate::emission::group_append;
use crate::error::ErrorView;
use crate::outside::{alike, ascii_lowercase};
use crate::smithy::{MemberShape, ShapeRef, Simple};
use crate::types::{
    field_type_emission, is_boxed, is_optional, is_plain_value, is_required, prelude_type,
    shape_emission, shape_type, simple_type, type_emission, Ty,
};

verus! {

/// A shape that neither the prelude nor the wasmCloud model declares is written
/// under its Rust name, whatever optional types there are.
pub proof fn law_declared_shape(shape: ShapeRef, support: TypeSupport)
    requires
        !alike(shape.id.namespace@, "smithy.api"@),
        !alike(shape.id.namespace@, "org.wasmcloud.model"@),
    ensures
        shape_type(shape, support) == Ok::<Seq<char>, ErrorView>(shape.rust_name@),
{
}

/// Which prelude shapes have a given Rust type: for each type, the names of all
/// the shapes that are written so. The optional types have no other use than
/// their own name, and every name that is left is refused.
pub proof fn law_prelude_shape(shape: ShapeRef, support: TypeSupport)
    requires
        alike(shape.id.namespace@, "smithy.api"@),
    ensures
        ({
            let name = shape.id.shape_name@;
            let ty = shape_type(shape, support);
            &&& (ty == Ok::<Seq<char>, ErrorView>("Vec<u8>"@) <==> name == "Blob"@ || name
                == "Document"@)
            &&& (ty == Ok::<Seq<char>, ErrorView>("bool"@) <==> name == "Boolean"@ || name
                == "PrimitiveBoolean"@)
            &&& (ty == Ok::<Seq<char>, ErrorView>("String"@) <==> name == "String"@)
            &&& (ty == Ok::<Seq<char>, ErrorView>("i8"@) <==> name == "Byte"@ || name
                == "PrimitiveByte"@)
            &&& (ty == Ok::<Seq<char>, ErrorView>("i16"@) <==> name == "Short"@ || name
                == "PrimitiveShort"@)
            &&& (ty == Ok::<Seq<char>, ErrorView>("i32"@) <==> name == "Integer"@ || name
                == "PrimitiveInteger"@)
            &&& (ty == Ok::<Seq<char>, ErrorView>("i64"@) <==> name == "Long"@ || name
                == "PrimitiveLong"@)
            &&& (ty == Ok::<Seq<char>, ErrorView>("float32"@) <==> name == "Float"@ || name
                == "PrimitiveFloat"@)
            &&& (ty == Ok::<Seq<char>, ErrorView>("float64"@) <==> name == "Double"@ || name
                == "PrimitiveDouble"@)
            &&& (ty == Ok::<Seq<char>, ErrorView>("Timestamp"@) <==> name == "Timestamp"@
                && support.timestamp)
            &&& (ty == Ok::<Seq<char>, ErrorView>("BigInteger"@) <==> name == "BigInteger"@
                && support.big_integer)
            &&& (ty == Ok::<Seq<char>, ErrorView>("BigDecimal"@) <==> name == "BigDecimal"@
                && support.big_decimal)
            &&& (ty == Err::<Seq<char>, ErrorView>(ErrorView::UnsupportedTimestamp) <==> name
                == "Timestamp"@ && !support.timestamp)
            &&& (ty == Err::<Seq<char>, ErrorView>(ErrorView::UnsupportedBigInteger) <==> name
                == "BigInteger"@ && !support.big_integer)
            &&& (ty == Err::<Seq<char>, ErrorView>(ErrorView::UnsupportedBigDecimal) <==> name
                == "BigDecimal"@ && !support.big_decimal)
            &&& match ty {
                Ok(text) => {
                    ||| text == "Vec<u8>"@
                    ||| text == "bool"@
                    ||| text == "String"@
                    ||| text == "i8"@
                    ||| text == "i16"@
                    ||| text == "i32"@
                    ||| text == "i64"@
                    ||| text == "float32"@
                    ||| text == "float64"@
                    ||| text == "Timestamp"@
                    ||| text == "BigInteger"@
                    ||| text == "BigDecimal"@
                },
                Err(error) => {
                    ||| error == ErrorView::UnsupportedTimestamp
                    ||| error == ErrorView::UnsupportedBigInteger
                    ||| error == ErrorView::UnsupportedBigDecimal
                    ||| error == ErrorView::UnsupportedType(name)
                },
            }
        }),
{
    lemma_prelude_names();
    lemma_output_names();
}


/// Enough of the types to tell them apart.
proof fn lemma_output_names()
    ensures
        "i8"@.len() == 2,
        "i16"@.len() == 3 && "i16"@[1] == '1',
        "i32"@.len() == 3 && "i32"@[1] == '3',
        "i64"@.len() == 3 && "i64"@[1] == '6',
        "bool"@.len() == 4,
        "Vec<u8>"@.len() == 7 && "Vec<u8>"@[5] == '8',
        "float32"@.len() == 7 && "float32"@[5] == '3',
        "float64"@.len() == 7 && "float64"@[5] == '6',
{
    reveal_strlit("i8");
    reveal_strlit("i16");
    reveal_strlit("i32");
    reveal_strlit("i64");
    reveal_strlit("bool");
    reveal_strlit("Vec<u8>");
    reveal_strlit("float32");
    reveal_strlit("float64");
}

/// Enough of the prelude names to tell them apart.
proof fn lemma_prelude_names()
    ensures
        "Blob"@.len() == 4 && "Blob"@[1] == 'l',
        "Byte"@.len() == 4 && "Byte"@[1] == 'y',
        "Long"@.len() == 4 && "Long"@[1] == 'o',
        "Short"@.len() == 5 && "Short"@[1] == 'h',
        "Float"@.len() == 5 && "Float"@[1] == 'l',
        "String"@.len() == 6 && "String"@[1] == 't',
        "Double"@.len() == 6 && "Double"@[1] == 'o',
        "Boolean"@.len() == 7 && "Boolean"@[1] == 'o',
        "Integer"@.len() == 7 && "Integer"@[1] == 'n',
        "Document"@.len() == 8,
        "Timestamp"@.len() == 9,
        "BigInteger"@.len() == 10 && "BigInteger"@[3] == 'I',
        "BigDecimal"@.len() == 10 && "BigDecimal"@[3] == 'D',
        "PrimitiveByte"@.len() == 13 && "PrimitiveByte"@[10] == 'y',
        "PrimitiveLong"@.len() == 13 && "PrimitiveLong"@[10] == 'o',
        "PrimitiveShort"@.len() == 14 && "PrimitiveShort"@[10] == 'h',
        "PrimitiveFloat"@.len() == 14 && "PrimitiveFloat"@[10] == 'l',
        "PrimitiveDouble"@.len() == 15,
        "PrimitiveBoolean"@.len() == 16 && "PrimitiveBoolean"@[10] == 'o',
        "PrimitiveInteger"@.len() == 16 && "PrimitiveInteger"@[10] == 'n',
{
    reveal_strlit("Blob");
    reveal_strlit("Byte");
    reveal_strlit("Long");
    reveal_strlit("Short");
    reveal_strlit("Float");
    reveal_strlit("String");
    reveal_strlit("Double");
    reveal_strlit("Boolean");
    reveal_strlit("Integer");
    reveal_strlit("Document");
    reveal_strlit("Timestamp");
    reveal_strlit("BigInteger");
    reveal_strlit("BigDecimal");
    reveal_strlit("PrimitiveByte");
    reveal_strlit("PrimitiveLong");
    reveal_strlit("PrimitiveShort");
    reveal_strlit("PrimitiveFloat");
    reveal_strlit("PrimitiveDouble");
    reveal_strlit("PrimitiveBoolean");
    reveal_strlit("PrimitiveInteger");
}

/// A shape of the wasmCloud model is written under its own name, in lower case
/// where it is an integer of fixed width.
pub proof fn law_wasmcloud_shape(shape: ShapeRef, support: TypeSupport)
    requires
        !alike(shape.id.namespace@, "smithy.api"@),
        alike(shape.id.namespace@, "org.wasmcloud.model"@),
    ensures
        ({
            let name = shape.id.shape_name@;
            let sized = {
                ||| name == "U64"@
                ||| name == "U32"@
                ||| name == "U16"@
                ||| name == "U8"@
                ||| name == "I64"@
                ||| name == "I32"@
                ||| name == "I16"@
                ||| name == "I8"@
            };
            shape_type(shape, support) == Ok::<Seq<char>, ErrorView>(
                if sized {
                    ascii_lowercase(name)
                } else {
                    name
                },
            )
        }),
{
    reveal_strlit("U64");
    reveal_strlit("U32");
    reveal_strlit("U16");
    reveal_strlit("U8");
    reveal_strlit("I64");
    reveal_strlit("I32");
    reveal_strlit("I16");
    reveal_strlit("I8");
    reveal_strlit("u64");
    reveal_strlit("u32");
    reveal_strlit("u16");
    reveal_strlit("u8");
    reveal_strlit("i64");
    reveal_strlit("i32");
    reveal_strlit("i16");
    reveal_strlit("i8");
    assert(ascii_lowercase("U64"@) =~= "u64"@);
    assert(ascii_lowercase("U32"@) =~= "u32"@);
    assert(ascii_lowercase("U16"@) =~= "u16"@);
    assert(ascii_lowercase("U8"@) =~= "u8"@);
    assert(ascii_lowercase("I64"@) =~= "i64"@);
    assert(ascii_lowercase("I32"@) =~= "i32"@);
    assert(ascii_lowercase("I16"@) =~= "i16"@);
    assert(ascii_lowercase("I8"@) =~= "i8"@);
}

/// What is written for a shape is its Rust type and nothing else; where it has
/// none, nothing is written and its error is the outcome.
pub proof fn law_shape_written(shape: ShapeRef, support: TypeSupport)
    ensures
        match shape_type(shape, support) {
            Ok(text) => {
                &&& shape_emission(shape, support).error is None
                &&& shape_emission(shape, support).text == text
            },
            Err(error) => {
                &&& shape_emission(shape, support).error == Some(error)
                &&& shape_emission(shape, support).text.len() == 0
            },
        },
{
}

/// A modifier goes around the type of the shape and changes nothing in it:
/// `Option<` and `>` on both sides, or `&` in front. It fails exactly where the
/// plain type does.
pub proof fn law_modifiers(shape: ShapeRef, support: TypeSupport)
    ensures
        ({
            let plain = shape_emission(shape, support);
            let option = type_emission(Ty::Opt(&shape), support);
            let reference = type_emission(Ty::Ref(&shape), support);
            &&& type_emission(Ty::Shape(&shape), support) == plain
            &&& option.error == plain.error
            &&& reference.error == plain.error
            &&& plain.error is None ==> option.text == "Option<"@ + plain.text + ">"@
            &&& plain.error is Some ==> option.text == "Option<"@
            &&& plain.error is None ==> reference.text == "&"@ + plain.text
            &&& plain.error is Some ==> reference.text == "&"@
        }),
{
    broadcast use group_append;

}

/// A simple shape is declared as the type that the prelude's shape of its name
/// has, but for the two floating-point shapes.
pub proof fn law_simple_shape(simple: Simple, support: TypeSupport)
    ensures
        match simple {
            Simple::Blob => simple_type(simple, support) == prelude_type("Blob"@, support),
            Simple::Boolean => simple_type(simple, support) == prelude_type("Boolean"@, support),
            Simple::Document => simple_type(simple, support) == prelude_type("Document"@, support),
            Simple::Text => simple_type(simple, support) == prelude_type("String"@, support),
            Simple::Byte => simple_type(simple, support) == prelude_type("Byte"@, support),
            Simple::Short => simple_type(simple, support) == prelude_type("Short"@, support),
            Simple::Integer => simple_type(simple, support) == prelude_type("Integer"@, support),
            Simple::Long => simple_type(simple, support) == prelude_type("Long"@, support),
            Simple::Float => simple_type(simple, support) == Ok::<Seq<char>, ErrorView>("f32"@),
            Simple::Double => simple_type(simple, support) == Ok::<Seq<char>, ErrorView>("f64"@),
            Simple::BigInteger => simple_type(simple, support) == prelude_type(
                "BigInteger"@,
                support,
            ),
            Simple::BigDecimal => simple_type(simple, support) == prelude_type(
                "BigDecimal"@,
                support,
            ),
            Simple::Timestamp => simple_type(simple, support) == prelude_type(
                "Timestamp"@,
                support,
            ),
        },
{
    lemma_prelude_names();
}

/// The type of a prelude shape does not depend on how its namespace is spelled,
/// nor on the Rust name that it would have elsewhere.
pub proof fn law_prelude_by_name(a: ShapeRef, support: TypeSupport)
    requires
        alike(a.id.namespace@, "smithy.api"@),
    ensures
        shape_type(a, support) == prelude_type(a.id.shape_name@, support),
{
}

/// The plain values are the shapes that have a primitive counterpart in the
/// prelude, whatever optional types there are.
pub proof fn law_plain_values(name: Seq<char>, support: TypeSupport)
    ensures
        is_plain_value(name) <==> prelude_type("Primitive"@ + name, support) is Ok,
{
    let full = "Primitive"@ + name;
    lemma_prelude_names();
    reveal_strlit("Primitive");
    reveal_strlit("Boolean");
    reveal_strlit("Byte");
    reveal_strlit("Short");
    reveal_strlit("Integer");
    reveal_strlit("Long");
    reveal_strlit("Float");
    reveal_strlit("Double");
    reveal_strlit("PrimitiveBoolean");
    reveal_strlit("PrimitiveByte");
    reveal_strlit("PrimitiveShort");
    reveal_strlit("PrimitiveInteger");
    reveal_strlit("PrimitiveLong");
    reveal_strlit("PrimitiveFloat");
    reveal_strlit("PrimitiveDouble");
    reveal_strlit("Document");
    reveal_strlit("Timestamp");
    reveal_strlit("BigInteger");
    reveal_strlit("BigDecimal");
    assert("Primitive"@ + "Boolean"@ =~= "PrimitiveBoolean"@);
    assert("Primitive"@ + "Byte"@ =~= "PrimitiveByte"@);
    assert("Primitive"@ + "Short"@ =~= "PrimitiveShort"@);
    assert("Primitive"@ + "Integer"@ =~= "PrimitiveInteger"@);
    assert("Primitive"@ + "Long"@ =~= "PrimitiveLong"@);
    assert("Primitive"@ + "Float"@ =~= "PrimitiveFloat"@);
    assert("Primitive"@ + "Double"@ =~= "PrimitiveDouble"@);
    assert(full.skip(9) =~= name);
    assert("PrimitiveBoolean"@.skip(9) =~= "Boolean"@);
    assert("PrimitiveByte"@.skip(9) =~= "Byte"@);
    assert("PrimitiveShort"@.skip(9) =~= "Short"@);
    assert("PrimitiveInteger"@.skip(9) =~= "Integer"@);
    assert("PrimitiveLong"@.skip(9) =~= "Long"@);
    assert("PrimitiveFloat"@.skip(9) =~= "Float"@);
    assert("PrimitiveDouble"@.skip(9) =~= "Double"@);
    assert(full.len() >= 9);
    assert(full[0] == 'P');
    assert("BigInteger"@[0] == 'B');
    assert("BigDecimal"@[0] == 'B');
    assert("Timestamp"@[0] == 'T');
}

/// The plain values by name.
pub proof fn law_plain_value_names(name: Seq<char>)
    ensures
        is_plain_value(name) <==> seq![
            "Boolean"@,
            "Byte"@,
            "Short"@,
            "Integer"@,
            "Long"@,
            "Float"@,
            "Double"@,
        ].contains(name),
{
    let names = seq![
        "Boolean"@,
        "Byte"@,
        "Short"@,
        "Integer"@,
        "Long"@,
        "Float"@,
        "Double"@,
    ];
    assert(names[0] == "Boolean"@);
    assert(names[1] == "Byte"@);
    assert(names[2] == "Short"@);
    assert(names[3] == "Integer"@);
    assert(names[4] == "Long"@);
    assert(names[5] == "Float"@);
    assert(names[6] == "Double"@);
}

/// A member is boxed, or required, exactly where it carries the prelude's trait
/// of that name.
pub proof fn law_marks(field: MemberShape)
    ensures
        is_boxed(field) <==> exists|i: int|
            0 <= i < field.traits.applied@.len() && (
            #[trigger] field.traits.applied@[i]).id.is_exactly("smithy.api"@, "box"@),
        is_required(field) <==> exists|i: int|
            0 <= i < field.traits.applied@.len() && (
            #[trigger] field.traits.applied@[i]).id.is_exactly("smithy.api"@, "required"@),
{
    super::model::law_trait_applied(field.traits, "smithy.api"@, "box"@);
    super::model::law_trait_applied(field.traits, "smithy.api"@, "required"@);
}

/// A boxed field is wrapped in `Option`, also where it is required. Of the
/// others, exactly those are wrapped that are neither required nor plain values.
pub proof fn law_optional(field: MemberShape)
    ensures
        is_boxed(field) ==> is_optional(field),
        !is_boxed(field) ==> (is_optional(field) <==> !is_required(field) && !is_plain_value(
            field.target.id.shape_name@,
        )),
{
}

/// The type of a field is that of its target, inside `Option<` and `>` exactly
/// where the field is optional.
pub proof fn law_field_type(field: MemberShape, support: TypeSupport)
    ensures
        ({
            let target = shape_emission(field.target, support);
            let written = field_type_emission(field, support);
            &&& written.error == target.error
            &&& target.error is None && is_optional(field) ==> written.text == "Option<"@
                + target.text + ">"@
            &&& target.error is None && !is_optional(field) ==> written.text == target.text
            &&& target.error is Some && is_optional(field) ==> written.text == "Option<"@
            &&& target.error is Some && !is_optional(field) ==> written.text.len() == 0
        }),
{
    law_modifiers(field.target, support);
    law_shape_written(field.target, support);
}

} // verus!
