//! What holds of the declarations of types.

use vstd::prelude::*;

use crate::codegen::{documentation_traits_text, TypeSupport};
use crate::declare::{
    declaration, declarations, field_declaration, field_step, list_or_set_declaration,
    map_declaration, simple_declaration, structure_declaration,
};
use crate::emission::{group_append, Emission};
use crate::error::ErrorView;
use crate::order::{is_ordered, order_by_id, shapes_in_scope};
use crate::outside::alike;
use crate::smithy::{in_scope, AppliedTraits, MemberShape, Shape, ShapeKind, ShapeRef, Simple};
use crate::types::{is_optional, is_required, shape_emission, shape_type, simple_type};

verus! {

// ---------------------------------------------------------------------------
// Aliases

/// A simple shape is declared as an alias of its Rust type; where it has none,
/// the alias is left open and the error is the outcome.
pub proof fn law_simple_declaration(
    id: ShapeRef,
    traits: AppliedTraits,
    simple: Simple,
    support: TypeSupport,
)
    ensures
        ({
            let written = simple_declaration(id, traits, simple, support);
            let head = documentation_traits_text(traits) + "pub type "@ + id.rust_name@ + " = "@;
            match simple_type(simple, support) {
                Ok(ty) => written.error is None && written.text == head + ty + ";\n\n"@,
                Err(error) => written.error == Some(error) && written.text == head,
            }
        }),
{
    broadcast use group_append;

}

/// A map is declared as an alias of `HashMap<k,v>`, where `k` is the Rust type of
/// its key and `v` that of its value. It fails exactly where one of them has
/// none, and then with the error of the first that has none.
pub proof fn law_map_declaration(
    id: ShapeRef,
    traits: AppliedTraits,
    key: ShapeRef,
    value: ShapeRef,
    support: TypeSupport,
)
    ensures
        ({
            let written = map_declaration(id, traits, key, value, support);
            let head = documentation_traits_text(traits) + "pub type "@ + id.rust_name@ + " = "@
                + "std::collections::HashMap"@ + "<"@;
            match (shape_type(key, support), shape_type(value, support)) {
                (Ok(k), Ok(v)) => written.error is None && written.text == head + k + ","@ + v
                    + ">;\n\n"@,
                (Ok(k), Err(error)) => written.error == Some(error) && written.text == head + k
                    + ","@,
                (Err(error), _) => written.error == Some(error) && written.text == head,
            }
        }),
{
    broadcast use group_append;

}

/// Maps with keys of different Rust types have different declarations, and so
/// have maps with values of different Rust types.
pub proof fn law_maps_differ(
    id: ShapeRef,
    traits: AppliedTraits,
    key: ShapeRef,
    other_key: ShapeRef,
    value: ShapeRef,
    other_value: ShapeRef,
    support: TypeSupport,
)
    requires
        shape_type(key, support) is Ok,
        shape_type(other_key, support) is Ok,
        shape_type(value, support) is Ok,
        shape_type(other_value, support) is Ok,
    ensures
        shape_type(key, support) != shape_type(other_key, support) ==> map_declaration(
            id,
            traits,
            key,
            value,
            support,
        ).text != map_declaration(id, traits, other_key, value, support).text,
        shape_type(value, support) != shape_type(other_value, support) ==> map_declaration(
            id,
            traits,
            key,
            value,
            support,
        ).text != map_declaration(id, traits, key, other_value, support).text,
{
    let head = documentation_traits_text(traits) + "pub type "@ + id.rust_name@ + " = "@
        + "std::collections::HashMap"@ + "<"@;
    let k = shape_type(key, support)->Ok_0;
    let l = shape_type(other_key, support)->Ok_0;
    let v = shape_type(value, support)->Ok_0;
    let u = shape_type(other_value, support)->Ok_0;
    let close = ">;\n\n"@;
    law_map_declaration(id, traits, key, value, support);
    law_map_declaration(id, traits, other_key, value, support);
    law_map_declaration(id, traits, key, other_value, support);
    super::lemma_between(head + k + ","@, v, u, close);
    super::lemma_between(head, k, l, ","@ + v + close);
    assert(head + k + ","@ + v + close =~= head + k + (","@ + v + close));
    assert(head + l + ","@ + v + close =~= head + l + (","@ + v + close));
}

/// A list or a set is declared as an alias of its container of `t`, where `t` is
/// the Rust type of its member.
pub proof fn law_list_or_set_declaration(
    id: ShapeRef,
    traits: AppliedTraits,
    member: ShapeRef,
    container: Seq<char>,
    support: TypeSupport,
)
    ensures
        ({
            let written = list_or_set_declaration(id, traits, member, container, support);
            let head = documentation_traits_text(traits) + "pub type "@ + id.rust_name@ + " = "@
                + container + "<"@;
            match shape_type(member, support) {
                Ok(t) => written.error is None && written.text == head + t + ">;\n\n"@,
                Err(error) => written.error == Some(error) && written.text == head,
            }
        }),
{
    broadcast use group_append;

}

/// Lists, or sets, with members of different Rust types have different
/// declarations.
pub proof fn law_lists_differ(
    id: ShapeRef,
    traits: AppliedTraits,
    member: ShapeRef,
    other: ShapeRef,
    container: Seq<char>,
    support: TypeSupport,
)
    requires
        shape_type(member, support) is Ok,
        shape_type(other, support) is Ok,
        shape_type(member, support) != shape_type(other, support),
    ensures
        list_or_set_declaration(id, traits, member, container, support).text
            != list_or_set_declaration(id, traits, other, container, support).text,
{
    let head = documentation_traits_text(traits) + "pub type "@ + id.rust_name@ + " = "@ + container
        + "<"@;
    law_list_or_set_declaration(id, traits, member, container, support);
    law_list_or_set_declaration(id, traits, other, container, support);
    super::lemma_between(
        head,
        shape_type(member, support)->Ok_0,
        shape_type(other, support)->Ok_0,
        ">;\n\n"@,
    );
}

/// Each kind of type has its own declaration: lists are vectors, sets are ordered
/// sets. A shape that is not a type has none.
pub proof fn law_kinds(shape: Shape, support: TypeSupport)
    ensures
        match shape.body {
            ShapeKind::Simple(simple) => declaration(shape, support) == simple_declaration(
                shape.shape,
                shape.traits,
                simple,
                support,
            ),
            ShapeKind::ListOf(member) => declaration(shape, support) == list_or_set_declaration(
                shape.shape,
                shape.traits,
                member,
                "Vec"@,
                support,
            ),
            ShapeKind::SetOf(member) => declaration(shape, support) == list_or_set_declaration(
                shape.shape,
                shape.traits,
                member,
                "std::collections::BTreeSet"@,
                support,
            ),
            ShapeKind::MapOf { key, value } => declaration(shape, support) == map_declaration(
                shape.shape,
                shape.traits,
                key,
                value,
                support,
            ),
            ShapeKind::Structure(members) => declaration(shape, support) == structure_declaration(
                shape.shape,
                shape.traits,
                members@,
                support,
            ),
            _ => declaration(shape, support).error is None && declaration(
                shape,
                support,
            ).text.len() == 0,
        },
{
}

// ---------------------------------------------------------------------------
// Structures

/// A field that is declared has, in this order: what documents it; a rename to
/// its serialized name `ser` where that is not the field's own name; the bytes
/// serializer where it is a blob; a default where it may be absent; and its name
/// and its type. None of these depends on another.
pub proof fn law_field(
    member: MemberShape,
    is_trait: bool,
    support: TypeSupport,
    ser: Seq<char>,
    name: Seq<char>,
    ty: Seq<char>,
)
    requires
        field_declaration(member, is_trait, support).error is None,
        (member.traits.serialization matches Ok(Some(s)) && s.name is Some) ==> ser
            == member.traits.serialization->Ok_0->0.name->0@,
        !(member.traits.serialization matches Ok(Some(s)) && s.name is Some) ==> ser
            == member.name@,
        member.field_name matches Ok(field_name) && field_name@ == name,
        shape_type(member.target, support) == Ok::<Seq<char>, ErrorView>(ty),
    ensures
        field_declaration(member, is_trait, support).text == documentation_traits_text(
            member.traits,
        ) + (if ser == name {
            Seq::empty()
        } else {
            "  #[serde(rename=\""@ + ser + "\")] "@
        }) + (if alike(member.target.id.namespace@, "smithy.api"@) && alike(
            member.target.id.shape_name@,
            "Blob"@,
        ) && member.target.id.member_name is None {
            "  #[serde(with=\"serde_bytes\")] "@
        } else {
            Seq::empty()
        }) + (if is_optional(member) {
            "  #[serde(default, skip_serializing_if = \"Option::is_none\")]"@
        } else if is_trait && !is_required(member) {
            "  #[serde(default)]"@
        } else {
            Seq::empty()
        }) + "  pub "@ + name + ": "@ + (if is_optional(member) {
            "Option<"@ + ty + ">"@
        } else {
            ty
        }) + ",\n"@,
{
    broadcast use group_append;

    super::types::law_field_type(member, support);
    super::types::law_shape_written(member.target, support);
}

/// A field whose type cannot be had is written as far as its type, with the same
/// attributes as any other field.
pub proof fn law_field_open(
    member: MemberShape,
    is_trait: bool,
    support: TypeSupport,
    ser: Seq<char>,
    name: Seq<char>,
)
    requires
        member.traits.serialization is Ok,
        (member.traits.serialization matches Ok(Some(s)) && s.name is Some) ==> ser
            == member.traits.serialization->Ok_0->0.name->0@,
        !(member.traits.serialization matches Ok(Some(s)) && s.name is Some) ==> ser
            == member.name@,
        member.field_name matches Ok(field_name) && field_name@ == name,
        shape_type(member.target, support) is Err,
    ensures
        field_declaration(member, is_trait, support).text == documentation_traits_text(
            member.traits,
        ) + (if ser == name {
            Seq::empty()
        } else {
            "  #[serde(rename=\""@ + ser + "\")] "@
        }) + (if alike(member.target.id.namespace@, "smithy.api"@) && alike(
            member.target.id.shape_name@,
            "Blob"@,
        ) && member.target.id.member_name is None {
            "  #[serde(with=\"serde_bytes\")] "@
        } else {
            Seq::empty()
        }) + (if is_optional(member) {
            "  #[serde(default, skip_serializing_if = \"Option::is_none\")]"@
        } else if is_trait && !is_required(member) {
            "  #[serde(default)]"@
        } else {
            Seq::empty()
        }) + "  pub "@ + name + ": "@ + (if is_optional(member) {
            "Option<"@
        } else {
            Seq::empty()
        }),
{
    broadcast use group_append;

    super::types::law_field_type(member, support);
    super::types::law_shape_written(member.target, support);
}

/// A declared field is serialized under the member's serialized name: where the
/// field's own name is another, a rename to the serialized name is the first of
/// its attributes, whatever else holds of the field.
pub proof fn law_field_serialized_name(member: MemberShape, is_trait: bool, support: TypeSupport)
    requires
        field_declaration(member, is_trait, support).error is None,
    ensures
        ({
            let text = field_declaration(member, is_trait, support).text;
            let head = documentation_traits_text(member.traits) + "  #[serde(rename=\""@;
            let close = "\")] "@;
            match (member.traits.serialization, member.field_name) {
                (Ok(Some(s)), Ok(field)) if s.name is Some => s.name->0@ != field@ ==> (head
                    + s.name->0@ + close).is_prefix_of(text),
                (Ok(_), Ok(field)) => member.name@ != field@ ==> (head + member.name@
                    + close).is_prefix_of(text),
                _ => false,
            }
        }),
{
    broadcast use group_append;

    let ser = if member.traits.serialization matches Ok(Some(s)) && s.name is Some {
        member.traits.serialization->Ok_0->0.name->0@
    } else {
        member.name@
    };
    let name = member.field_name->Ok_0@;
    super::types::law_field_type(member, support);
    super::types::law_shape_written(member.target, support);
    let ty = shape_type(member.target, support)->Ok_0;
    law_field(member, is_trait, support, ser, name, ty);
    let head = documentation_traits_text(member.traits) + "  #[serde(rename=\""@ + ser
        + "\")] "@;
    let blob = if alike(member.target.id.namespace@, "smithy.api"@) && alike(
        member.target.id.shape_name@,
        "Blob"@,
    ) && member.target.id.member_name is None {
        "  #[serde(with=\"serde_bytes\")] "@
    } else {
        Seq::empty()
    };
    let absent = if is_optional(member) {
        "  #[serde(default, skip_serializing_if = \"Option::is_none\")]"@
    } else if is_trait && !is_required(member) {
        "  #[serde(default)]"@
    } else {
        Seq::empty()
    };
    let shown = if is_optional(member) {
        "Option<"@ + ty + ">"@
    } else {
        ty
    };
    super::lemma_prefix(head, blob + absent + "  pub "@ + name + ": "@ + shown + ",\n"@);
}

/// A declared field is skipped when it is absent exactly where its type is an
/// `Option`, and then it has a default too. A field of a trait that is neither
/// required nor an `Option` has a default. The name and the type are the last of
/// the field; `front` is what stands in front of all this.
pub proof fn law_field_absent(
    member: MemberShape,
    is_trait: bool,
    support: TypeSupport,
    name: Seq<char>,
    ty: Seq<char>,
) -> (front: Seq<char>)
    requires
        field_declaration(member, is_trait, support).error is None,
        member.field_name matches Ok(field_name) && field_name@ == name,
        shape_type(member.target, support) == Ok::<Seq<char>, ErrorView>(ty),
    ensures
        ({
            let text = field_declaration(member, is_trait, support).text;
            &&& is_optional(member) ==> text == front
                + "  #[serde(default, skip_serializing_if = \"Option::is_none\")]"@ + "  pub "@
                + name + ": "@ + "Option<"@ + ty + ">"@ + ",\n"@
            &&& !is_optional(member) && is_trait && !is_required(member) ==> text == front
                + "  #[serde(default)]"@ + "  pub "@ + name + ": "@ + ty + ",\n"@
            &&& !is_optional(member) && !(is_trait && !is_required(member)) ==> text == front
                + "  pub "@ + name + ": "@ + ty + ",\n"@
        }),
{
    broadcast use group_append;

    super::types::law_field_type(member, support);
    super::types::law_shape_written(member.target, support);
    documentation_traits_text(member.traits) + crate::declare::rename_attribute(member, name)
        + crate::declare::blob_attribute(member)
}

/// A declared field whose target is the prelude's blob is serialized as bytes,
/// whether it is an `Option` or not.
pub proof fn law_field_bytes(member: MemberShape, is_trait: bool, support: TypeSupport) -> (r: (
    Seq<char>,
    Seq<char>,
))
    requires
        field_declaration(member, is_trait, support).error is None,
        member.target.id.is_exactly("smithy.api"@, "Blob"@),
    ensures
        field_declaration(member, is_trait, support).text == r.0
            + "  #[serde(with=\"serde_bytes\")] "@ + r.1,
{
    broadcast use group_append;

    let name = member.field_name->Ok_0@;
    super::types::law_field_type(member, support);
    super::types::law_shape_written(member.target, support);
    super::model::law_alike("smithy.api"@, "smithy.api"@);
    super::model::law_alike("Blob"@, "Blob"@);
    let front = documentation_traits_text(member.traits) + crate::declare::rename_attribute(
        member,
        name,
    );
    let back = crate::declare::default_attribute(member, is_trait) + "  pub "@ + name + ": "@
        + crate::types::field_type_emission(member, support).text + ",\n"@;
    (front, back)
}

/// A field is not declared where its serialization, its name or its type cannot
/// be had; the first of these, in this order, is the outcome, and what documents
/// the field is written before it.
pub proof fn law_field_fails(member: MemberShape, is_trait: bool, support: TypeSupport)
    ensures
        ({
            let written = field_declaration(member, is_trait, support);
            let head = documentation_traits_text(member.traits);
            match (member.traits.serialization, member.field_name) {
                (Err(error), _) => written.error == Some(error@) && written.text == head,
                (Ok(_), Err(error)) => written.error == Some(error@) && written.text == head,
                (Ok(_), Ok(_)) => written.error == shape_emission(member.target, support).error,
            }
        }),
{
    broadcast use group_append;

    super::types::law_field_type(member, support);
}

/// A structure without members: what documents it, what it derives, and its
/// name. It derives `Default` exactly where the `codegenRust` trait says so. A
/// trait that could not be decoded is the outcome.
pub proof fn law_structure_empty(id: ShapeRef, traits: AppliedTraits, support: TypeSupport)
    ensures
        ({
            let written = structure_declaration(id, traits, Seq::empty(), support);
            let head = documentation_traits_text(traits);
            match traits.codegen_rust {
                Err(error) => written.error == Some(error@) && written.text == head,
                Ok(Some(cg)) if cg.derive_default => written.error is None && written.text == head
                    + "#[derive("@ + "Default, "@ + "Clone, Debug, Serialize, Deserialize)]\n"@
                    + "pub struct "@ + id.rust_name@ + " {\n"@ + "}\n\n"@,
                Ok(_) => written.error is None && written.text == head + "#[derive("@
                    + "Clone, Debug, Serialize, Deserialize)]\n"@ + "pub struct "@ + id.rust_name@
                    + " {\n"@ + "}\n\n"@,
            }
        }),
{
    broadcast use group_append;

}

/// A structure with one member more has one field more, behind the others: `body`
/// is the structure without its end. The fields of a structure that defines a
/// trait are those of a trait. A field that fails ends the structure.
pub proof fn law_structure_grows(
    id: ShapeRef,
    traits: AppliedTraits,
    members: Seq<MemberShape>,
    member: MemberShape,
    support: TypeSupport,
) -> (body: Seq<char>)
    requires
        structure_declaration(id, traits, members, support).error is None,
    ensures
        structure_declaration(id, traits, members, support).text == body + "}\n\n"@,
        ({
            let written = structure_declaration(id, traits, members.push(member), support);
            let field = field_declaration(
                member,
                traits.has("smithy.api"@, "trait"@),
                support,
            );
            &&& written.error == field.error
            &&& field.error is None ==> written.text == body + field.text + "}\n\n"@
            &&& field.error is Some ==> written.text == body + field.text
        }),
{
    broadcast use group_append;

    let step = field_step(traits.has("smithy.api"@, "trait"@), support);
    assert(members.push(member).drop_last() =~= members);
    let derive_default = traits.codegen_rust->Ok_0 matches Some(cg) && cg.derive_default;
    crate::declare::structure_head(id, traits, derive_default).text + Emission::each(
        members,
        step,
    ).text
}

/// A structure whose fields fail is the same with a member more.
pub proof fn law_structure_stops(
    id: ShapeRef,
    traits: AppliedTraits,
    members: Seq<MemberShape>,
    member: MemberShape,
    support: TypeSupport,
)
    requires
        structure_declaration(id, traits, members, support).error is Some,
    ensures
        structure_declaration(id, traits, members.push(member), support) == structure_declaration(
            id,
            traits,
            members,
            support,
        ),
{
    assert(members.push(member).drop_last() =~= members);
}

// ---------------------------------------------------------------------------
// All declarations

/// Shapes that are ordered already stay as they are.
proof fn lemma_ordered_stays(shapes: Seq<Shape>)
    requires
        is_ordered(shapes),
    ensures
        order_by_id(shapes) == shapes,
    decreases shapes.len(),
{
    if shapes.len() > 0 {
        let front = shapes.drop_last();
        assert(is_ordered(front));
        lemma_ordered_stays(front);
        if front.len() > 0 {
            assert(shapes[front.len() - 1] == front.last());
            assert(!crate::smithy::id_before(
                shapes[shapes.len() - 1].shape.id,
                shapes[front.len() - 1].shape.id,
            ));
        }
        assert(front.push(shapes.last()) =~= shapes);
    } else {
        assert(order_by_id(shapes) =~= shapes);
    }
}

/// Filters that keep the same items have the same result.
proof fn lemma_filter_same<A>(items: Seq<A>, p: spec_fn(A) -> bool, q: spec_fn(A) -> bool)
    requires
        forall|item: A| #[trigger] p(item) == q(item),
    ensures
        items.filter(p) == items.filter(q),
    decreases items.len(),
{
    reveal(Seq::filter);
    if items.len() > 0 {
        lemma_filter_same(items.drop_last(), p, q);
        assert(p(items.last()) == q(items.last()));
    }
}

/// The declarations of a namespace are all the declarations of the shapes whose
/// namespace is alike to it.
pub proof fn law_declarations_of_namespace(
    shapes: Seq<Shape>,
    namespace: Seq<char>,
    support: TypeSupport,
)
    ensures
        declarations(shapes, Some(namespace), support) == declarations(
            shapes.filter(|s: Shape| alike(s.shape.id.namespace@, namespace)),
            None,
            support,
        ),
{
    super::law_scope_limits_declarations(shapes, Some(namespace), support);
    lemma_filter_same(
        shapes,
        |s: Shape| alike(s.shape.id.namespace@, namespace),
        |s: Shape| in_scope(s.shape.id, Some(namespace)),
    );
}

/// The declarations follow the order of identities: a shape that comes after all
/// others is declared behind them, and no shape is nothing to declare.
pub proof fn law_declarations_grow(shapes: Seq<Shape>, shape: Shape, support: TypeSupport)
    requires
        is_ordered(shapes.push(shape)),
    ensures
        declarations(Seq::empty(), None, support) == Emission::nothing(),
        declarations(shapes.push(shape), None, support) == declarations(
            shapes,
            None,
            support,
        ).followed_by(declaration(shape, support)),
{
    let all = |s: Shape| in_scope(s.shape.id, None);
    let more = shapes.push(shape);
    assert forall|i: int, j: int| 0 <= i < j < shapes.len() implies !crate::smithy::id_before(
        (#[trigger] shapes[j]).shape.id,
        (#[trigger] shapes[i]).shape.id,
    ) by {
        assert(more[i] == shapes[i]);
        assert(more[j] == shapes[j]);
    }
    super::lemma_filter_all(shapes, all);
    super::lemma_filter_all(more, all);
    super::lemma_filter_all(Seq::<Shape>::empty(), all);
    lemma_ordered_stays(shapes);
    lemma_ordered_stays(more);
    lemma_ordered_stays(Seq::empty());
    assert(shapes_in_scope(more, None) == more);
    assert(more.drop_last() =~= shapes);
}

} // verus!
