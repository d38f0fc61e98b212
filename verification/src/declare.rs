//! Declarations of the types of a model.

use vstd::prelude::*;

use crate::codegen::{documentation_traits_text, prelude_namespace, RustCodeGen, TypeSupport};
use crate::emission::{
    group_append, lemma_append_twice, lemma_each_next, lemma_each_stops, Emission,
};
use crate::error::CodegenError;
use crate::order::{insert_ordered, order_by_id, shapes_in_scope, shapes_of};
use crate::outside::{alike, same_identifier, same_namespace, same_text};
use crate::smithy::{
    in_scope, AppliedTraits, MemberShape, Model, Shape, ShapeId, ShapeKind, ShapeRef, Simple,
};
use crate::text::Writer;
use crate::types::{
    field_type_emission, is_optional, is_optional_type, is_required, shape_emission, simple_type,
    simple_type_name, Ty,
};

verus! {

// ---------------------------------------------------------------------------
// What the output says

/// The beginning of a type alias: what documents it, and its name.
pub open spec fn alias_head(id: ShapeRef, traits: AppliedTraits) -> Emission {
    Emission::text(documentation_traits_text(traits)).say("pub type "@).say(id.rust_name@).say(
        " = "@,
    )
}

/// The declaration of a simple shape.
pub open spec fn simple_declaration(
    id: ShapeRef,
    traits: AppliedTraits,
    simple: Simple,
    support: TypeSupport,
) -> Emission {
    alias_head(id, traits).followed_by(
        match simple_type(simple, support) {
            Ok(text) => Emission::text(text),
            Err(error) => Emission::fail(error),
        },
    ).say(";\n\n"@)
}

/// The declaration of a map.
pub open spec fn map_declaration(
    id: ShapeRef,
    traits: AppliedTraits,
    key: ShapeRef,
    value: ShapeRef,
    support: TypeSupport,
) -> Emission {
    alias_head(id, traits).say("std::collections::HashMap"@).say("<"@).followed_by(
        shape_emission(key, support),
    ).say(","@).followed_by(shape_emission(value, support)).say(">;\n\n"@)
}

/// The declaration of a list or a set, as a container type of its member.
pub open spec fn list_or_set_declaration(
    id: ShapeRef,
    traits: AppliedTraits,
    member: ShapeRef,
    container: Seq<char>,
    support: TypeSupport,
) -> Emission {
    alias_head(id, traits).say(container).say("<"@).followed_by(
        shape_emission(member, support),
    ).say(">;\n\n"@)
}

/// The prelude's blob.
pub open spec fn is_blob(id: ShapeId) -> bool {
    &&& alike(id.namespace@, prelude_namespace())
    &&& alike(id.shape_name@, "Blob"@)
    &&& id.member_name is None
}

/// The name that a member is serialized under: the declared name, unless an
/// override is declared.
pub open spec fn serialized_name(member: MemberShape) -> Seq<char> {
    match member.traits.serialization {
        Ok(Some(serialization)) => match serialization.name {
            Some(name) => name@,
            None => member.name@,
        },
        _ => member.name@,
    }
}

/// The attribute for a serialized name that differs from the field's.
pub open spec fn rename_attribute(member: MemberShape, field_name: Seq<char>) -> Seq<char> {
    if serialized_name(member) != field_name {
        "  #[serde(rename=\""@ + serialized_name(member) + "\")] "@
    } else {
        Seq::empty()
    }
}

/// The attribute for a blob.
pub open spec fn blob_attribute(member: MemberShape) -> Seq<char> {
    if is_blob(member.target.id) {
        "  #[serde(with=\"serde_bytes\")] "@
    } else {
        Seq::empty()
    }
}

/// The attribute for a field that may be absent.
pub open spec fn default_attribute(member: MemberShape, is_trait: bool) -> Seq<char> {
    if is_optional(member) {
        "  #[serde(default, skip_serializing_if = \"Option::is_none\")]"@
    } else if is_trait && !is_required(member) {
        "  #[serde(default)]"@
    } else {
        Seq::empty()
    }
}

/// The field of a structure.
pub open spec fn field_declaration(
    member: MemberShape,
    is_trait: bool,
    support: TypeSupport,
) -> Emission {
    let head = Emission::text(documentation_traits_text(member.traits));
    match (member.traits.serialization, member.field_name) {
        (Err(error), _) => head.followed_by(Emission::fail(error@)),
        (_, Err(error)) => head.followed_by(Emission::fail(error@)),
        (_, Ok(field_name)) => head.say(rename_attribute(member, field_name@)).say(
            blob_attribute(member),
        ).say(default_attribute(member, is_trait)).say("  pub "@).say(field_name@).say(
            ": "@,
        ).followed_by(field_type_emission(member, support)).say(",\n"@),
    }
}

/// The step that declares a field.
pub open spec fn field_step(is_trait: bool, support: TypeSupport) -> spec_fn(
    MemberShape,
) -> Emission {
    |member: MemberShape| field_declaration(member, is_trait, support)
}

/// The shape defines a trait.
pub open spec fn is_trait_definition(traits: AppliedTraits) -> bool {
    traits.has(prelude_namespace(), "trait"@)
}

/// The beginning of a structure, up to its fields.
pub open spec fn structure_head(
    id: ShapeRef,
    traits: AppliedTraits,
    derive_default: bool,
) -> Emission {
    Emission::text(documentation_traits_text(traits)).say("#[derive("@).say(
        if derive_default {
            "Default, "@
        } else {
            Seq::empty()
        },
    ).say("Clone, Debug, Serialize, Deserialize)]\n"@).say("pub struct "@).say(id.rust_name@).say(
        " {\n"@,
    )
}

/// The declaration of a structure.
pub open spec fn structure_declaration(
    id: ShapeRef,
    traits: AppliedTraits,
    members: Seq<MemberShape>,
    support: TypeSupport,
) -> Emission {
    match traits.codegen_rust {
        Err(error) => Emission::text(documentation_traits_text(traits)).followed_by(
            Emission::fail(error@),
        ),
        Ok(codegen_rust) => structure_head(
            id,
            traits,
            codegen_rust matches Some(cg) && cg.derive_default,
        ).followed_by(
            Emission::each(members, field_step(is_trait_definition(traits), support)),
        ).say("}\n\n"@),
    }
}

/// The declaration of a shape. Shapes that are not types have none.
pub open spec fn declaration(shape: Shape, support: TypeSupport) -> Emission {
    match shape.body {
        ShapeKind::Simple(simple) => simple_declaration(
            shape.shape,
            shape.traits,
            simple,
            support,
        ),
        ShapeKind::MapOf { key, value } => map_declaration(
            shape.shape,
            shape.traits,
            key,
            value,
            support,
        ),
        ShapeKind::ListOf(member) => list_or_set_declaration(
            shape.shape,
            shape.traits,
            member,
            "Vec"@,
            support,
        ),
        ShapeKind::SetOf(member) => list_or_set_declaration(
            shape.shape,
            shape.traits,
            member,
            "std::collections::BTreeSet"@,
            support,
        ),
        ShapeKind::Structure(members) => structure_declaration(
            shape.shape,
            shape.traits,
            members@,
            support,
        ),
        _ => Emission::nothing(),
    }
}

/// The step that declares a shape.
pub open spec fn declaration_step(support: TypeSupport) -> spec_fn(Shape) -> Emission {
    |shape: Shape| declaration(shape, support)
}

/// The declarations of the shapes in scope, ordered by identity.
pub open spec fn declarations(
    shapes: Seq<Shape>,
    scope: Option<Seq<char>>,
    support: TypeSupport,
) -> Emission {
    Emission::each(order_by_id(shapes_in_scope(shapes, scope)), declaration_step(support))
}

// ---------------------------------------------------------------------------
// Writing it

impl RustCodeGen {
    /// Writes the beginning of a type alias.
    fn write_alias_head(&self, w: &mut Writer, id: &ShapeRef, traits: &AppliedTraits)
        ensures
            final(w)@ == old(w)@ + alias_head(*id, *traits).text,
    {
        broadcast use group_append;

        self.apply_documentation_traits(w, traits);
        w.write("pub type ");
        self.write_ident(w, id);
        w.write(" = ");
    }

    /// declaration for simple type
    pub fn declare_simple_shape(
        &self,
        w: &mut Writer,
        id: &ShapeRef,
        traits: &AppliedTraits,
        simple: &Simple,
    ) -> (outcome: Result<(), CodegenError>)
        ensures
            simple_declaration(*id, *traits, *simple, self.types()).takes(
                old(w)@,
                final(w)@,
                outcome,
            ),
    {
        broadcast use group_append;

        self.write_alias_head(w, id, traits);
        match simple_type_name(simple, self.type_support()) {
            Ok(ty) => {
                w.write(ty);
            },
            Err(e) => {
                return Err(e);
            },
        }
        w.write(";\n\n");
        Ok(())
    }

    /// declaration for map
    pub fn declare_map_shape(
        &self,
        w: &mut Writer,
        id: &ShapeRef,
        traits: &AppliedTraits,
        key: &ShapeRef,
        value: &ShapeRef,
    ) -> (outcome: Result<(), CodegenError>)
        ensures
            map_declaration(*id, *traits, *key, *value, self.types()).takes(
                old(w)@,
                final(w)@,
                outcome,
            ),
    {
        broadcast use group_append;

        self.write_alias_head(w, id, traits);
        w.write("std::collections::HashMap");
        w.write("<");
        match self.write_type(w, Ty::Shape(key)) {
            Ok(()) => {},
            Err(e) => {
                return Err(e);
            },
        }
        w.write(",");
        match self.write_type(w, Ty::Shape(value)) {
            Ok(()) => {},
            Err(e) => {
                return Err(e);
            },
        }
        w.write(">;\n\n");
        Ok(())
    }

    /// declaration for list or set, as the container type given
    pub fn declare_list_or_set_shape(
        &self,
        w: &mut Writer,
        id: &ShapeRef,
        traits: &AppliedTraits,
        member: &ShapeRef,
        typ: &str,
    ) -> (outcome: Result<(), CodegenError>)
        ensures
            list_or_set_declaration(*id, *traits, *member, typ@, self.types()).takes(
                old(w)@,
                final(w)@,
                outcome,
            ),
    {
        broadcast use group_append;

        self.write_alias_head(w, id, traits);
        w.write(typ);
        w.write("<");
        match self.write_type(w, Ty::Shape(member)) {
            Ok(()) => {},
            Err(e) => {
                return Err(e);
            },
        }
        w.write(">;\n\n");
        Ok(())
    }

    /// Writes the field of a structure.
    fn declare_field(&self, w: &mut Writer, member: &MemberShape, is_trait: bool) -> (outcome:
        Result<(), CodegenError>)
        ensures
            field_declaration(*member, is_trait, self.types()).takes(
                old(w)@,
                final(w)@,
                outcome,
            ),
    {
        broadcast use group_append;

        self.apply_documentation_traits(w, &member.traits);

        // use the declared name for serialization, unless an override is declared
        // with the serialization trait
        let ser_name = match &member.traits.serialization {
            Err(e) => {
                return Err(e.clone());
            },
            Ok(Some(serialization)) => match &serialization.name {
                Some(name) => name.as_str(),
                None => member.name.as_str(),
            },
            Ok(None) => member.name.as_str(),
        };
        let rust_field_name = match &member.field_name {
            Err(e) => {
                return Err(e.clone());
            },
            Ok(name) => name.as_str(),
        };
        if !same_text(ser_name, rust_field_name) {
            w.write("  #[serde(rename=\"");
            w.write(ser_name);
            w.write("\")] ");
        }

        // for rmp-msgpack - need to use serde_bytes serializer for Blob (and Option<Blob>)
        let target = &member.target.id;
        if same_namespace(target.namespace.as_str(), "smithy.api") && same_identifier(
            target.shape_name.as_str(),
            "Blob",
        ) && target.member_name.is_none() {
            w.write("  #[serde(with=\"serde_bytes\")] ");
        }
        if is_optional_type(member) {
            w.write("  #[serde(default, skip_serializing_if = \"Option::is_none\")]");
        } else if is_trait && member.traits.get("smithy.api", "required").is_none() {
            // trait structs are deserialized only and need default values if not required
            w.write("  #[serde(default)]");
        }
        w.write("  pub ");
        w.write(rust_field_name);
        w.write(": ");
        match self.write_field_type(w, member) {
            Ok(()) => {},
            Err(e) => {
                return Err(e);
            },
        }
        w.write(",\n");
        Ok(())
    }

    /// Writes the fields of a structure.
    fn declare_fields(&self, w: &mut Writer, members: &Vec<MemberShape>, is_trait: bool) -> (outcome:
        Result<(), CodegenError>)
        ensures
            Emission::each(members@, field_step(is_trait, self.types())).takes(
                old(w)@,
                final(w)@,
                outcome,
            ),
    {
        let ghost before = w@;
        let ghost step = field_step(is_trait, self.types());
        let mut i: usize = 0;
        while i < members.len()
            invariant
                i <= members@.len(),
                step == field_step(is_trait, self.types()),
                before == old(w)@,
                w@ == before + Emission::each(members@.take(i as int), step).text,
                Emission::each(members@.take(i as int), step).error is None,
            decreases members@.len() - i,
        {
            proof {
                lemma_each_next(members@, step, i as int);
                lemma_append_twice(
                    before,
                    Emission::each(members@.take(i as int), step).text,
                    step(members@[i as int]).text,
                );
            }
            match self.declare_field(w, &members[i], is_trait) {
                Ok(()) => {},
                Err(e) => {
                    proof {
                        lemma_each_stops(members@, step, i + 1);
                    }
                    return Err(e);
                },
            }
            i = i + 1;
        }
        assert(members@.take(i as int) =~= members@);
        Ok(())
    }

    /// declaration for structure
    pub fn declare_structure_shape(
        &self,
        w: &mut Writer,
        id: &ShapeRef,
        traits: &AppliedTraits,
        members: &Vec<MemberShape>,
    ) -> (outcome: Result<(), CodegenError>)
        ensures
            structure_declaration(*id, *traits, members@, self.types()).takes(
                old(w)@,
                final(w)@,
                outcome,
            ),
    {
        broadcast use group_append;

        let is_trait_struct = traits.get("smithy.api", "trait").is_some();
        self.apply_documentation_traits(w, traits);
        let derive_default = match &traits.codegen_rust {
            Err(e) => {
                return Err(e.clone());
            },
            Ok(Some(cg)) => cg.derive_default,
            Ok(None) => false,
        };
        w.write("#[derive(");
        if derive_default {
            w.write("Default, ");
        }
        w.write("Clone, Debug, Serialize, Deserialize)]\n");
        w.write("pub struct ");
        self.write_ident(w, id);
        w.write(" {\n");
        match self.declare_fields(w, members, is_trait_struct) {
            Ok(()) => {},
            Err(e) => {
                return Err(e);
            },
        }
        w.write("}\n\n");
        Ok(())
    }

    /// Writes the declaration of a shape.
    fn declare_shape(&self, w: &mut Writer, shape: &Shape) -> (outcome: Result<(), CodegenError>)
        ensures
            declaration(*shape, self.types()).takes(old(w)@, final(w)@, outcome),
    {
        broadcast use group_append;

        match &shape.body {
            ShapeKind::Simple(simple) => self.declare_simple_shape(
                w,
                &shape.shape,
                &shape.traits,
                simple,
            ),
            ShapeKind::MapOf { key, value } => self.declare_map_shape(
                w,
                &shape.shape,
                &shape.traits,
                key,
                value,
            ),
            ShapeKind::ListOf(member) => self.declare_list_or_set_shape(
                w,
                &shape.shape,
                &shape.traits,
                member,
                "Vec",
            ),
            ShapeKind::SetOf(member) => self.declare_list_or_set_shape(
                w,
                &shape.shape,
                &shape.traits,
                member,
                "std::collections::BTreeSet",
            ),
            ShapeKind::Structure(members) => self.declare_structure_shape(
                w,
                &shape.shape,
                &shape.traits,
                members,
            ),
            ShapeKind::Operation(_)
            | ShapeKind::Resource
            | ShapeKind::Service(_)
            | ShapeKind::Union
            | ShapeKind::Unresolved => Ok(()),
        }
    }

    /// The shapes in scope, ordered by identity.
    fn shapes_to_declare<'a>(&self, model: &'a Model) -> (ordered: Vec<&'a Shape>)
        ensures
            shapes_of(ordered@) == order_by_id(shapes_in_scope(model.shapes@, self.scope())),
    {
        let mut ordered: Vec<&'a Shape> = Vec::new();
        let ghost within = |shape: Shape| in_scope(shape.shape.id, self.scope());
        let mut i: usize = 0;
        assert(shapes_of(ordered@) =~= order_by_id(model.shapes@.take(0).filter(within))) by {
            reveal(Seq::filter);
        }
        while i < model.shapes.len()
            invariant
                i <= model.shapes@.len(),
                within == (|shape: Shape| in_scope(shape.shape.id, self.scope())),
                shapes_of(ordered@) == order_by_id(model.shapes@.take(i as int).filter(within)),
            decreases model.shapes@.len() - i,
        {
            proof {
                let taken = model.shapes@.take(i as int);
                let next = model.shapes@[i as int];
                assert(model.shapes@.take(i + 1) =~= taken.push(next));
                taken.lemma_filter_push(next, within);
                assert(taken.filter(within).push(next).drop_last() =~= taken.filter(within));
            }
            if !self.is_out_of_scope(&model.shapes[i].shape.id) {
                insert_ordered(&mut ordered, &model.shapes[i]);
            }
            i = i + 1;
        }
        assert(model.shapes@.take(i as int) =~= model.shapes@);
        ordered
    }

    /// Writes the declarations of the types in scope, ordered by identity.
    pub fn declare_types(&self, w: &mut Writer, model: &Model) -> (outcome: Result<
        (),
        CodegenError,
    >)
        ensures
            declarations(model.shapes@, self.scope(), self.types()).takes(
                old(w)@,
                final(w)@,
                outcome,
            ),
    {
        let shapes = self.shapes_to_declare(model);
        let ghost ordered = shapes_of(shapes@);
        let ghost before = w@;
        let ghost step = declaration_step(self.types());
        let mut i: usize = 0;
        while i < shapes.len()
            invariant
                i <= shapes@.len(),
                ordered == shapes_of(shapes@),
                step == declaration_step(self.types()),
                declarations(model.shapes@, self.scope(), self.types()) == Emission::each(
                    ordered,
                    step,
                ),
                before == old(w)@,
                w@ == before + Emission::each(ordered.take(i as int), step).text,
                Emission::each(ordered.take(i as int), step).error is None,
            decreases shapes@.len() - i,
        {
            proof {
                lemma_each_next(ordered, step, i as int);
                lemma_append_twice(
                    before,
                    Emission::each(ordered.take(i as int), step).text,
                    step(ordered[i as int]).text,
                );
            }
            match self.declare_shape(w, shapes[i]) {
                Ok(()) => {},
                Err(e) => {
                    proof {
                        lemma_each_stops(ordered, step, i + 1);
                    }
                    return Err(e);
                },
            }
            i = i + 1;
        }
        assert(ordered.take(i as int) =~= ordered);
        Ok(())
    }
}

} // verus!
