//! The parts of a Smithy model that source generation reads.
//!
//! Every name that ends up in the output stands here in the spelling that the
//! output gives it, next to the name that the model declares.

use vstd::prelude::*;

use crate::error::CodegenError;
use crate::outside::{alike, same_identifier, same_namespace, same_text};
use crate::text::{is_text_before, text_before};

verus! {

/// The identity of a shape.
pub struct ShapeId {
    /// The namespace that declares the shape.
    pub namespace: String,
    /// The name of the shape in its namespace.
    pub shape_name: String,
    /// The member of the shape, where the identity is that of a member.
    pub member_name: Option<String>,
}

/// A shape that the output mentions by name.
pub struct ShapeRef {
    /// The shape.
    pub id: ShapeId,
    /// The shape name, spelled as a Rust type.
    pub rust_name: String,
}

/// The value of an applied trait, or of a parameter.
pub enum Value {
    /// A list of values.
    List(Vec<Value>),
    /// Keys with their values.
    Object(Vec<(String, Value)>),
    /// A number, as written.
    Number(String),
    /// A truth value.
    Boolean(bool),
    /// A text.
    Text(String),
    /// No value.
    Null,
}

/// A trait applied to a shape, and its value if it has one.
pub struct AppliedTrait {
    /// The shape that defines the trait.
    pub id: ShapeId,
    /// The value given to it.
    pub value: Option<Value>,
}

/// The `codegenRust` trait.
pub struct CodegenRust {
    /// Derive `Default` for the structure.
    pub derive_default: bool,
}

/// The `serialization` trait.
pub struct Serialization {
    /// The name to serialize a member under.
    pub name: Option<String>,
}

/// The `wasmbus` trait of a service.
pub struct Wasmbus {
    /// The capability contract of the service.
    pub contract_id: Option<String>,
    /// Whether providers receive the service's messages.
    pub provider_receive: bool,
    /// Whether actors receive the service's messages.
    pub actor_receive: bool,
}

/// The traits applied to a shape or to a member. Those that have a structure of
/// their own come decoded; decoding may have failed.
pub struct AppliedTraits {
    /// All applied traits.
    pub applied: Vec<AppliedTrait>,
    /// The `codegenRust` trait, decoded.
    pub codegen_rust: Result<Option<CodegenRust>, CodegenError>,
    /// The `serialization` trait, decoded.
    pub serialization: Result<Option<Serialization>, CodegenError>,
    /// The `wasmbus` trait, decoded.
    pub wasmbus: Result<Option<Wasmbus>, CodegenError>,
}

/// The simple shapes.
pub enum Simple {
    /// Uninterpreted bytes.
    Blob,
    /// A truth value.
    Boolean,
    /// Untyped data.
    Document,
    /// A text.
    Text,
    /// An 8-bit signed integer.
    Byte,
    /// A 16-bit signed integer.
    Short,
    /// A 32-bit signed integer.
    Integer,
    /// A 64-bit signed integer.
    Long,
    /// A single-precision number.
    Float,
    /// A double-precision number.
    Double,
    /// An integer without bounds.
    BigInteger,
    /// A decimal number without bounds.
    BigDecimal,
    /// An instant in time.
    Timestamp,
}

/// A member of a structure.
pub struct MemberShape {
    /// The name that the model declares.
    pub name: String,
    /// The name, spelled as a Rust field, or why there is no such spelling.
    pub field_name: Result<String, CodegenError>,
    /// The shape of the member.
    pub target: ShapeRef,
    /// The traits applied to the member.
    pub traits: AppliedTraits,
}

/// What an operation takes and returns.
pub struct Operation {
    /// The shape of the argument, if there is one.
    pub input: Option<ShapeRef>,
    /// The shape of the result, if there is one.
    pub output: Option<ShapeRef>,
}

/// An operation that a service lists.
pub struct ServiceOperation {
    /// The operation.
    pub id: ShapeId,
    /// The operation's name, spelled as a Rust method.
    pub method_name: String,
    /// The operation's name in a message to the service.
    pub dispatch_name: String,
    /// The expression for the operation's name together with its service's.
    pub full_dispatch_name: String,
}

/// A service.
pub struct Service {
    /// The operations of the service.
    pub operations: Vec<ServiceOperation>,
}

/// The kinds of shape.
pub enum ShapeKind {
    /// A simple shape.
    Simple(Simple),
    /// A list of the shape given.
    ListOf(ShapeRef),
    /// A set of the shape given.
    SetOf(ShapeRef),
    /// A map.
    MapOf {
        /// The shape of the keys.
        key: ShapeRef,
        /// The shape of the values.
        value: ShapeRef,
    },
    /// A structure with its members.
    Structure(Vec<MemberShape>),
    /// A union.
    Union,
    /// A service.
    Service(Service),
    /// An operation.
    Operation(Operation),
    /// A resource.
    Resource,
    /// A reference to a shape that is not defined.
    Unresolved,
}

/// A shape of the model.
pub struct Shape {
    /// The shape's identity and its name in the output.
    pub shape: ShapeRef,
    /// The traits applied to it.
    pub traits: AppliedTraits,
    /// What it is.
    pub body: ShapeKind,
}

/// A model.
pub struct Model {
    /// The version of Smithy that the model is written in.
    pub smithy_version: String,
    /// The shapes, in the order in which the model yields them.
    pub shapes: Vec<Shape>,
}

// ---------------------------------------------------------------------------
// Identity

/// Two identities that a model does not tell apart: they differ at most in case.
pub open spec fn same_shape(a: ShapeId, b: ShapeId) -> bool {
    &&& alike(a.namespace@, b.namespace@)
    &&& alike(a.shape_name@, b.shape_name@)
    &&& match (a.member_name, b.member_name) {
        (Some(x), Some(y)) => alike(x@, y@),
        (None, None) => true,
        _ => false,
    }
}

impl ShapeId {
    /// Whether two identities are the same shape to the model.
    pub fn is_same(&self, other: &ShapeId) -> (same: bool)
        ensures
            same == same_shape(*self, *other),
    {
        same_namespace(self.namespace.as_str(), other.namespace.as_str()) && same_identifier(
            self.shape_name.as_str(),
            other.shape_name.as_str(),
        ) && match (&self.member_name, &other.member_name) {
            (Some(x), Some(y)) => same_identifier(x.as_str(), y.as_str()),
            (None, None) => true,
            _ => false,
        }
    }

    /// The top-level shape of this name in this namespace, letter for letter.
    pub open spec fn is_exactly(self, namespace: Seq<char>, shape_name: Seq<char>) -> bool {
        &&& self.namespace@ == namespace
        &&& self.shape_name@ == shape_name
        &&& self.member_name is None
    }
}

/// A shape lies in the scope of generation: in the namespace, where the scope
/// is limited to one.
pub open spec fn in_scope(id: ShapeId, scope: Option<Seq<char>>) -> bool {
    match scope {
        Some(namespace) => alike(id.namespace@, namespace),
        None => true,
    }
}

/// Whether a shape lies in the scope of generation.
pub fn is_opt_namespace(id: &ShapeId, namespace: &Option<String>) -> (within: bool)
    ensures
        within == in_scope(
            *id,
            match *namespace {
                Some(ns) => Some(ns@),
                None => None,
            },
        ),
{
    match namespace {
        Some(ns) => same_namespace(id.namespace.as_str(), ns.as_str()),
        None => true,
    }
}

/// The order of identities: by namespace, then by shape name, then by member
/// name, where no member comes before any member.
pub open spec fn id_before(a: ShapeId, b: ShapeId) -> bool {
    if a.namespace@ != b.namespace@ {
        text_before(a.namespace@, b.namespace@)
    } else if a.shape_name@ != b.shape_name@ {
        text_before(a.shape_name@, b.shape_name@)
    } else {
        match (a.member_name, b.member_name) {
            (Some(x), Some(y)) => text_before(x@, y@),
            (None, Some(_)) => true,
            _ => false,
        }
    }
}

impl ShapeId {
    /// Whether this identity comes strictly before the other.
    pub fn is_before(&self, other: &ShapeId) -> (before: bool)
        ensures
            before == id_before(*self, *other),
    {
        if !same_text(self.namespace.as_str(), other.namespace.as_str()) {
            is_text_before(self.namespace.as_str(), other.namespace.as_str())
        } else if !same_text(self.shape_name.as_str(), other.shape_name.as_str()) {
            is_text_before(self.shape_name.as_str(), other.shape_name.as_str())
        } else {
            match (&self.member_name, &other.member_name) {
                (Some(x), Some(y)) => is_text_before(x.as_str(), y.as_str()),
                (None, Some(_)) => true,
                _ => false,
            }
        }
    }
}

// ---------------------------------------------------------------------------
// Traits and values

/// The value of a trait among those applied: `None` where the trait is not
/// applied, `Some(None)` where it is applied without a value.
pub open spec fn applied_value(
    applied: Seq<AppliedTrait>,
    namespace: Seq<char>,
    shape_name: Seq<char>,
) -> Option<Option<Value>>
    decreases applied.len(),
{
    if applied.len() == 0 {
        None
    } else if applied[0].id.is_exactly(namespace, shape_name) {
        Some(applied[0].value)
    } else {
        applied_value(applied.drop_first(), namespace, shape_name)
    }
}

/// The value of a key: that of the first entry with this key.
pub open spec fn entry_value(entries: Seq<(String, Value)>, key: Seq<char>) -> Option<Value>
    decreases entries.len(),
{
    if entries.len() == 0 {
        None
    } else if entries[0].0@ == key {
        Some(entries[0].1)
    } else {
        entry_value(entries.drop_first(), key)
    }
}

impl AppliedTraits {
    /// The value of a trait, see [`applied_value`].
    pub open spec fn value_of(self, namespace: Seq<char>, shape_name: Seq<char>) -> Option<
        Option<Value>,
    > {
        applied_value(self.applied@, namespace, shape_name)
    }

    /// Whether the trait is applied.
    pub open spec fn has(self, namespace: Seq<char>, shape_name: Seq<char>) -> bool {
        self.value_of(namespace, shape_name) is Some
    }

    /// The value of a trait, if the trait is applied.
    pub fn get(&self, namespace: &str, shape_name: &str) -> (value: Option<&Option<Value>>)
        ensures
            match value {
                Some(v) => self.value_of(namespace@, shape_name@) == Some(*v),
                None => self.value_of(namespace@, shape_name@) is None,
            },
    {
        let mut i: usize = 0;
        assert(self.applied@.skip(0) =~= self.applied@);
        while i < self.applied.len()
            invariant
                i <= self.applied@.len(),
                self.value_of(namespace@, shape_name@) == applied_value(
                    self.applied@.skip(i as int),
                    namespace@,
                    shape_name@,
                ),
            decreases self.applied@.len() - i,
        {
            let entry = &self.applied[i];
            assert(self.applied@.skip(i as int).drop_first() =~= self.applied@.skip(i + 1));
            if same_text(entry.id.namespace.as_str(), namespace) && same_text(
                entry.id.shape_name.as_str(),
                shape_name,
            ) && entry.id.member_name.is_none() {
                return Some(&entry.value);
            }
            i = i + 1;
        }
        None
    }
}

/// The value of a key among entries.
pub fn get_entry<'a>(entries: &'a Vec<(String, Value)>, key: &str) -> (value: Option<&'a Value>)
    ensures
        match value {
            Some(v) => entry_value(entries@, key@) == Some(*v),
            None => entry_value(entries@, key@) is None,
        },
{
    let mut i: usize = 0;
    assert(entries@.skip(0) =~= entries@);
    while i < entries.len()
        invariant
            i <= entries@.len(),
            entry_value(entries@, key@) == entry_value(entries@.skip(i as int), key@),
        decreases entries@.len() - i,
    {
        let entry = &entries[i];
        assert(entries@.skip(i as int).drop_first() =~= entries@.skip(i + 1));
        if same_text(entry.0.as_str(), key) {
            return Some(&entry.1);
        }
        i = i + 1;
    }
    None
}

} // verus!
