//! What holds of the interface, the receiver and the sender of a service.

use vstd::prelude::*;

use crate::codegen::{documentation_text, documentation_traits_text, TypeSupport};
use crate::emission::{group_append, Emission};
use crate::error::ErrorView;
use crate::outside::alike;
use crate::service::{
    interface_head, interface_method, interface_step, method_signature, operation_named,
    receiver_head, receiver_method, receiver_step, sender_head, sender_method, sender_step,
    service_emission, service_interface, service_receiver, service_sender, service_step, services,
};
use crate::smithy::{
    in_scope, same_shape, AppliedTraits, Operation, Service, ServiceOperation, Shape, ShapeId,
    ShapeKind, ShapeRef,
};
use crate::types::shape_type;

verus! {

// ---------------------------------------------------------------------------
// Operations

/// The operation of an identity is the first shape that is an operation of this
/// identity, with the traits applied to it.
pub proof fn law_operation_found(shapes: Seq<Shape>, id: ShapeId, i: int, op: Operation)
    requires
        0 <= i < shapes.len(),
        shapes[i].body == ShapeKind::Operation(op),
        same_shape(shapes[i].shape.id, id),
        forall|j: int|
            0 <= j < i ==> !((#[trigger] shapes[j]).body is Operation && same_shape(
                shapes[j].shape.id,
                id,
            )),
    ensures
        operation_named(shapes, id) == Some((op, shapes[i].traits)),
    decreases i,
{
    if i > 0 {
        let rest = shapes.drop_first();
        assert(!(shapes[0].body is Operation && same_shape(shapes[0].shape.id, id)));
        assert forall|j: int| 0 <= j < i - 1 implies !((#[trigger] rest[j]).body is Operation
            && same_shape(rest[j].shape.id, id)) by {
            assert(rest[j] == shapes[j + 1]);
        }
        law_operation_found(rest, id, i - 1, op);
    }
}

/// There is no operation of an identity exactly where no shape is one.
pub proof fn law_operation_missing(shapes: Seq<Shape>, id: ShapeId)
    ensures
        operation_named(shapes, id) is None <==> forall|i: int|
            0 <= i < shapes.len() ==> !((#[trigger] shapes[i]).body is Operation && same_shape(
                shapes[i].shape.id,
                id,
            )),
    decreases shapes.len(),
{
    if shapes.len() > 0 {
        let rest = shapes.drop_first();
        law_operation_missing(rest, id);
        if operation_named(shapes, id) is None {
            assert forall|i: int| 0 <= i < shapes.len() implies !((
            #[trigger] shapes[i]).body is Operation && same_shape(shapes[i].shape.id, id)) by {
                if i > 0 {
                    assert(rest[i - 1] == shapes[i]);
                }
            }
        } else if forall|i: int|
            0 <= i < shapes.len() ==> !((#[trigger] shapes[i]).body is Operation && same_shape(
                shapes[i].shape.id,
                id,
            )) {
            assert(!(shapes[0].body is Operation && same_shape(shapes[0].shape.id, id)));
            assert forall|i: int| 0 <= i < rest.len() implies !((
            #[trigger] rest[i]).body is Operation && same_shape(rest[i].shape.id, id)) by {
                assert(rest[i] == shapes[i + 1]);
            }
        }
    }
}

/// An operation in scope that the model does not define ends each part of the
/// service, with nothing written and an error that names the operation and the
/// service.
pub proof fn law_missing_operation(
    shapes: Seq<Shape>,
    service: ShapeRef,
    method: ServiceOperation,
    scope: Option<Seq<char>>,
    support: TypeSupport,
)
    requires
        in_scope(method.id, scope),
        operation_named(shapes, method.id) is None,
    ensures
        ({
            let error = Some(
                (ErrorView::MissingOperation {
                    namespace: method.id.namespace@,
                    operation: method.id.shape_name@,
                    service: service.id.shape_name@,
                }),
            );
            let interface = interface_method(shapes, service, method, scope, support);
            let receiver = receiver_method(shapes, service, method, scope, support);
            let sender = sender_method(shapes, service, method, scope, support);
            &&& interface.error == error && interface.text.len() == 0
            &&& receiver.error == error && receiver.text.len() == 0
            &&& sender.error == error && sender.text.len() == 0
        }),
{
}

// ---------------------------------------------------------------------------
// Signatures

/// A method takes a reference to its operation's input, where there is one, and
/// returns its output, or `()` where there is none. `arg` is what the signature
/// says of the input and `result` what it says of the output: neither depends on
/// the other.
pub proof fn law_signature(
    name: Seq<char>,
    traits: AppliedTraits,
    op: Operation,
    support: TypeSupport,
    arg: Seq<char>,
    result: Seq<char>,
)
    requires
        match op.input {
            Some(input) => shape_type(input, support) is Ok && arg == ", arg: "@ + "&"@
                + shape_type(input, support)->Ok_0,
            None => arg.len() == 0,
        },
        match op.output {
            Some(output) => shape_type(output, support) == Ok::<Seq<char>, ErrorView>(result),
            None => result == "()"@,
        },
    ensures
        method_signature(name, traits, op, support).error is None,
        method_signature(name, traits, op, support).text == documentation_traits_text(traits)
            + "async fn "@ + name + "(&self, ctx: &context::Context<'_>"@ + arg + ") -> Result<"@
            + result + ", RpcError>"@,
{
    broadcast use group_append;

    assert(arg.len() == 0 ==> arg =~= Seq::<char>::empty());
}

/// A signature that is written ends with its result: the Rust type of the
/// operation's output, as it is, or `()`. What is in front does not depend on the
/// output.
pub proof fn law_signature_result(
    name: Seq<char>,
    traits: AppliedTraits,
    op: Operation,
    other: Operation,
    support: TypeSupport,
) -> (front: Seq<char>)
    requires
        method_signature(name, traits, op, support).error is None,
        method_signature(name, traits, other, support).error is None,
        other.input == op.input,
    ensures
        match op.output {
            Some(output) => shape_type(output, support) is Ok && method_signature(
                name,
                traits,
                op,
                support,
            ).text == front + ") -> Result<"@ + shape_type(output, support)->Ok_0 + ", RpcError>"@,
            None => method_signature(name, traits, op, support).text == front + ") -> Result<"@
                + "()"@ + ", RpcError>"@,
        },
        match other.output {
            Some(output) => shape_type(output, support) is Ok && method_signature(
                name,
                traits,
                other,
                support,
            ).text == front + ") -> Result<"@ + shape_type(output, support)->Ok_0 + ", RpcError>"@,
            None => method_signature(name, traits, other, support).text == front + ") -> Result<"@
                + "()"@ + ", RpcError>"@,
        },
{
    let arg = match op.input {
        Some(input) => ", arg: "@ + "&"@ + shape_type(input, support)->Ok_0,
        None => Seq::empty(),
    };
    let result = match op.output {
        Some(output) => shape_type(output, support)->Ok_0,
        None => "()"@,
    };
    let other_result = match other.output {
        Some(output) => shape_type(output, support)->Ok_0,
        None => "()"@,
    };
    law_signature_fails(name, traits, op, support);
    law_signature_fails(name, traits, other, support);
    law_signature(name, traits, op, support, arg, result);
    law_signature(name, traits, other, support, arg, other_result);
    documentation_traits_text(traits) + "async fn "@ + name + "(&self, ctx: &context::Context<'_>"@
        + arg
}

/// A signature fails exactly where the input or the output has no Rust type, and
/// then with the error of the first that has none, written as far as there.
pub proof fn law_signature_fails(
    name: Seq<char>,
    traits: AppliedTraits,
    op: Operation,
    support: TypeSupport,
)
    ensures
        ({
            let written = method_signature(name, traits, op, support);
            let head = documentation_traits_text(traits) + "async fn "@ + name
                + "(&self, ctx: &context::Context<'_>"@;
            match op.input {
                Some(input) if shape_type(input, support) is Err => written.error == Some(
                    shape_type(input, support)->Err_0,
                ) && written.text == head + ", arg: "@ + "&"@,
                _ => match op.output {
                    Some(output) if shape_type(output, support) is Err => written.error == Some(
                        shape_type(output, support)->Err_0,
                    ) && written.text == head + (match op.input {
                        Some(input) => ", arg: "@ + "&"@ + shape_type(input, support)->Ok_0,
                        None => Seq::empty(),
                    }) + ") -> Result<"@,
                    _ => written.error is None,
                },
            }
        }),
{
    broadcast use group_append;

}

// ---------------------------------------------------------------------------
// Methods

/// The interface declares an operation by its signature.
pub proof fn law_interface_method(
    shapes: Seq<Shape>,
    service: ShapeRef,
    method: ServiceOperation,
    scope: Option<Seq<char>>,
    support: TypeSupport,
    op: Operation,
    traits: AppliedTraits,
)
    requires
        in_scope(method.id, scope),
        operation_named(shapes, method.id) == Some((op, traits)),
    ensures
        ({
            let signature = method_signature(method.method_name@, traits, op, support);
            let written = interface_method(shapes, service, method, scope, support);
            &&& written.error == signature.error
            &&& signature.error is None ==> written.text == signature.text + ";\n"@
            &&& signature.error is Some ==> written.text == signature.text
        }),
{
}

/// The sender defines what the interface declares: behind the interface's
/// signature, the argument is serialized exactly where the operation has an
/// input, and is empty exactly where it has none; it is sent under the
/// operation's dispatch name; and the reply is deserialized exactly where the
/// operation has an output. The input and the output decide these separately.
pub proof fn law_sender_method(
    shapes: Seq<Shape>,
    service: ShapeRef,
    method: ServiceOperation,
    scope: Option<Seq<char>>,
    support: TypeSupport,
    op: Operation,
    traits: AppliedTraits,
    signature: Seq<char>,
)
    requires
        in_scope(method.id, scope),
        operation_named(shapes, method.id) == Some((op, traits)),
        interface_method(shapes, service, method, scope, support).error is None,
        interface_method(shapes, service, method, scope, support).text == signature + ";\n"@,
    ensures
        sender_method(shapes, service, method, scope, support).error is None,
        sender_method(shapes, service, method, scope, support).text == "#[allow(unused)]\n"@
            + signature + " {\n"@ + (match op.input {
            Some(_) => "let arg = serialize(arg)?;\n"@,
            None => "let arg = *b\"\";\n"@,
        }) + "let resp = self.transport.send(ctx, &self.config, Message{ method: "@ + "\""@
            + method.dispatch_name@ + "\", arg: Cow::Borrowed(&arg)}).await?;\n"@ + (
        match op.output {
            Some(_) => "let value = deserialize(resp.arg.as_ref())?; Ok(value)"@,
            None => "Ok(())"@,
        }) + " }\n"@,
{
    broadcast use group_append;

    let declared = method_signature(method.method_name@, traits, op, support).text;
    super::lemma_between(Seq::empty(), signature, declared, ";\n"@);
    super::lemma_nothing_before(signature);
    super::lemma_nothing_before(declared);
    assert(signature == declared);
}

/// A sender's method that is written serializes the argument directly before it
/// sends it where the operation has an input, whatever its output is, and has an
/// empty argument there where it has none. `r` is what stands in front of that,
/// and what stands behind the sending.
pub proof fn law_sender_argument(
    shapes: Seq<Shape>,
    service: ShapeRef,
    method: ServiceOperation,
    scope: Option<Seq<char>>,
    support: TypeSupport,
) -> (r: (Seq<char>, Seq<char>))
    requires
        in_scope(method.id, scope),
        sender_method(shapes, service, method, scope, support).error is None,
    ensures
        operation_named(shapes, method.id) is Some,
        ({
            let (op, traits) = operation_named(shapes, method.id)->0;
            let text = sender_method(shapes, service, method, scope, support).text;
            let send = "let resp = self.transport.send(ctx, &self.config, Message{ method: "@
                + "\""@ + method.dispatch_name@ + "\", arg: Cow::Borrowed(&arg)}).await?;\n"@;
            &&& r.0 == "#[allow(unused)]\n"@ + method_signature(
                method.method_name@,
                traits,
                op,
                support,
            ).text + " {\n"@
            &&& op.input is Some ==> text == r.0 + "let arg = serialize(arg)?;\n"@ + send + r.1
            &&& op.input is None ==> text == r.0 + "let arg = *b\"\";\n"@ + send + r.1
            &&& op.output is Some ==> r.1
                == "let value = deserialize(resp.arg.as_ref())?; Ok(value)"@ + " }\n"@
            &&& op.output is None ==> r.1 == "Ok(())"@ + " }\n"@
        }),
{
    broadcast use group_append;

    let (op, traits) = operation_named(shapes, method.id)->0;
    let signature = method_signature(method.method_name@, traits, op, support).text;
    law_sender_method(shapes, service, method, scope, support, op, traits, signature);
    let front = "#[allow(unused)]\n"@ + signature + " {\n"@;
    let back = (match op.output {
        Some(_) => "let value = deserialize(resp.arg.as_ref())?; Ok(value)"@,
        None => "Ok(())"@,
    }) + " }\n"@;
    (front, back)
}

/// A sender's method whose signature fails is written as far as the signature.
pub proof fn law_sender_fails(
    shapes: Seq<Shape>,
    service: ShapeRef,
    method: ServiceOperation,
    scope: Option<Seq<char>>,
    support: TypeSupport,
)
    requires
        in_scope(method.id, scope),
        operation_named(shapes, method.id) is Some,
        interface_method(shapes, service, method, scope, support).error is Some,
    ensures
        sender_method(shapes, service, method, scope, support).error == interface_method(
            shapes,
            service,
            method,
            scope,
            support,
        ).error,
        sender_method(shapes, service, method, scope, support).text == "#[allow(unused)]\n"@
            + interface_method(shapes, service, method, scope, support).text,
{
}

/// The receiver calls what the interface declares: it matches the operation's
/// dispatch name, deserializes the argument as the Rust type of the operation's
/// input and passes it exactly where there is an input, calls the service's
/// method, and answers with the serialized result under the full name.
pub proof fn law_receiver_method(
    shapes: Seq<Shape>,
    service: ShapeRef,
    method: ServiceOperation,
    scope: Option<Seq<char>>,
    support: TypeSupport,
    op: Operation,
    traits: AppliedTraits,
)
    requires
        in_scope(method.id, scope),
        operation_named(shapes, method.id) == Some((op, traits)),
    ensures
        ({
            let written = receiver_method(shapes, service, method, scope, support);
            let head = "\""@ + method.dispatch_name@ + "\" => {\n"@;
            let call = "let resp = "@ + service.rust_name@ + "::"@ + method.method_name@
                + "(self, ctx"@;
            let answer = ").await?;\n"@ + "let buf = Cow::Owned(serialize(&resp)?);\n"@
                + "Ok(Message { method: "@ + method.full_dispatch_name@ + ", arg: buf })},\n"@;
            match op.input {
                None => written.error is None && written.text == head + call + answer,
                Some(input) => match shape_type(input, support) {
                    Ok(t) => written.error is None && written.text == head + "let value: "@ + t
                        + " = deserialize(message.arg.as_ref())?;\n"@ + call + ", &value"@ + answer,
                    Err(error) => written.error == Some(error) && written.text == head
                        + "let value: "@,
                },
            }
        }),
{
    broadcast use group_append;

}

/// The receiver feeds the interface: for an operation with an input, the type
/// `t` that the interface takes a reference to is the type that the receiver
/// deserializes, and it is the Rust type of the input. For an input that neither
/// the prelude nor the wasmCloud model declares, that is its Rust name.
pub proof fn law_receiver_feeds_interface(
    shapes: Seq<Shape>,
    service: ShapeRef,
    method: ServiceOperation,
    scope: Option<Seq<char>>,
    support: TypeSupport,
    op: Operation,
    traits: AppliedTraits,
    input: ShapeRef,
) -> (t: Seq<char>)
    requires
        in_scope(method.id, scope),
        operation_named(shapes, method.id) == Some((op, traits)),
        op.input == Some(input),
        interface_method(shapes, service, method, scope, support).error is None,
    ensures
        shape_type(input, support) == Ok::<Seq<char>, ErrorView>(t),
        !alike(input.id.namespace@, "smithy.api"@) && !alike(
            input.id.namespace@,
            "org.wasmcloud.model"@,
        ) ==> t == input.rust_name@,
        (documentation_traits_text(traits) + "async fn "@ + method.method_name@
            + "(&self, ctx: &context::Context<'_>"@ + ", arg: "@ + "&"@ + t
            + ") -> Result<"@).is_prefix_of(
            interface_method(shapes, service, method, scope, support).text,
        ),
        ("\""@ + method.dispatch_name@ + "\" => {\n"@ + "let value: "@ + t
            + " = deserialize(message.arg.as_ref())?;\n"@ + "let resp = "@ + service.rust_name@
            + "::"@ + method.method_name@ + "(self, ctx"@ + ", &value"@
            + ").await?;\n"@).is_prefix_of(
            receiver_method(shapes, service, method, scope, support).text,
        ),
{
    broadcast use group_append;

    law_interface_method(shapes, service, method, scope, support, op, traits);
    law_receiver_method(shapes, service, method, scope, support, op, traits);
    law_signature_fails(method.method_name@, traits, op, support);
    let t = shape_type(input, support)->Ok_0;
    let result = match op.output {
        Some(output) => shape_type(output, support)->Ok_0,
        None => "()"@,
    };
    law_signature(
        method.method_name@,
        traits,
        op,
        support,
        ", arg: "@ + "&"@ + t,
        result,
    );
    super::lemma_prefix(
        documentation_traits_text(traits) + "async fn "@ + method.method_name@
            + "(&self, ctx: &context::Context<'_>"@ + ", arg: "@ + "&"@ + t + ") -> Result<"@,
        result + ", RpcError>"@ + ";\n"@,
    );
    super::lemma_prefix(
        "\""@ + method.dispatch_name@ + "\" => {\n"@ + "let value: "@ + t
            + " = deserialize(message.arg.as_ref())?;\n"@ + "let resp = "@ + service.rust_name@
            + "::"@ + method.method_name@ + "(self, ctx"@ + ", &value"@ + ").await?;\n"@,
        "let buf = Cow::Owned(serialize(&resp)?);\n"@ + "Ok(Message { method: "@
            + method.full_dispatch_name@ + ", arg: buf })},\n"@,
    );
    t
}

/// For an operation without an input, the interface takes no argument, and the
/// receiver deserializes none and passes none.
pub proof fn law_receiver_without_input(
    shapes: Seq<Shape>,
    service: ShapeRef,
    method: ServiceOperation,
    scope: Option<Seq<char>>,
    support: TypeSupport,
    op: Operation,
    traits: AppliedTraits,
)
    requires
        in_scope(method.id, scope),
        operation_named(shapes, method.id) == Some((op, traits)),
        op.input is None,
        interface_method(shapes, service, method, scope, support).error is None,
    ensures
        (documentation_traits_text(traits) + "async fn "@ + method.method_name@
            + "(&self, ctx: &context::Context<'_>"@ + ") -> Result<"@).is_prefix_of(
            interface_method(shapes, service, method, scope, support).text,
        ),
        ("\""@ + method.dispatch_name@ + "\" => {\n"@ + "let resp = "@ + service.rust_name@ + "::"@
            + method.method_name@ + "(self, ctx"@ + ").await?;\n"@).is_prefix_of(
            receiver_method(shapes, service, method, scope, support).text,
        ),
{
    broadcast use group_append;

    law_interface_method(shapes, service, method, scope, support, op, traits);
    law_receiver_method(shapes, service, method, scope, support, op, traits);
    law_signature_fails(method.method_name@, traits, op, support);
    let result = match op.output {
        Some(output) => shape_type(output, support)->Ok_0,
        None => "()"@,
    };
    law_signature(method.method_name@, traits, op, support, Seq::empty(), result);
    super::lemma_prefix(
        documentation_traits_text(traits) + "async fn "@ + method.method_name@
            + "(&self, ctx: &context::Context<'_>"@ + ") -> Result<"@,
        result + ", RpcError>"@ + ";\n"@,
    );
    super::lemma_prefix(
        "\""@ + method.dispatch_name@ + "\" => {\n"@ + "let resp = "@ + service.rust_name@ + "::"@
            + method.method_name@ + "(self, ctx"@ + ").await?;\n"@,
        "let buf = Cow::Owned(serialize(&resp)?);\n"@ + "Ok(Message { method: "@
            + method.full_dispatch_name@ + ", arg: buf })},\n"@,
    );
}

// ---------------------------------------------------------------------------
// Parts of a service

/// The interface of a service without operations: what documents it, what the
/// `wasmbus` trait says of it, and a trait of the service's Rust name. A
/// `wasmbus` trait that could not be decoded is the outcome.
pub proof fn law_interface_empty(
    shapes: Seq<Shape>,
    id: ShapeRef,
    traits: AppliedTraits,
    service: Service,
    scope: Option<Seq<char>>,
    support: TypeSupport,
    said: Seq<char>,
)
    requires
        service.operations@.len() == 0,
        match traits.wasmbus {
            Ok(Some(wasmbus)) => said == (match wasmbus.contract_id {
                Some(contract) => documentation_text("wasmbus.contractId: "@ + contract@),
                None => Seq::empty(),
            }) + (if wasmbus.provider_receive {
                documentation_text("wasmbus.providerReceive"@)
            } else {
                Seq::empty()
            }) + (if wasmbus.actor_receive {
                documentation_text("wasmbus.actorReceive"@)
            } else {
                Seq::empty()
            }),
            _ => said.len() == 0,
        },
    ensures
        ({
            let written = service_interface(shapes, id, traits, service, scope, support);
            match traits.wasmbus {
                Err(error) => written.error == Some(error@) && written.text
                    == documentation_traits_text(traits),
                Ok(_) => written.error is None && written.text == documentation_traits_text(traits)
                    + said + "#[async_trait]\npub trait "@ + id.rust_name@ + "{\n"@ + "}\n\n"@,
            }
        }),
{
    broadcast use group_append;

    assert(said.len() == 0 ==> said =~= Seq::<char>::empty());
}

/// A service with one operation more has one method more in its interface,
/// behind the others: `body` is the interface without its end. A method that
/// fails ends the interface.
pub proof fn law_interface_grows(
    shapes: Seq<Shape>,
    id: ShapeRef,
    traits: AppliedTraits,
    service: Service,
    more: Service,
    method: ServiceOperation,
    scope: Option<Seq<char>>,
    support: TypeSupport,
) -> (body: Seq<char>)
    requires
        more.operations@ == service.operations@.push(method),
        service_interface(shapes, id, traits, service, scope, support).error is None,
    ensures
        service_interface(shapes, id, traits, service, scope, support).text == body + "}\n\n"@,
        ({
            let written = service_interface(shapes, id, traits, more, scope, support);
            let part = interface_method(shapes, id, method, scope, support);
            &&& written.error == part.error
            &&& part.error is None ==> written.text == body + part.text + "}\n\n"@
            &&& part.error is Some ==> written.text == body + part.text
        }),
{
    broadcast use group_append;

    let step = interface_step(shapes, id, scope, support);
    assert(more.operations@.drop_last() =~= service.operations@);
    interface_head(id, traits, traits.wasmbus->Ok_0).text + Emission::each(
        service.operations@,
        step,
    ).text
}

/// The receiver of a service without operations: a dispatcher that handles no
/// message.
pub proof fn law_receiver_empty(
    shapes: Seq<Shape>,
    id: ShapeRef,
    traits: AppliedTraits,
    service: Service,
    scope: Option<Seq<char>>,
    support: TypeSupport,
)
    requires
        service.operations@.len() == 0,
    ensures
        service_receiver(shapes, id, traits, service, scope, support).error is None,
        service_receiver(shapes, id, traits, service, scope, support).text == "/// "@
            + id.id.shape_name@ + "Receiver receives messages defined in the "@ + id.id.shape_name@
            + " service trait"@ + "\n"@ + documentation_traits_text(traits)
            + "#[async_trait]\npub trait "@ + id.rust_name@ + "Receiver"@
            + " : MessageDispatch + "@ + id.rust_name@
            + "{\n            async fn dispatch(\n                &self,\n                ctx: &context::Context<'_>,\n                message: &Message<'_> ) -> Result< Message<'static>, RpcError> {\n                match message.method {\n        "@
            + "_ => Err(RpcError::MethodNotHandled(format!(\""@ + id.rust_name@
            + "::{}\", message.method))),\n"@ + "}\n}\n}\n\n"@,
{
    broadcast use group_append;

}

/// A service with one operation more has one part more in its dispatcher, behind
/// the others and in front of the one for what is not handled: `body` is the
/// receiver up to that one. A part that fails ends the receiver.
pub proof fn law_receiver_grows(
    shapes: Seq<Shape>,
    id: ShapeRef,
    traits: AppliedTraits,
    service: Service,
    more: Service,
    method: ServiceOperation,
    scope: Option<Seq<char>>,
    support: TypeSupport,
) -> (body: Seq<char>)
    requires
        more.operations@ == service.operations@.push(method),
        service_receiver(shapes, id, traits, service, scope, support).error is None,
    ensures
        ({
            let tail = "_ => Err(RpcError::MethodNotHandled(format!(\""@ + id.rust_name@
                + "::{}\", message.method))),\n"@ + "}\n}\n}\n\n"@;
            let written = service_receiver(shapes, id, traits, more, scope, support);
            let part = receiver_method(shapes, id, method, scope, support);
            &&& service_receiver(shapes, id, traits, service, scope, support).text == body + tail
            &&& written.error == part.error
            &&& part.error is None ==> written.text == body + part.text + tail
            &&& part.error is Some ==> written.text == body + part.text
        }),
{
    broadcast use group_append;

    let step = receiver_step(shapes, id, scope, support);
    assert(more.operations@.drop_last() =~= service.operations@);
    receiver_head(id, traits).text + Emission::each(service.operations@, step).text
}

/// The sender of a service without operations: the structure, its constructor
/// and an implementation of the interface without methods.
pub proof fn law_sender_empty(
    shapes: Seq<Shape>,
    id: ShapeRef,
    traits: AppliedTraits,
    service: Service,
    scope: Option<Seq<char>>,
    support: TypeSupport,
)
    requires
        service.operations@.len() == 0,
    ensures
        service_sender(shapes, id, traits, service, scope, support).error is None,
        service_sender(shapes, id, traits, service, scope, support).text == "/// "@
            + id.id.shape_name@ + "Sender sends messages to a "@ + id.id.shape_name@ + " service"@
            + "\n"@ + documentation_traits_text(traits) + "#[derive(Debug)]\npub struct "@
            + id.rust_name@ + "Sender"@ + "<T> { transport: T, config: client::SendConfig }\n\n"@
            + "impl<T:Transport>  "@ + id.rust_name@ + "Sender"@ + "<T> { \n"@
            + " pub fn new(config: client::SendConfig, transport: T) -> Self { "@ + id.rust_name@
            + "Sender"@ + "{ transport, config }\n}\n}\n\n"@
            + "#[async_trait]\nimpl<T:Transport + std::marker::Sync + std::marker::Send> "@
            + id.rust_name@ + " for "@ + id.rust_name@ + "Sender"@ + "<T> {\n"@ + "}\n\n"@,
{
    broadcast use group_append;

}

/// A service with one operation more has one method more in its sender, behind
/// the others: `body` is the sender without its end. A method that fails ends the
/// sender.
pub proof fn law_sender_grows(
    shapes: Seq<Shape>,
    id: ShapeRef,
    traits: AppliedTraits,
    service: Service,
    more: Service,
    method: ServiceOperation,
    scope: Option<Seq<char>>,
    support: TypeSupport,
) -> (body: Seq<char>)
    requires
        more.operations@ == service.operations@.push(method),
        service_sender(shapes, id, traits, service, scope, support).error is None,
    ensures
        service_sender(shapes, id, traits, service, scope, support).text == body + "}\n\n"@,
        ({
            let written = service_sender(shapes, id, traits, more, scope, support);
            let part = sender_method(shapes, id, method, scope, support);
            &&& written.error == part.error
            &&& part.error is None ==> written.text == body + part.text + "}\n\n"@
            &&& part.error is Some ==> written.text == body + part.text
        }),
{
    broadcast use group_append;

    let step = sender_step(shapes, id, scope, support);
    assert(more.operations@.drop_last() =~= service.operations@);
    sender_head(id, traits).text + Emission::each(service.operations@, step).text
}

/// A part of a service that fails is the same with an operation more.
pub proof fn law_parts_stop(
    shapes: Seq<Shape>,
    id: ShapeRef,
    traits: AppliedTraits,
    service: Service,
    more: Service,
    method: ServiceOperation,
    scope: Option<Seq<char>>,
    support: TypeSupport,
)
    requires
        more.operations@ == service.operations@.push(method),
    ensures
        service_interface(shapes, id, traits, service, scope, support).error is Some
            ==> service_interface(shapes, id, traits, more, scope, support) == service_interface(
            shapes,
            id,
            traits,
            service,
            scope,
            support,
        ),
        service_receiver(shapes, id, traits, service, scope, support).error is Some
            ==> service_receiver(shapes, id, traits, more, scope, support) == service_receiver(
            shapes,
            id,
            traits,
            service,
            scope,
            support,
        ),
        service_sender(shapes, id, traits, service, scope, support).error is Some
            ==> service_sender(shapes, id, traits, more, scope, support) == service_sender(
            shapes,
            id,
            traits,
            service,
            scope,
            support,
        ),
{
    assert(more.operations@.drop_last() =~= service.operations@);
}

// ---------------------------------------------------------------------------
// All services

/// A service in scope whose parts can be written is its interface, its receiver
/// and its sender, in this order. Where the interface fails, neither of the
/// others is begun.
pub proof fn law_service_parts(
    shapes: Seq<Shape>,
    shape: Shape,
    service: Service,
    scope: Option<Seq<char>>,
    support: TypeSupport,
)
    requires
        shape.body == ShapeKind::Service(service),
        in_scope(shape.shape.id, scope),
    ensures
        ({
            let interface = service_interface(
                shapes,
                shape.shape,
                shape.traits,
                service,
                scope,
                support,
            );
            let receiver = service_receiver(
                shapes,
                shape.shape,
                shape.traits,
                service,
                scope,
                support,
            );
            let sender = service_sender(shapes, shape.shape, shape.traits, service, scope, support);
            let written = service_emission(shapes, shape, scope, support);
            &&& interface.error is None ==> written.error is None && written.text == interface.text
                + receiver.text + sender.text
            &&& interface.error is Some ==> written == interface
        }),
{
    if service_interface(shapes, shape.shape, shape.traits, service, scope, support).error is None {
        super::law_interface_covers(
            shapes,
            shape.shape,
            shape.traits,
            service,
            scope,
            support,
        );
    }
}

/// The services of a model are those in scope, in the order of the model: every
/// other shape could as well not be written, and each service is written as it is
/// on its own.
pub proof fn law_services_in_order(
    shapes: Seq<Shape>,
    shape: Shape,
    scope: Option<Seq<char>>,
    support: TypeSupport,
)
    ensures
        service_step(shapes, scope, support)(shape) == service_emission(
            shapes,
            shape,
            scope,
            support,
        ),
        services(shapes, scope, support) == Emission::each(
            shapes.filter(|s: Shape| s.body is Service && in_scope(s.shape.id, scope)),
            service_step(shapes, scope, support),
        ),
{
    let step = service_step(shapes, scope, support);
    let written = |s: Shape| s.body is Service && in_scope(s.shape.id, scope);
    assert forall|s: Shape| !written(s) implies #[trigger] step(s) == Emission::nothing() by {
        super::law_scope_limits_services(shapes, s, scope, support);
    }
    lemma_each_filtered(shapes, step, written);
}

/// Items whose step does nothing can be left out.
proof fn lemma_each_filtered<A>(
    items: Seq<A>,
    step: spec_fn(A) -> Emission,
    kept: spec_fn(A) -> bool,
)
    requires
        forall|item: A| !kept(item) ==> #[trigger] step(item) == Emission::nothing(),
    ensures
        Emission::each(items, step) == Emission::each(items.filter(kept), step),
    decreases items.len(),
{
    broadcast use group_append;

    if items.len() > 0 {
        let front = items.drop_last();
        lemma_each_filtered(front, step, kept);
        front.lemma_filter_push(items.last(), kept);
        assert(front.push(items.last()) =~= items);
        assert(front.filter(kept).push(items.last()).drop_last() =~= front.filter(kept));
    } else {
        reveal(Seq::filter);
    }
}

} // verus!
