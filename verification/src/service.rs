//! The interface, the receiver and the sender of a service.

use vstd::prelude::*;
use vstd::string::StringExecFns;

use crate::codegen::{
    comment_text, documentation_text, documentation_traits_text, CommentKind, RustCodeGen,
    TypeSupport,
};
use crate::emission::{
    group_append, lemma_append_twice, lemma_each_next, lemma_each_stops, Emission,
};
use crate::error::{CodegenError, ErrorView};
use crate::smithy::{
    in_scope, same_shape, AppliedTraits, Model, Operation, Service, ServiceOperation, Shape,
    ShapeId, ShapeKind, ShapeRef, Wasmbus,
};
use crate::text::Writer;
use crate::types::{shape_emission, type_emission, Ty};

verus! {

// ---------------------------------------------------------------------------
// What the output says

/// The operation of this identity: the first shape that is an operation and
/// has it.
pub open spec fn operation_named(shapes: Seq<Shape>, id: ShapeId) -> Option<
    (Operation, AppliedTraits),
>
    decreases shapes.len(),
{
    if shapes.len() == 0 {
        None
    } else {
        match shapes[0].body {
            ShapeKind::Operation(operation) if same_shape(shapes[0].shape.id, id) => Some(
                (operation, shapes[0].traits),
            ),
            _ => operation_named(shapes.drop_first(), id),
        }
    }
}

/// The error for an operation that the model does not define.
pub open spec fn missing_operation(id: ShapeId, service: ShapeRef) -> ErrorView {
    ErrorView::MissingOperation {
        namespace: id.namespace@,
        operation: id.shape_name@,
        service: service.id.shape_name@,
    }
}

/// The signature of a method, without a trailing semicolon.
pub open spec fn method_signature(
    method_name: Seq<char>,
    traits: AppliedTraits,
    op: Operation,
    support: TypeSupport,
) -> Emission {
    Emission::text(documentation_traits_text(traits)).say("async fn "@).say(method_name).say(
        "(&self, ctx: &context::Context<'_>"@,
    ).followed_by(
        match op.input {
            Some(input) => Emission::text(", arg: "@).followed_by(
                type_emission(Ty::Ref(&input), support),
            ),
            None => Emission::nothing(),
        },
    ).say(") -> Result<"@).followed_by(
        match op.output {
            Some(output) => shape_emission(output, support),
            None => Emission::text("()"@),
        },
    ).say(", RpcError>"@)
}

/// What the `wasmbus` trait documents of a service.
pub open spec fn wasmbus_documentation(wasmbus: Option<Wasmbus>) -> Seq<char> {
    match wasmbus {
        None => Seq::empty(),
        Some(wb) => (match wb.contract_id {
            Some(contract) => documentation_text("wasmbus.contractId: "@ + contract@),
            None => Seq::empty(),
        }) + (if wb.provider_receive {
            documentation_text("wasmbus.providerReceive"@)
        } else {
            Seq::empty()
        }) + (if wb.actor_receive {
            documentation_text("wasmbus.actorReceive"@)
        } else {
            Seq::empty()
        }),
    }
}

/// The method of the interface for an operation; nothing for an operation that
/// is out of scope.
pub open spec fn interface_method(
    shapes: Seq<Shape>,
    service: ShapeRef,
    method: ServiceOperation,
    scope: Option<Seq<char>>,
    support: TypeSupport,
) -> Emission {
    if !in_scope(method.id, scope) {
        Emission::nothing()
    } else {
        match operation_named(shapes, method.id) {
            None => Emission::fail(missing_operation(method.id, service)),
            Some((op, traits)) => method_signature(
                method.method_name@,
                traits,
                op,
                support,
            ).say(";\n"@),
        }
    }
}

/// The step that writes a method of the interface.
pub open spec fn interface_step(
    shapes: Seq<Shape>,
    service: ShapeRef,
    scope: Option<Seq<char>>,
    support: TypeSupport,
) -> spec_fn(ServiceOperation) -> Emission {
    |method: ServiceOperation| interface_method(shapes, service, method, scope, support)
}

/// The beginning of the interface, up to its methods.
pub open spec fn interface_head(
    id: ShapeRef,
    traits: AppliedTraits,
    wasmbus: Option<Wasmbus>,
) -> Emission {
    Emission::text(documentation_traits_text(traits)).say(wasmbus_documentation(wasmbus)).say(
        "#[async_trait]\npub trait "@,
    ).say(id.rust_name@).say("{\n"@)
}

/// The service as a rust Trait whose methods are the smithy service operations
pub open spec fn service_interface(
    shapes: Seq<Shape>,
    id: ShapeRef,
    traits: AppliedTraits,
    service: Service,
    scope: Option<Seq<char>>,
    support: TypeSupport,
) -> Emission {
    match traits.wasmbus {
        Err(error) => Emission::text(documentation_traits_text(traits)).followed_by(
            Emission::fail(error@),
        ),
        Ok(wasmbus) => interface_head(id, traits, wasmbus).followed_by(
            Emission::each(service.operations@, interface_step(shapes, id, scope, support)),
        ).say("}\n\n"@),
    }
}

/// The part of the dispatcher that handles an operation.
pub open spec fn dispatch_arm(
    service: ShapeRef,
    method: ServiceOperation,
    op: Operation,
    support: TypeSupport,
) -> Emission {
    Emission::text("\""@).say(method.dispatch_name@).say("\" => {\n"@).followed_by(
        match op.input {
            Some(input) => Emission::text("let value: "@).followed_by(
                shape_emission(input, support),
            ).say(" = deserialize(message.arg.as_ref())?;\n"@),
            None => Emission::nothing(),
        },
    ).say("let resp = "@).say(service.rust_name@).say("::"@).say(method.method_name@).say(
        "(self, ctx"@,
    ).say(
        if op.input is Some {
            ", &value"@
        } else {
            Seq::empty()
        },
    ).say(").await?;\n"@).say("let buf = Cow::Owned(serialize(&resp)?);\n"@).say(
        "Ok(Message { method: "@,
    ).say(method.full_dispatch_name@).say(", arg: buf })},\n"@)
}

/// The part of the dispatcher for an operation of the service; nothing for an
/// operation that is out of scope.
pub open spec fn receiver_method(
    shapes: Seq<Shape>,
    service: ShapeRef,
    method: ServiceOperation,
    scope: Option<Seq<char>>,
    support: TypeSupport,
) -> Emission {
    if !in_scope(method.id, scope) {
        Emission::nothing()
    } else {
        match operation_named(shapes, method.id) {
            None => Emission::fail(missing_operation(method.id, service)),
            Some((op, _)) => dispatch_arm(service, method, op, support),
        }
    }
}

/// The step that writes a part of the dispatcher.
pub open spec fn receiver_step(
    shapes: Seq<Shape>,
    service: ShapeRef,
    scope: Option<Seq<char>>,
    support: TypeSupport,
) -> spec_fn(ServiceOperation) -> Emission {
    |method: ServiceOperation| receiver_method(shapes, service, method, scope, support)
}

/// The beginning of the receiver, up to the operations that it dispatches to.
pub open spec fn receiver_head(id: ShapeRef, traits: AppliedTraits) -> Emission {
    Emission::text(
        comment_text(
            CommentKind::Documentation,
            id.id.shape_name@ + "Receiver receives messages defined in the "@ + id.id.shape_name@
                + " service trait"@,
        ),
    ).say(documentation_traits_text(traits)).say("#[async_trait]\npub trait "@).say(
        id.rust_name@ + "Receiver"@,
    ).say(" : MessageDispatch + "@).say(id.rust_name@).say(
        "{\n            async fn dispatch(\n                &self,\n                ctx: &context::Context<'_>,\n                message: &Message<'_> ) -> Result< Message<'static>, RpcError> {\n                match message.method {\n        "@,
    )
}

/// pub trait FooReceiver : MessageDispatch + Foo { ... }
pub open spec fn service_receiver(
    shapes: Seq<Shape>,
    id: ShapeRef,
    traits: AppliedTraits,
    service: Service,
    scope: Option<Seq<char>>,
    support: TypeSupport,
) -> Emission {
    receiver_head(id, traits).followed_by(
        Emission::each(service.operations@, receiver_step(shapes, id, scope, support)),
    ).say("_ => Err(RpcError::MethodNotHandled(format!(\""@).say(id.rust_name@).say(
        "::{}\", message.method))),\n"@,
    ).say("}\n}\n}\n\n"@)
}

/// The method of the sender for an operation.
pub open spec fn send_method(
    method: ServiceOperation,
    traits: AppliedTraits,
    op: Operation,
    support: TypeSupport,
) -> Emission {
    Emission::text("#[allow(unused)]\n"@).followed_by(
        method_signature(method.method_name@, traits, op, support),
    ).say(" {\n"@).say(
        if op.input is Some {
            "let arg = serialize(arg)?;\n"@
        } else {
            "let arg = *b\"\";\n"@
        },
    ).say("let resp = self.transport.send(ctx, &self.config, Message{ method: "@).say("\""@).say(
        method.dispatch_name@,
    ).say("\", arg: Cow::Borrowed(&arg)}).await?;\n"@).say(
        if op.output is Some {
            "let value = deserialize(resp.arg.as_ref())?; Ok(value)"@
        } else {
            "Ok(())"@
        },
    ).say(" }\n"@)
}

/// The method of the sender for an operation of the service; nothing for an
/// operation that is out of scope.
pub open spec fn sender_method(
    shapes: Seq<Shape>,
    service: ShapeRef,
    method: ServiceOperation,
    scope: Option<Seq<char>>,
    support: TypeSupport,
) -> Emission {
    if !in_scope(method.id, scope) {
        Emission::nothing()
    } else {
        match operation_named(shapes, method.id) {
            None => Emission::fail(missing_operation(method.id, service)),
            Some((op, traits)) => send_method(method, traits, op, support),
        }
    }
}

/// The step that writes a method of the sender.
pub open spec fn sender_step(
    shapes: Seq<Shape>,
    service: ShapeRef,
    scope: Option<Seq<char>>,
    support: TypeSupport,
) -> spec_fn(ServiceOperation) -> Emission {
    |method: ServiceOperation| sender_method(shapes, service, method, scope, support)
}

/// The sender's structure and constructor, and the beginning of its methods.
pub open spec fn sender_head(id: ShapeRef, traits: AppliedTraits) -> Emission {
    let sender = id.rust_name@ + "Sender"@;
    Emission::text(
        comment_text(
            CommentKind::Documentation,
            id.id.shape_name@ + "Sender sends messages to a "@ + id.id.shape_name@ + " service"@,
        ),
    ).say(documentation_traits_text(traits)).say("#[derive(Debug)]\npub struct "@).say(sender).say(
        "<T> { transport: T, config: client::SendConfig }\n\n"@,
    ).say("impl<T:Transport>  "@).say(sender).say("<T> { \n"@).say(
        " pub fn new(config: client::SendConfig, transport: T) -> Self { "@,
    ).say(sender).say("{ transport, config }\n}\n}\n\n"@).say(
        "#[async_trait]\nimpl<T:Transport + std::marker::Sync + std::marker::Send> "@,
    ).say(id.rust_name@).say(" for "@).say(sender).say("<T> {\n"@)
}

/// pub struct FooSender{ ... }
pub open spec fn service_sender(
    shapes: Seq<Shape>,
    id: ShapeRef,
    traits: AppliedTraits,
    service: Service,
    scope: Option<Seq<char>>,
    support: TypeSupport,
) -> Emission {
    sender_head(id, traits).followed_by(
        Emission::each(service.operations@, sender_step(shapes, id, scope, support)),
    ).say("}\n\n"@)
}

/// The interface, the receiver and the sender of a service; nothing for another
/// shape, or for a service that is out of scope.
pub open spec fn service_emission(
    shapes: Seq<Shape>,
    shape: Shape,
    scope: Option<Seq<char>>,
    support: TypeSupport,
) -> Emission {
    match shape.body {
        ShapeKind::Service(service) if in_scope(shape.shape.id, scope) => service_interface(
            shapes,
            shape.shape,
            shape.traits,
            service,
            scope,
            support,
        ).followed_by(
            service_receiver(shapes, shape.shape, shape.traits, service, scope, support),
        ).followed_by(
            service_sender(shapes, shape.shape, shape.traits, service, scope, support),
        ),
        _ => Emission::nothing(),
    }
}

/// The step that writes a service.
pub open spec fn service_step(
    shapes: Seq<Shape>,
    scope: Option<Seq<char>>,
    support: TypeSupport,
) -> spec_fn(Shape) -> Emission {
    |shape: Shape| service_emission(shapes, shape, scope, support)
}

/// The services in scope, in the order of the model.
pub open spec fn services(
    shapes: Seq<Shape>,
    scope: Option<Seq<char>>,
    support: TypeSupport,
) -> Emission {
    Emission::each(shapes, service_step(shapes, scope, support))
}

// ---------------------------------------------------------------------------
// Writing it

/// The operation that a service lists, with the traits applied to it.
pub fn get_operation<'model>(
    model: &'model Model,
    operation_id: &ShapeId,
    service: &ShapeRef,
) -> (found: Result<(&'model Operation, &'model AppliedTraits), CodegenError>)
    ensures
        match found {
            Ok((op, traits)) => operation_named(model.shapes@, *operation_id) == Some(
                (*op, *traits),
            ),
            Err(e) => {
                &&& operation_named(model.shapes@, *operation_id) is None
                &&& e@ == missing_operation(*operation_id, *service)
            },
        },
{
    let mut i: usize = 0;
    assert(model.shapes@.skip(0) =~= model.shapes@);
    while i < model.shapes.len()
        invariant
            i <= model.shapes@.len(),
            operation_named(model.shapes@, *operation_id) == operation_named(
                model.shapes@.skip(i as int),
                *operation_id,
            ),
        decreases model.shapes@.len() - i,
    {
        let shape = &model.shapes[i];
        assert(model.shapes@.skip(i as int).drop_first() =~= model.shapes@.skip(i + 1));
        if let ShapeKind::Operation(operation) = &shape.body {
            if shape.shape.id.is_same(operation_id) {
                return Ok((operation, &shape.traits));
            }
        }
        i = i + 1;
    }
    Err(
        CodegenError::MissingOperation {
            namespace: operation_id.namespace.clone(),
            operation: operation_id.shape_name.clone(),
            service: service.id.shape_name.clone(),
        },
    )
}

impl RustCodeGen {
    /// write trait function declaration "async fn method(args) -> Result< return_type, RpcError >"
    /// does not write trailing semicolon so this can be used for declaration and implementation
    pub fn write_method_signature(
        &self,
        w: &mut Writer,
        method_name: &str,
        method_traits: &AppliedTraits,
        op: &Operation,
    ) -> (outcome: Result<(), CodegenError>)
        ensures
            method_signature(method_name@, *method_traits, *op, self.types()).takes(
                old(w)@,
                final(w)@,
                outcome,
            ),
    {
        broadcast use group_append;

        self.apply_documentation_traits(w, method_traits);
        w.write("async fn ");
        w.write(method_name);
        w.write("(&self, ctx: &context::Context<'_>");
        if let Some(input_type) = &op.input {
            w.write(", arg: ");  // pass arg by reference
            match self.write_type(w, Ty::Ref(input_type)) {
                Ok(()) => {},
                Err(e) => {
                    return Err(e);
                },
            }
        }
        w.write(") -> Result<");
        if let Some(output_type) = &op.output {
            match self.write_type(w, Ty::Shape(output_type)) {
                Ok(()) => {},
                Err(e) => {
                    return Err(e);
                },
            }
        } else {
            w.write("()");
        }
        w.write(", RpcError>");
        Ok(())
    }

    /// Writes the method of the interface for an operation.
    fn write_interface_method(
        &self,
        w: &mut Writer,
        model: &Model,
        service_id: &ShapeRef,
        method: &ServiceOperation,
    ) -> (outcome: Result<(), CodegenError>)
        ensures
            interface_method(
                model.shapes@,
                *service_id,
                *method,
                self.scope(),
                self.types(),
            ).takes(old(w)@, final(w)@, outcome),
    {
        broadcast use group_append;

        // we don't add operations defined in another namespace
        if self.is_out_of_scope(&method.id) {
            return Ok(());
        }
        let (op, op_traits) = match get_operation(model, &method.id, service_id) {
            Ok(found) => found,
            Err(e) => {
                return Err(e);
            },
        };
        match self.write_method_signature(w, method.method_name.as_str(), op_traits, op) {
            Ok(()) => {},
            Err(e) => {
                return Err(e);
            },
        }
        w.write(";\n");
        Ok(())
    }

    /// Writes the methods of the interface.
    fn write_interface_methods(
        &self,
        w: &mut Writer,
        model: &Model,
        service_id: &ShapeRef,
        operations: &Vec<ServiceOperation>,
    ) -> (outcome: Result<(), CodegenError>)
        ensures
            Emission::each(
                operations@,
                interface_step(model.shapes@, *service_id, self.scope(), self.types()),
            ).takes(old(w)@, final(w)@, outcome),
    {
        let ghost before = w@;
        let ghost step = interface_step(model.shapes@, *service_id, self.scope(), self.types());
        let mut i: usize = 0;
        while i < operations.len()
            invariant
                i <= operations@.len(),
                step == interface_step(model.shapes@, *service_id, self.scope(), self.types()),
                before == old(w)@,
                w@ == before + Emission::each(operations@.take(i as int), step).text,
                Emission::each(operations@.take(i as int), step).error is None,
            decreases operations@.len() - i,
        {
            proof {
                lemma_each_next(operations@, step, i as int);
                lemma_append_twice(
                    before,
                    Emission::each(operations@.take(i as int), step).text,
                    step(operations@[i as int]).text,
                );
            }
            match self.write_interface_method(w, model, service_id, &operations[i]) {
                Ok(()) => {},
                Err(e) => {
                    proof {
                        lemma_each_stops(operations@, step, i + 1);
                    }
                    return Err(e);
                },
            }
            i = i + 1;
        }
        assert(operations@.take(i as int) =~= operations@);
        Ok(())
    }

    /// Declares the service as a rust Trait whose methods are the smithy service operations
    pub fn write_service_interface(
        &self,
        w: &mut Writer,
        model: &Model,
        service_id: &ShapeRef,
        service_traits: &AppliedTraits,
        service: &Service,
    ) -> (outcome: Result<(), CodegenError>)
        ensures
            service_interface(
                model.shapes@,
                *service_id,
                *service_traits,
                *service,
                self.scope(),
                self.types(),
            ).takes(old(w)@, final(w)@, outcome),
    {
        broadcast use group_append;

        self.apply_documentation_traits(w, service_traits);
        match &service_traits.wasmbus {
            Err(e) => {
                return Err(e.clone());
            },
            Ok(Some(wb)) => {
                if let Some(contract) = &wb.contract_id {
                    let mut text = "wasmbus.contractId: ".to_owned();
                    text.append(contract.as_str());
                    self.write_documentation(w, text.as_str());
                }
                if wb.provider_receive {
                    self.write_documentation(w, "wasmbus.providerReceive");
                }
                if wb.actor_receive {
                    self.write_documentation(w, "wasmbus.actorReceive");
                }
            },
            Ok(None) => {},
        }
        w.write("#[async_trait]\npub trait ");
        self.write_ident(w, service_id);
        w.write("{\n");
        match self.write_interface_methods(w, model, service_id, &service.operations) {
            Ok(()) => {},
            Err(e) => {
                return Err(e);
            },
        }
        w.write("}\n\n");
        Ok(())
    }

    /// Writes the part of the dispatcher that handles an operation.
    fn write_dispatch_arm(
        &self,
        w: &mut Writer,
        model: &Model,
        service_id: &ShapeRef,
        method: &ServiceOperation,
    ) -> (outcome: Result<(), CodegenError>)
        ensures
            receiver_method(
                model.shapes@,
                *service_id,
                *method,
                self.scope(),
                self.types(),
            ).takes(old(w)@, final(w)@, outcome),
    {
        broadcast use group_append;

        // we don't add operations defined in another namespace
        if self.is_out_of_scope(&method.id) {
            return Ok(());
        }
        let (op, _) = match get_operation(model, &method.id, service_id) {
            Ok(found) => found,
            Err(e) => {
                return Err(e);
            },
        };
        w.write("\"");
        w.write(method.dispatch_name.as_str());
        w.write("\" => {\n");
        if let Some(input) = &op.input {
            // let value : InputType = deserialize(...)?;
            w.write("let value: ");
            match self.write_type(w, Ty::Shape(input)) {
                Ok(()) => {},
                Err(e) => {
                    return Err(e);
                },
            }
            w.write(" = deserialize(message.arg.as_ref())?;\n");
        }

        // let resp = Trait::method(self, ctx, &value).await?;
        w.write("let resp = ");
        self.write_ident(w, service_id);  // Service::method
        w.write("::");
        w.write(method.method_name.as_str());
        w.write("(self, ctx");
        if op.input.is_some() {
            w.write(", &value");
        }
        w.write(").await?;\n");
        // serialize result
        w.write("let buf = Cow::Owned(serialize(&resp)?);\n");
        w.write("Ok(Message { method: ");
        w.write(method.full_dispatch_name.as_str());
        w.write(", arg: buf })},\n");
        Ok(())
    }

    /// Writes the parts of the dispatcher.
    fn write_dispatch_arms(
        &self,
        w: &mut Writer,
        model: &Model,
        service_id: &ShapeRef,
        operations: &Vec<ServiceOperation>,
    ) -> (outcome: Result<(), CodegenError>)
        ensures
            Emission::each(
                operations@,
                receiver_step(model.shapes@, *service_id, self.scope(), self.types()),
            ).takes(old(w)@, final(w)@, outcome),
    {
        let ghost before = w@;
        let ghost step = receiver_step(model.shapes@, *service_id, self.scope(), self.types());
        let mut i: usize = 0;
        while i < operations.len()
            invariant
                i <= operations@.len(),
                step == receiver_step(model.shapes@, *service_id, self.scope(), self.types()),
                before == old(w)@,
                w@ == before + Emission::each(operations@.take(i as int), step).text,
                Emission::each(operations@.take(i as int), step).error is None,
            decreases operations@.len() - i,
        {
            proof {
                lemma_each_next(operations@, step, i as int);
                lemma_append_twice(
                    before,
                    Emission::each(operations@.take(i as int), step).text,
                    step(operations@[i as int]).text,
                );
            }
            match self.write_dispatch_arm(w, model, service_id, &operations[i]) {
                Ok(()) => {},
                Err(e) => {
                    proof {
                        lemma_each_stops(operations@, step, i + 1);
                    }
                    return Err(e);
                },
            }
            i = i + 1;
        }
        assert(operations@.take(i as int) =~= operations@);
        Ok(())
    }

    /// pub trait FooReceiver : MessageDispatch + Foo { ... }
    pub fn write_service_receiver(
        &self,
        w: &mut Writer,
        model: &Model,
        service_id: &ShapeRef,
        service_traits: &AppliedTraits,
        service: &Service,
    ) -> (outcome: Result<(), CodegenError>)
        ensures
            service_receiver(
                model.shapes@,
                *service_id,
                *service_traits,
                *service,
                self.scope(),
                self.types(),
            ).takes(old(w)@, final(w)@, outcome),
    {
        broadcast use group_append;

        let mut doc = service_id.id.shape_name.clone();
        doc.append("Receiver receives messages defined in the ");
        doc.append(service_id.id.shape_name.as_str());
        doc.append(" service trait");
        self.write_comment(w, CommentKind::Documentation, doc.as_str());
        self.apply_documentation_traits(w, service_traits);
        w.write("#[async_trait]\npub trait ");
        match self.write_ident_with_suffix(w, service_id, "Receiver") {
            Ok(()) => {},
            Err(e) => {
                return Err(e);
            },
        }
        w.write(" : MessageDispatch + ");
        self.write_ident(w, service_id);
        w.write("{\n            async fn dispatch(\n                &self,\n                ctx: &context::Context<'_>,\n                message: &Message<'_> ) -> Result< Message<'static>, RpcError> {\n                match message.method {\n        ");
        match self.write_dispatch_arms(w, model, service_id, &service.operations) {
            Ok(()) => {},
            Err(e) => {
                return Err(e);
            },
        }
        w.write("_ => Err(RpcError::MethodNotHandled(format!(\"");
        self.write_ident(w, service_id);
        w.write("::{}\", message.method))),\n");
        w.write("}\n}\n}\n\n");  // end match, end fn dispatch, end trait
        Ok(())
    }

    /// Writes the method of the sender for an operation.
    fn write_sender_method(
        &self,
        w: &mut Writer,
        model: &Model,
        service_id: &ShapeRef,
        method: &ServiceOperation,
    ) -> (outcome: Result<(), CodegenError>)
        ensures
            sender_method(
                model.shapes@,
                *service_id,
                *method,
                self.scope(),
                self.types(),
            ).takes(old(w)@, final(w)@, outcome),
    {
        broadcast use group_append;

        // we don't add operations defined in another namespace
        if self.is_out_of_scope(&method.id) {
            return Ok(());
        }
        let (op, op_traits) = match get_operation(model, &method.id, service_id) {
            Ok(found) => found,
            Err(e) => {
                return Err(e);
            },
        };
        w.write("#[allow(unused)]\n");
        match self.write_method_signature(w, method.method_name.as_str(), op_traits, op) {
            Ok(()) => {},
            Err(e) => {
                return Err(e);
            },
        }
        w.write(" {\n");
        if op.input.is_some() {
            w.write("let arg = serialize(arg)?;\n");
        } else {
            w.write("let arg = *b\"\";\n");
        }
        w.write("let resp = self.transport.send(ctx, &self.config, Message{ method: ");
        // note: legacy is just the latter part
        w.write("\"");
        w.write(method.dispatch_name.as_str());
        w.write("\", arg: Cow::Borrowed(&arg)}).await?;\n");
        if op.output.is_some() {
            w.write("let value = deserialize(resp.arg.as_ref())?; Ok(value)");
        } else {
            w.write("Ok(())");
        }
        w.write(" }\n");
        Ok(())
    }

    /// Writes the methods of the sender.
    fn write_sender_methods(
        &self,
        w: &mut Writer,
        model: &Model,
        service_id: &ShapeRef,
        operations: &Vec<ServiceOperation>,
    ) -> (outcome: Result<(), CodegenError>)
        ensures
            Emission::each(
                operations@,
                sender_step(model.shapes@, *service_id, self.scope(), self.types()),
            ).takes(old(w)@, final(w)@, outcome),
    {
        let ghost before = w@;
        let ghost step = sender_step(model.shapes@, *service_id, self.scope(), self.types());
        let mut i: usize = 0;
        while i < operations.len()
            invariant
                i <= operations@.len(),
                step == sender_step(model.shapes@, *service_id, self.scope(), self.types()),
                before == old(w)@,
                w@ == before + Emission::each(operations@.take(i as int), step).text,
                Emission::each(operations@.take(i as int), step).error is None,
            decreases operations@.len() - i,
        {
            proof {
                lemma_each_next(operations@, step, i as int);
                lemma_append_twice(
                    before,
                    Emission::each(operations@.take(i as int), step).text,
                    step(operations@[i as int]).text,
                );
            }
            match self.write_sender_method(w, model, service_id, &operations[i]) {
                Ok(()) => {},
                Err(e) => {
                    proof {
                        lemma_each_stops(operations@, step, i + 1);
                    }
                    return Err(e);
                },
            }
            i = i + 1;
        }
        assert(operations@.take(i as int) =~= operations@);
        Ok(())
    }

    /// writes the service sender struct and constructor
    pub fn write_service_sender(
        &self,
        w: &mut Writer,
        model: &Model,
        service_id: &ShapeRef,
        service_traits: &AppliedTraits,
        service: &Service,
    ) -> (outcome: Result<(), CodegenError>)
        ensures
            service_sender(
                model.shapes@,
                *service_id,
                *service_traits,
                *service,
                self.scope(),
                self.types(),
            ).takes(old(w)@, final(w)@, outcome),
    {
        broadcast use group_append;

        let mut doc = service_id.id.shape_name.clone();
        doc.append("Sender sends messages to a ");
        doc.append(service_id.id.shape_name.as_str());
        doc.append(" service");
        self.write_comment(w, CommentKind::Documentation, doc.as_str());
        self.apply_documentation_traits(w, service_traits);
        w.write("#[derive(Debug)]\npub struct ");
        match self.write_ident_with_suffix(w, service_id, "Sender") {
            Ok(()) => {},
            Err(e) => {
                return Err(e);
            },
        }
        w.write("<T> { transport: T, config: client::SendConfig }\n\n");

        // implement constructor for TraitClient
        w.write("impl<T:Transport>  ");
        match self.write_ident_with_suffix(w, service_id, "Sender") {
            Ok(()) => {},
            Err(e) => {
                return Err(e);
            },
        }
        w.write("<T> { \n");
        w.write(" pub fn new(config: client::SendConfig, transport: T) -> Self { ");
        match self.write_ident_with_suffix(w, service_id, "Sender") {
            Ok(()) => {},
            Err(e) => {
                return Err(e);
            },
        }
        w.write("{ transport, config }\n}\n}\n\n");

        // implement Trait for TraitSender
        w.write("#[async_trait]\nimpl<T:Transport + std::marker::Sync + std::marker::Send> ");
        self.write_ident(w, service_id);
        w.write(" for ");
        match self.write_ident_with_suffix(w, service_id, "Sender") {
            Ok(()) => {},
            Err(e) => {
                return Err(e);
            },
        }
        w.write("<T> {\n");
        match self.write_sender_methods(w, model, service_id, &service.operations) {
            Ok(()) => {},
            Err(e) => {
                return Err(e);
            },
        }
        w.write("}\n\n");
        Ok(())
    }

    /// Writes the services in scope, in the order of the model.
    pub fn write_services(&self, w: &mut Writer, model: &Model) -> (outcome: Result<
        (),
        CodegenError,
    >)
        ensures
            services(model.shapes@, self.scope(), self.types()).takes(
                old(w)@,
                final(w)@,
                outcome,
            ),
    {
        let ghost before = w@;
        let ghost step = service_step(model.shapes@, self.scope(), self.types());
        let mut i: usize = 0;
        while i < model.shapes.len()
            invariant
                i <= model.shapes@.len(),
                step == service_step(model.shapes@, self.scope(), self.types()),
                before == old(w)@,
                w@ == before + Emission::each(model.shapes@.take(i as int), step).text,
                Emission::each(model.shapes@.take(i as int), step).error is None,
            decreases model.shapes@.len() - i,
        {
            proof {
                lemma_each_next(model.shapes@, step, i as int);
                lemma_append_twice(
                    before,
                    Emission::each(model.shapes@.take(i as int), step).text,
                    step(model.shapes@[i as int]).text,
                );
            }
            match self.write_service(w, model, &model.shapes[i]) {
                Ok(()) => {},
                Err(e) => {
                    proof {
                        lemma_each_stops(model.shapes@, step, i + 1);
                    }
                    return Err(e);
                },
            }
            i = i + 1;
        }
        assert(model.shapes@.take(i as int) =~= model.shapes@);
        Ok(())
    }

    /// Writes a service; nothing for another shape, or out of scope.
    fn write_service(&self, w: &mut Writer, model: &Model, shape: &Shape) -> (outcome: Result<
        (),
        CodegenError,
    >)
        ensures
            service_emission(model.shapes@, *shape, self.scope(), self.types()).takes(
                old(w)@,
                final(w)@,
                outcome,
            ),
    {
        if self.is_out_of_scope(&shape.shape.id) {
            return Ok(());
        }
        if let ShapeKind::Service(service) = &shape.body {
            proof {
                let before = w@;
                let interface = service_interface(
                    model.shapes@,
                    shape.shape,
                    shape.traits,
                    *service,
                    self.scope(),
                    self.types(),
                ).text;
                let receiver = service_receiver(
                    model.shapes@,
                    shape.shape,
                    shape.traits,
                    *service,
                    self.scope(),
                    self.types(),
                ).text;
                let sender = service_sender(
                    model.shapes@,
                    shape.shape,
                    shape.traits,
                    *service,
                    self.scope(),
                    self.types(),
                ).text;
                lemma_append_twice(before, interface, receiver);
                lemma_append_twice(before, interface + receiver, sender);
            }
            match self.write_service_interface(w, model, &shape.shape, &shape.traits, service) {
                Ok(()) => {},
                Err(e) => {
                    return Err(e);
                },
            }
            match self.write_service_receiver(w, model, &shape.shape, &shape.traits, service) {
                Ok(()) => {},
                Err(e) => {
                    return Err(e);
                },
            }
            match self.write_service_sender(w, model, &shape.shape, &shape.traits, service) {
                Ok(()) => {},
                Err(e) => {
                    return Err(e);
                },
            }
        }
        Ok(())
    }
}

} // verus!
