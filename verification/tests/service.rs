use weldgen::codegen::RustCodeGen;
use weldgen::error::CodegenError;
use weldgen::service::get_operation;
use weldgen::smithy::{
    AppliedTrait, AppliedTraits, Model, Operation, Service, ServiceOperation, Shape, ShapeId,
    ShapeKind, ShapeRef, Simple, Value, Wasmbus,
};
use weldgen::text::Writer;

fn id(namespace: &str, name: &str) -> ShapeId {
    ShapeId {
        namespace: namespace.to_string(),
        shape_name: name.to_string(),
        member_name: None,
    }
}

fn named(namespace: &str, name: &str) -> ShapeRef {
    ShapeRef { id: id(namespace, name), rust_name: name.to_string() }
}

fn traits() -> AppliedTraits {
    AppliedTraits {
        applied: vec![],
        codegen_rust: Ok(None),
        serialization: Ok(None),
        wasmbus: Ok(None),
    }
}

fn documented(text: &str) -> AppliedTraits {
    let mut documented = traits();
    documented.applied.push(AppliedTrait {
        id: id("smithy.api", "documentation"),
        value: Some(Value::Text(text.to_string())),
    });
    documented
}

fn operation(input: Option<ShapeRef>, output: Option<ShapeRef>) -> Operation {
    Operation { input, output }
}

fn listed(namespace: &str, name: &str, method_name: &str) -> ServiceOperation {
    ServiceOperation {
        id: id(namespace, name),
        method_name: method_name.to_string(),
        dispatch_name: name.to_string(),
        full_dispatch_name: format!("\"Greeter.{}\"", name),
    }
}

fn operation_shape(namespace: &str, name: &str, op: Operation) -> Shape {
    Shape {
        shape: named(namespace, name),
        traits: traits(),
        body: ShapeKind::Operation(op),
    }
}

fn greet() -> Operation {
    operation(Some(named("smithy.api", "String")), Some(named("com.example", "Greeting")))
}

/// A service with two operations, one of them in another namespace.
fn greeter() -> Model {
    let service = Service {
        operations: vec![
            listed("com.example", "Greet", "greet"),
            listed("com.other", "Stop", "stop"),
        ],
    };
    Model {
        smithy_version: "1.0".to_string(),
        shapes: vec![
            operation_shape("com.example", "Greet", greet()),
            Shape {
                shape: named("com.example", "Greeter"),
                traits: traits(),
                body: ShapeKind::Service(service),
            },
            operation_shape("com.other", "Stop", operation(None, None)),
        ],
    }
}

fn service_of(model: &Model) -> (&ShapeRef, &AppliedTraits, &Service) {
    for shape in &model.shapes {
        if let ShapeKind::Service(service) = &shape.body {
            return (&shape.shape, &shape.traits, service);
        }
    }
    panic!("no service")
}

const INTERFACE: &str = r#"#[async_trait]
pub trait Greeter{
async fn greet(&self, ctx: &context::Context<'_>, arg: &String) -> Result<Greeting, RpcError>;
async fn stop(&self, ctx: &context::Context<'_>) -> Result<(), RpcError>;
}

"#;

const RECEIVER: &str = r#"/// GreeterReceiver receives messages defined in the Greeter service trait
#[async_trait]
pub trait GreeterReceiver : MessageDispatch + Greeter{
            async fn dispatch(
                &self,
                ctx: &context::Context<'_>,
                message: &Message<'_> ) -> Result< Message<'static>, RpcError> {
                match message.method {
        "Greet" => {
let value: String = deserialize(message.arg.as_ref())?;
let resp = Greeter::greet(self, ctx, &value).await?;
let buf = Cow::Owned(serialize(&resp)?);
Ok(Message { method: "Greeter.Greet", arg: buf })},
"Stop" => {
let resp = Greeter::stop(self, ctx).await?;
let buf = Cow::Owned(serialize(&resp)?);
Ok(Message { method: "Greeter.Stop", arg: buf })},
_ => Err(RpcError::MethodNotHandled(format!("Greeter::{}", message.method))),
}
}
}

"#;

const SENDER_HEAD: &str = r#"/// GreeterSender sends messages to a Greeter service
#[derive(Debug)]
pub struct GreeterSender<T> { transport: T, config: client::SendConfig }

impl<T:Transport>  GreeterSender<T> { 
 pub fn new(config: client::SendConfig, transport: T) -> Self { GreeterSender{ transport, config }
}
}

#[async_trait]
impl<T:Transport + std::marker::Sync + std::marker::Send> Greeter for GreeterSender<T> {
"#;

const SENDER_GREET: &str = r#"#[allow(unused)]
async fn greet(&self, ctx: &context::Context<'_>, arg: &String) -> Result<Greeting, RpcError> {
let arg = serialize(arg)?;
let resp = self.transport.send(ctx, &self.config, Message{ method: "Greet", arg: Cow::Borrowed(&arg)}).await?;
let value = deserialize(resp.arg.as_ref())?; Ok(value) }
"#;

const SENDER_STOP: &str = r#"#[allow(unused)]
async fn stop(&self, ctx: &context::Context<'_>) -> Result<(), RpcError> {
let arg = *b"";
let resp = self.transport.send(ctx, &self.config, Message{ method: "Stop", arg: Cow::Borrowed(&arg)}).await?;
Ok(()) }
"#;

fn sender() -> String {
    format!("{}{}{}}}\n\n", SENDER_HEAD, SENDER_GREET, SENDER_STOP)
}

fn scoped(namespace: Option<&str>) -> RustCodeGen {
    let mut generator = RustCodeGen::default();
    assert!(generator.init_file(&namespace.map(|ns| ns.to_string())).is_ok());
    generator
}

#[test]
fn interface() {
    let model = greeter();
    let (id, traits, service) = service_of(&model);
    let mut w = Writer::new();
    assert!(scoped(None).write_service_interface(&mut w, &model, id, traits, service).is_ok());
    assert_eq!(w.as_str(), INTERFACE);
}

#[test]
fn receiver() {
    let model = greeter();
    let (id, traits, service) = service_of(&model);
    let mut w = Writer::new();
    assert!(scoped(None).write_service_receiver(&mut w, &model, id, traits, service).is_ok());
    assert_eq!(w.as_str(), RECEIVER);
}

#[test]
fn sender_of_a_service() {
    let model = greeter();
    let (id, traits, service) = service_of(&model);
    let mut w = Writer::new();
    assert!(scoped(None).write_service_sender(&mut w, &model, id, traits, service).is_ok());
    assert_eq!(w.as_str(), sender());
}

#[test]
fn all_parts_in_order() {
    let mut w = Writer::new();
    assert!(scoped(None).write_services(&mut w, &greeter()).is_ok());
    assert_eq!(w.as_str(), format!("{}{}{}", INTERFACE, RECEIVER, sender()));
}

#[test]
fn a_namespace_limits_operations() {
    let mut w = Writer::new();
    assert!(scoped(Some("com.example")).write_services(&mut w, &greeter()).is_ok());
    let text = w.as_str();
    assert!(text.contains("async fn greet("));
    assert!(text.contains("\"Greet\" => {"));
    assert!(text.contains("method: \"Greet\""));
    assert!(!text.contains("stop"));
    assert!(!text.contains("Stop"));
}

#[test]
fn a_namespace_limits_services() {
    let mut w = Writer::new();
    assert!(scoped(Some("com.other")).write_services(&mut w, &greeter()).is_ok());
    assert_eq!(w.as_str(), "");
}

#[test]
fn other_shapes_are_not_written() {
    let model = Model {
        smithy_version: "1.0".to_string(),
        shapes: vec![
            operation_shape("com.example", "Greet", greet()),
            Shape {
                shape: named("com.example", "Data"),
                traits: traits(),
                body: ShapeKind::Simple(Simple::Blob),
            },
        ],
    };
    let mut w = Writer::new();
    assert!(scoped(None).write_services(&mut w, &model).is_ok());
    assert_eq!(w.as_str(), "");
}

#[test]
fn services_keep_the_order_of_the_model() {
    let empty = |name: &str| Shape {
        shape: named("com.example", name),
        traits: traits(),
        body: ShapeKind::Service(Service { operations: vec![] }),
    };
    let model =
        Model { smithy_version: "1.0".to_string(), shapes: vec![empty("Second"), empty("First")] };
    let mut w = Writer::new();
    assert!(scoped(None).write_services(&mut w, &model).is_ok());
    let text = w.as_str();
    assert!(text.find("trait Second{").unwrap() < text.find("trait First{").unwrap());
}

#[test]
fn wasmbus_documents_the_interface() {
    let mut model = greeter();
    model.shapes[1].traits = documented("Greets.");
    model.shapes[1].traits.wasmbus = Ok(Some(Wasmbus {
        contract_id: Some("example:greeter".to_string()),
        provider_receive: true,
        actor_receive: true,
    }));
    let (id, traits, service) = service_of(&model);
    let mut w = Writer::new();
    assert!(scoped(None).write_service_interface(&mut w, &model, id, traits, service).is_ok());
    let head = "/// Greets.\n/// wasmbus.contractId: example:greeter\n/// wasmbus.providerReceive\n/// wasmbus.actorReceive\n";
    assert_eq!(w.as_str(), format!("{}{}", head, INTERFACE));

    let mut w = Writer::new();
    assert!(scoped(None).write_service_receiver(&mut w, &model, id, traits, service).is_ok());
    assert!(w.as_str().starts_with(
        "/// GreeterReceiver receives messages defined in the Greeter service trait\n/// Greets.\n#[async_trait]\n"
    ));
}

#[test]
fn wasmbus_without_marks() {
    let mut model = greeter();
    model.shapes[1].traits.wasmbus =
        Ok(Some(Wasmbus { contract_id: None, provider_receive: false, actor_receive: false }));
    let (id, traits, service) = service_of(&model);
    let mut w = Writer::new();
    assert!(scoped(None).write_service_interface(&mut w, &model, id, traits, service).is_ok());
    assert_eq!(w.as_str(), INTERFACE);
}

#[test]
fn a_bad_wasmbus_trait_stops_the_interface() {
    let mut model = greeter();
    model.shapes[1].traits = documented("Greets.");
    model.shapes[1].traits.wasmbus = Err(CodegenError::Model("bad".to_string()));
    let mut w = Writer::new();
    let outcome = scoped(None).write_services(&mut w, &model);
    assert!(matches!(outcome, Err(CodegenError::Model(reason)) if reason == "bad"));
    assert_eq!(w.as_str(), "/// Greets.\n");
}

#[test]
fn a_missing_operation_stops_the_services() {
    let mut model = greeter();
    model.shapes.pop();
    let mut w = Writer::new();
    match scoped(None).write_services(&mut w, &model) {
        Err(CodegenError::MissingOperation { namespace, operation, service }) => {
            assert_eq!(namespace, "com.other");
            assert_eq!(operation, "Stop");
            assert_eq!(service, "Greeter");
        }
        _ => panic!("the operation is not defined"),
    }
    assert_eq!(
        w.as_str(),
        "#[async_trait]\npub trait Greeter{\nasync fn greet(&self, ctx: &context::Context<'_>, arg: &String) -> Result<Greeting, RpcError>;\n"
    );
    let mut w = Writer::new();
    assert!(scoped(Some("com.example")).write_services(&mut w, &model).is_ok());
}

#[test]
fn the_interface_decides_whether_a_service_can_be_written() {
    let model = greeter();
    let (id, traits, service) = service_of(&model);
    let generator = scoped(None);
    let mut w = Writer::new();
    assert!(generator.write_service_interface(&mut w, &model, id, traits, service).is_ok());
    assert!(generator.write_service_receiver(&mut w, &model, id, traits, service).is_ok());
    assert!(generator.write_service_sender(&mut w, &model, id, traits, service).is_ok());
    let mut broken = greeter();
    broken.shapes[0].body =
        ShapeKind::Operation(operation(None, Some(named("smithy.api", "Timestamp"))));
    let (id, traits, service) = service_of(&broken);
    let mut w = Writer::new();
    assert!(generator.write_service_interface(&mut w, &broken, id, traits, service).is_err());
    assert!(generator.write_service_receiver(&mut w, &broken, id, traits, service).is_ok());
    assert!(generator.write_service_sender(&mut w, &broken, id, traits, service).is_err());
}

#[test]
fn method_signatures() {
    let write = |op: &Operation, traits: &AppliedTraits| {
        let mut w = Writer::new();
        assert!(scoped(None).write_method_signature(&mut w, "do_it", traits, op).is_ok());
        w.as_str().to_string()
    };
    assert_eq!(
        write(&operation(None, None), &traits()),
        "async fn do_it(&self, ctx: &context::Context<'_>) -> Result<(), RpcError>"
    );
    assert_eq!(
        write(&operation(Some(named("a", "In")), Some(named("a", "Out"))), &documented("Does it.")),
        "/// Does it.\nasync fn do_it(&self, ctx: &context::Context<'_>, arg: &In) -> Result<Out, RpcError>"
    );
}

#[test]
fn a_failed_signature() {
    let mut w = Writer::new();
    let op = operation(Some(named("smithy.api", "Nothing")), None);
    let outcome = scoped(None).write_method_signature(&mut w, "do_it", &traits(), &op);
    assert!(matches!(outcome, Err(CodegenError::UnsupportedType(name)) if name == "Nothing"));
    assert_eq!(w.as_str(), "async fn do_it(&self, ctx: &context::Context<'_>, arg: &");
}

#[test]
fn operations_are_found_by_identity() {
    let model = greeter();
    let service = named("com.example", "Greeter");
    let (op, _) = get_operation(&model, &id("COM.Example", "greet"), &service).unwrap();
    assert!(op.input.is_some());
    let (op, _) = get_operation(&model, &id("com.other", "Stop"), &service).unwrap();
    assert!(op.input.is_none());
    assert!(get_operation(&model, &id("com.other", "Greet"), &service).is_err());
    assert!(get_operation(&model, &id("com.example", "Greeter"), &service).is_err());
}

#[test]
fn the_sender_sends_what_the_receiver_matches() {
    let mut model = greeter();
    if let ShapeKind::Service(service) = &mut model.shapes[1].body {
        service.operations[0].dispatch_name = "example.Hello".to_string();
    }
    let mut w = Writer::new();
    assert!(scoped(None).write_services(&mut w, &model).is_ok());
    let text = w.as_str();
    assert!(text.contains("\"example.Hello\" => {\n"));
    assert!(text.contains("Message{ method: \"example.Hello\", arg: Cow::Borrowed(&arg)}"));
}

#[test]
fn the_sender_implements_the_interface() {
    let mut w = Writer::new();
    assert!(scoped(None).write_services(&mut w, &greeter()).is_ok());
    let signature = "async fn greet(&self, ctx: &context::Context<'_>, arg: &String) -> Result<Greeting, RpcError>";
    assert!(w.as_str().contains(&format!("{};\n", signature)));
    assert!(w.as_str().contains(&format!("#[allow(unused)]\n{} {{\n", signature)));
}
