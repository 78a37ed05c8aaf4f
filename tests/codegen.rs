use rotors::client::generate_method;
use rotors::descriptor::{CallShape, Descriptor, Method};
use rotors::naming::{
    client_mod_ident, client_type_ident, method_ident, route, server_mod_ident, server_type_ident,
    service_fullpath, stream_type_ident, trait_ident,
};
use rotors::parse::{Expected, SchemaError};
use rotors::server::generate_server_route;
use rotors::{generate_client_mod, generate_server_mod, rotors};

const ECHO: &str = "package demo; service Echo { rpc Say(Req) returns (Resp); rpc Stream(Req) returns (stream Resp); }";

fn compile(src: &str) -> String {
    rotors(src).unwrap()
}

fn method(name: &str, client_streaming: bool, server_streaming: bool) -> Method {
    Method {
        name: name.to_string(),
        input_type: "In".to_string(),
        output_type: "Out".to_string(),
        client_streaming,
        server_streaming,
    }
}

#[test]
fn echo_schema_compiles_to_both_bindings() {
    let text = compile(ECHO);
    assert!(text.contains("pub mod echo_client {"));
    assert!(text.contains("pub struct EchoClient<T> {"));
    assert!(text.contains("pub async fn say(\n        &mut self,\n        request: impl tonic::IntoRequest<Req>,\n    ) -> tonic::Result<tonic::Response<Resp>> {"));
    assert!(text.contains("pub async fn stream(\n        &mut self,\n        request: impl tonic::IntoRequest<Req>,\n    ) -> tonic::Result<tonic::Response<tonic::codec::Streaming<Resp>>> {"));
    assert!(text.contains("pub mod echo_server {"));
    assert!(text.contains("pub trait Echo: Send + Sync + 'static {"));
    assert!(text.contains("        async fn say(\n            &self,\n            request: tonic::Request<Req>,\n        ) -> tonic::Result<tonic::Response<Resp>>;"));
    assert!(text.contains("        type StreamStream: futures_core::Stream<Item = Resp>;"));
    assert!(text.contains("        async fn stream(\n            &self,\n            request: tonic::Request<Req>,\n        ) -> tonic::Result<tonic::Response<Self::StreamStream>>;"));
    assert!(text.contains("PathAndQuery::from_static(\"/demo.Echo/Say\")"));
    assert!(text.contains("PathAndQuery::from_static(\"/demo.Echo/Stream\")"));
    assert!(text.contains("                \"/demo.Echo/Say\" => {"));
    assert!(text.contains("                \"/demo.Echo/Stream\" => {"));
    assert!(text.contains("const NAME: &'static str = \"demo.Echo\";"));
    // all clients come before all servers
    assert!(text.find("pub mod echo_client").unwrap() < text.find("pub mod echo_server").unwrap());
}

#[test]
fn compiled_bindings_are_valid_rust() {
    let text = compile(
        "package grpc.examples.echo;
         service Echo {
            rpc UnaryEcho(super::EchoRequest) returns (super::EchoResponse);
            rpc ServerStreamingEcho(super::EchoRequest) returns (stream super::EchoResponse);
            rpc ClientStreamingEcho(stream super::EchoRequest) returns (super::EchoResponse);
            rpc BidirectionalStreamingEcho(stream super::EchoRequest) returns (stream super::EchoResponse);
         }
         service Greeter { rpc SayHello (super::HelloRequest) returns (super::HelloReply); }",
    );
    let file = syn::parse_file(&text).expect("bindings parse as Rust");
    assert_eq!(file.items.len(), 4);
}

#[test]
fn route_keeps_declared_method_name() {
    let text = compile("package grpc.examples.echo; service Echo { rpc UnaryEcho(A) returns (B); }");
    assert!(text.contains("\"/grpc.examples.echo.Echo/UnaryEcho\""));
    assert!(text.contains("pub async fn unary_echo("));
    assert!(text.contains("GrpcMethod::new(\"grpc.examples.echo.Echo\", \"UnaryEcho\")"));
    assert_eq!(route("grpc.examples.echo", "Echo", "UnaryEcho"), "/grpc.examples.echo.Echo/UnaryEcho");
}

#[test]
fn differently_cased_names_share_identifier_not_route() {
    assert_eq!(route("p", "S", "GetItem"), "/p.S/GetItem");
    assert_eq!(route("p", "S", "get_item"), "/p.S/get_item");
    assert_eq!(method_ident("GetItem"), method_ident("get_item"));
}

fn client_call(cs: bool, ss: bool) -> String {
    generate_method("p", "S", &method("Go", cs, ss))
}

fn server_arm(cs: bool, ss: bool) -> String {
    generate_server_route("S", "p", "S", &method("Go", cs, ss))
}

#[test]
fn unary_shape_in_both_bindings() {
    assert_eq!(method("Go", false, false).shape(), CallShape::Unary);
    assert!(client_call(false, false).contains("self.inner.unary(req, path, codec).await"));
    assert!(client_call(false, false).contains("request.into_request()"));
    assert!(server_arm(false, false).contains("tonic::server::UnaryService<In> for Svc<T>"));
    assert!(server_arm(false, false).contains("grpc.unary(method, req)"));
}

#[test]
fn server_streaming_shape_in_both_bindings() {
    assert_eq!(method("Go", false, true).shape(), CallShape::ServerStreaming);
    assert!(client_call(false, true).contains("self.inner.server_streaming(req, path, codec).await"));
    assert!(client_call(false, true).contains("tonic::codec::Streaming<Out>"));
    assert!(server_arm(false, true).contains("tonic::server::ServerStreamingService<In> for Svc<T>"));
    assert!(server_arm(false, true).contains("type ResponseStream = T::GoStream;"));
    assert!(server_arm(false, true).contains("grpc.server_streaming(method, req)"));
}

#[test]
fn client_streaming_shape_in_both_bindings() {
    assert_eq!(method("Go", true, false).shape(), CallShape::ClientStreaming);
    assert!(client_call(true, false).contains("self.inner.client_streaming(req, path, codec).await"));
    assert!(client_call(true, false).contains("impl tonic::IntoStreamingRequest<Message = In>"));
    assert!(client_call(true, false).contains("request.into_streaming_request()"));
    assert!(server_arm(true, false).contains("tonic::server::ClientStreamingService<In> for Svc<T>"));
    assert!(server_arm(true, false).contains("request: tonic::Request<tonic::Streaming<In>>"));
    assert!(server_arm(true, false).contains("grpc.client_streaming(method, req)"));
}

#[test]
fn bidirectional_shape_in_both_bindings() {
    assert_eq!(method("Go", true, true).shape(), CallShape::Bidirectional);
    assert!(client_call(true, true).contains("self.inner.streaming(req, path, codec).await"));
    assert!(server_arm(true, true).contains("tonic::server::StreamingService<In> for Svc<T>"));
    assert!(server_arm(true, true).contains("type ResponseStream = T::GoStream;"));
    assert!(server_arm(true, true).contains("grpc.streaming(method, req)"));
}

#[test]
fn naming_conventions() {
    assert_eq!(method_ident("SayHello"), "say_hello");
    assert_eq!(method_ident("BidirectionalStreamingEcho"), "bidirectional_streaming_echo");
    assert_eq!(stream_type_ident("serverStreaming_echo"), "ServerStreamingEchoStream");
    assert_eq!(trait_ident("echo_service"), "EchoService");
    assert_eq!(server_type_ident("greeter"), "GreeterServer");
    assert_eq!(client_type_ident("greeter"), "greeterClient");
    assert_eq!(client_mod_ident("HelloWorld"), "hello_world_client");
    assert_eq!(server_mod_ident("HelloWorld"), "hello_world_server");
    assert_eq!(service_fullpath("a.b", "C"), "a.b.C");
}

#[test]
fn empty_service_has_no_routes() {
    let d = Descriptor::parse("package p; service Idle {}").unwrap();
    let client = generate_client_mod("p", &d.service[0]);
    let server = generate_server_mod("p", &d.service[0]);
    assert!(!client.contains("self.inner.ready()"));
    assert!(client.contains("pub async fn connect<D>"));
    assert!(!server.contains("\" => {"));
    assert!(server.contains("                _ => Box::pin(async move {"));
    assert!(server.contains(".header(\"content-type\", \"application/grpc\")"));
}

#[test]
fn schema_error_is_reported() {
    assert_eq!(
        rotors("package demo service Echo {}"),
        Err(SchemaError { at: 13, expected: Expected::SemicolonOrDot })
    );
}

#[test]
fn raw_service_name_gives_plain_identifiers() {
    let text = compile("package demo; service r#Echo { rpc r#Say(Req) returns (Resp); }");
    assert!(text.contains("pub trait Echo: Send + Sync + 'static {"));
    assert!(text.contains("pub struct EchoServer<T: Echo> {"));
    assert!(text.contains("\"/demo.Echo/Say\""));
}

#[test]
fn style_variants_get_distinct_routes() {
    let text = compile("package p; service S { rpc SayHello(A) returns (B); rpc say_hello(A) returns (B); }");
    assert!(text.contains("\"/p.S/SayHello\""));
    assert!(text.contains("\"/p.S/say_hello\""));
}
