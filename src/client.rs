use crate::descriptor::{shape_of, CallShape, Method, MethodView, Service, ServiceView};
use crate::naming::{
    client_mod_ident, client_mod_of, client_type_ident, client_type_of, fullpath_of, method_ident,
    route, route_of, service_fullpath, snake_of,
};
use vstd::prelude::*;

verus! {

/// The transport entry point that carries a call of the given shape.
pub open spec fn entry_point_of(shape: CallShape) -> Seq<char> {
    match shape {
        CallShape::Unary => "unary"@,
        CallShape::ServerStreaming => "server_streaming"@,
        CallShape::ClientStreaming => "client_streaming"@,
        CallShape::Bidirectional => "streaming"@,
    }
}

pub fn entry_point(shape: CallShape) -> (r: &'static str)
    ensures
        r@ == entry_point_of(shape),
{
    match shape {
        CallShape::Unary => "unary",
        CallShape::ServerStreaming => "server_streaming",
        CallShape::ClientStreaming => "client_streaming",
        CallShape::Bidirectional => "streaming",
    }
}

/// The request parameter of a client method: one message, or a producer of messages.
pub open spec fn client_input_of(m: MethodView) -> Seq<char> {
    if m.client_streaming {
        "impl tonic::IntoStreamingRequest<Message = "@ + m.input_type + ">"@
    } else {
        "impl tonic::IntoRequest<"@ + m.input_type + ">"@
    }
}

pub fn client_input(method: &Method) -> (r: String)
    ensures
        r@ == client_input_of(method@),
{
    let mut r = if method.client_streaming {
        String::from_str("impl tonic::IntoStreamingRequest<Message = ")
    } else {
        String::from_str("impl tonic::IntoRequest<")
    };
    r.append(method.input_type.as_str());
    r.append(">");
    r
}

/// The response payload of a client method: one message, or a stream of them.
pub open spec fn client_output_of(m: MethodView) -> Seq<char> {
    if m.server_streaming {
        "tonic::codec::Streaming<"@ + m.output_type + ">"@
    } else {
        m.output_type
    }
}

pub fn client_output(method: &Method) -> (r: String)
    ensures
        r@ == client_output_of(method@),
{
    if method.server_streaming {
        let mut r = String::from_str("tonic::codec::Streaming<");
        r.append(method.output_type.as_str());
        r.append(">");
        r
    } else {
        method.output_type.clone()
    }
}

/// The statement that wraps the caller's input into a request envelope.
pub open spec fn request_of(m: MethodView) -> Seq<char> {
    if m.client_streaming {
        "        let mut req = request.into_streaming_request();\n"@
    } else {
        "        let mut req = request.into_request();\n"@
    }
}

pub fn request_of_method(method: &Method) -> (r: &'static str)
    ensures
        r@ == request_of(method@),
{
    if method.client_streaming {
        "        let mut req = request.into_streaming_request();\n"
    } else {
        "        let mut req = request.into_request();\n"
    }
}

/// The transport call of a client method.
pub open spec fn client_call_of(shape: CallShape) -> Seq<char> {
    "        self.inner."@ + entry_point_of(shape) + "(req, path, codec).await\n"@
}

pub fn client_call(shape: CallShape) -> (r: String)
    ensures
        r@ == client_call_of(shape),
{
    let mut r = String::from_str("        self.inner.");
    r.append(entry_point(shape));
    r.append("(req, path, codec).await\n");
    r
}

/// One client method: wait for readiness, fix the route, shape the request,
/// and make the call that the method's streaming flags select.
pub open spec fn client_method_text(package: Seq<char>, service: Seq<char>, m: MethodView) -> Seq<char> {
    client_method_head(m) + path_stmt(route_of(package, service, m.name)) + client_method_body(
        package,
        service,
        m,
    )
}

/// The client methods of a service, in declaration order.
pub open spec fn client_methods_text(package: Seq<char>, service: Seq<char>, ms: Seq<MethodView>) -> Seq<char>
    decreases ms.len(),
{
    if ms.len() == 0 {
        Seq::empty()
    } else {
        client_methods_text(package, service, ms.drop_last()) + client_method_text(
            package,
            service,
            ms.last(),
        )
    }
}

pub fn generate_method(package: &str, service: &str, method: &Method) -> (r: String)
    ensures
        r@ == client_method_text(package@, service@, method@),
{
    let route = route(package, service, method.name.as_str());
    let mut r = generate_method_head(method);
    r.append(generate_path_stmt(&route).as_str());
    r.append(generate_method_body(package, service, method).as_str());
    r
}

pub fn generate_methods(package: &str, service: &Service) -> (r: String)
    ensures
        r@ == client_methods_text(package@, service.name@, service@.methods),
{
    let mut r = String::new();
    let mut i: usize = 0;
    while i < service.method.len()
        invariant
            i <= service.method@.len(),
            r@ == client_methods_text(package@, service.name@, service@.methods.take(i as int)),
        decreases service.method@.len() - i,
    {
        let text = generate_method(package, service.name.as_str(), &service.method[i]);
        r.append(text.as_str());
        proof {
            let ms = service@.methods;
            assert(ms.take(i + 1).drop_last() =~= ms.take(i as int));
        }
        i = i + 1;
    }
    proof {
        assert(service@.methods.take(i as int) =~= service@.methods);
    }
    r
}

/// Signature of a client method and the wait until the transport is ready.
pub open spec fn client_method_head(m: MethodView) -> Seq<char> {
    "    pub async fn "@
        + snake_of(m.name)
        + "(\n"@
        + "        &mut self,\n"@
        + "        request: "@
        + client_input_of(m)
        + ",\n"@
        + "    ) -> tonic::Result<tonic::Response<"@
        + client_output_of(m)
        + ">> {\n"@
        + "        self.inner.ready().await.map_err(|err| {\n"@
        + "            tonic::Status::new(\n"@
        + "                tonic::Code::Unknown,\n"@
        + "                format!(\"Service was not ready: {}\", err.into()),\n"@
        + "            )\n"@
        + "        })?;\n"@
}

pub fn generate_method_head(method: &Method) -> (r: String)
    ensures
        r@ == client_method_head(method@),
{
    let ident = method_ident(method.name.as_str());
    let input = client_input(method);
    let output = client_output(method);
    let mut r = String::from_str("    pub async fn ");
    r.append(ident.as_str());
    r.append("(\n");
    r.append("        &mut self,\n");
    r.append("        request: ");
    r.append(input.as_str());
    r.append(",\n");
    r.append("    ) -> tonic::Result<tonic::Response<");
    r.append(output.as_str());
    r.append(">> {\n");
    r.append("        self.inner.ready().await.map_err(|err| {\n");
    r.append("            tonic::Status::new(\n");
    r.append("                tonic::Code::Unknown,\n");
    r.append("                format!(\"Service was not ready: {}\", err.into()),\n");
    r.append("            )\n");
    r.append("        })?;\n");
    r
}

/// The statement that fixes the route of an outgoing call.
pub open spec fn path_stmt(route: Seq<char>) -> Seq<char> {
    "        let path = http::uri::PathAndQuery::from_static("@
        + "\""@
        + route
        + "\""@
        + ");\n"@
}

pub fn generate_path_stmt(route: &String) -> (r: String)
    ensures
        r@ == path_stmt(route@),
{
    let mut r = String::from_str("        let path = http::uri::PathAndQuery::from_static(");
    r.append("\"");
    r.append(route.as_str());
    r.append("\"");
    r.append(");\n");
    r
}

/// Request shaping, diagnostics metadata and the transport call of a client method.
pub open spec fn client_method_body(package: Seq<char>, service: Seq<char>, m: MethodView) -> Seq<char> {
    "        let codec = ::rotors::codec::CborCodec::default();\n"@
        + request_of(m)
        + "        req.extensions_mut().insert(GrpcMethod::new(\""@
        + fullpath_of(package, service)
        + "\", \""@
        + m.name
        + "\"));\n"@
        + client_call_of(shape_of(m.client_streaming, m.server_streaming))
        + "    }\n"@
}

pub fn generate_method_body(package: &str, service: &str, method: &Method) -> (r: String)
    ensures
        r@ == client_method_body(package@, service@, method@),
{
    let fullpath = service_fullpath(package, service);
    let call = client_call(method.shape());
    let mut r = String::from_str("        let codec = ::rotors::codec::CborCodec::default();\n");
    r.append(request_of_method(method));
    r.append("        req.extensions_mut().insert(GrpcMethod::new(\"");
    r.append(fullpath.as_str());
    r.append("\", \"");
    r.append(method.name.as_str());
    r.append("\"));\n");
    r.append(call.as_str());
    r.append("    }\n");
    r
}

/// The `connect` constructor over a transport channel.
pub open spec fn connect_text(client: Seq<char>) -> Seq<char> {
    "    impl "@
        + client
        + "<tonic::transport::Channel> {\n"@
        + "        /// Attempt to create a new client by connecting to a given endpoint.\n"@
        + "        pub async fn connect<D>(dst: D) -> Result<Self, tonic::transport::Error>\n"@
        + "        where\n"@
        + "            D: TryInto<tonic::transport::Endpoint>,\n"@
        + "            D::Error: Into<StdError>,\n"@
        + "        {\n"@
        + "            let conn = tonic::transport::Endpoint::new(dst)?.connect().await?;\n"@
        + "            Ok(Self::new(conn))\n"@
        + "        }\n"@
        + "    }\n"@
        + "\n"@
}

pub fn generate_connect(client: &str) -> (r: String)
    ensures
        r@ == connect_text(client@),
{
    let mut r = String::from_str("    impl ");
    r.append(client);
    r.append("<tonic::transport::Channel> {\n");
    r.append("        /// Attempt to create a new client by connecting to a given endpoint.\n");
    r.append("        pub async fn connect<D>(dst: D) -> Result<Self, tonic::transport::Error>\n");
    r.append("        where\n");
    r.append("            D: TryInto<tonic::transport::Endpoint>,\n");
    r.append("            D::Error: Into<StdError>,\n");
    r.append("        {\n");
    r.append("            let conn = tonic::transport::Endpoint::new(dst)?.connect().await?;\n");
    r.append("            Ok(Self::new(conn))\n");
    r.append("        }\n");
    r.append("    }\n");
    r.append("\n");
    r
}

/// Constructors and builder-style settings of a client type.
pub open spec fn constructors_text(client: Seq<char>) -> Seq<char> {
    "        pub fn new(inner: T) -> Self {\n"@
        + "            let inner = tonic::client::Grpc::new(inner);\n"@
        + "            Self { inner }\n"@
        + "        }\n\n"@
        + "        pub fn with_origin(inner: T, origin: Uri) -> Self {\n"@
        + "            let inner = tonic::client::Grpc::with_origin(inner, origin);\n"@
        + "            Self { inner }\n"@
        + "        }\n\n"@
        + "        pub fn with_interceptor<F>(inner: T, interceptor: F) -> "@
        + client
        + "<InterceptedService<T, F>>\n"@
        + "        where\n"@
        + "            F: tonic::service::Interceptor,\n"@
        + "            T::ResponseBody: Default,\n"@
        + "            T: tonic::codegen::Service<\n"@
        + "                http::Request<tonic::body::BoxBody>,\n"@
        + "                Response = http::Response<<T as tonic::client::GrpcService<tonic::body::BoxBody>>::ResponseBody>,\n"@
        + "            >,\n"@
        + "            <T as tonic::codegen::Service<http::Request<tonic::body::BoxBody>>>::Error: Into<StdError> + Send + Sync,\n"@
        + "        {\n"@
        + "            "@
        + client
        + "::new(InterceptedService::new(inner, interceptor))\n"@
        + "        }\n\n"@
        + "        /// Compress requests with the given encoding.\n"@
        + "        ///\n"@
        + "        /// This requires the server to support it otherwise it might respond with an\n"@
        + "        /// error.\n"@
        + "        #[must_use]\n"@
        + "        pub fn send_compressed(mut self, encoding: CompressionEncoding) -> Self {\n"@
        + "            self.inner = self.inner.send_compressed(encoding);\n"@
        + "            self\n"@
        + "        }\n\n"@
        + "        /// Enable decompressing responses.\n"@
        + "        #[must_use]\n"@
        + "        pub fn accept_compressed(mut self, encoding: CompressionEncoding) -> Self {\n"@
        + "            self.inner = self.inner.accept_compressed(encoding);\n"@
        + "            self\n"@
        + "        }\n\n"@
        + "        /// Limits the maximum size of a decoded message.\n"@
        + "        ///\n"@
        + "        /// Default: `4MB`\n"@
        + "        #[must_use]\n"@
        + "        pub fn max_decoding_message_size(mut self, limit: usize) -> Self {\n"@
        + "            self.inner = self.inner.max_decoding_message_size(limit);\n"@
        + "            self\n"@
        + "        }\n\n"@
        + "        /// Limits the maximum size of an encoded message.\n"@
        + "        ///\n"@
        + "        /// Default: `usize::MAX`\n"@
        + "        #[must_use]\n"@
        + "        pub fn max_encoding_message_size(mut self, limit: usize) -> Self {\n"@
        + "            self.inner = self.inner.max_encoding_message_size(limit);\n"@
        + "            self\n"@
        + "        }\n"@
}

pub fn generate_constructors(client: &str) -> (r: String)
    ensures
        r@ == constructors_text(client@),
{
    let mut r = String::from_str("        pub fn new(inner: T) -> Self {\n");
    r.append("            let inner = tonic::client::Grpc::new(inner);\n");
    r.append("            Self { inner }\n");
    r.append("        }\n\n");
    r.append("        pub fn with_origin(inner: T, origin: Uri) -> Self {\n");
    r.append("            let inner = tonic::client::Grpc::with_origin(inner, origin);\n");
    r.append("            Self { inner }\n");
    r.append("        }\n\n");
    r.append("        pub fn with_interceptor<F>(inner: T, interceptor: F) -> ");
    r.append(client);
    r.append("<InterceptedService<T, F>>\n");
    r.append("        where\n");
    r.append("            F: tonic::service::Interceptor,\n");
    r.append("            T::ResponseBody: Default,\n");
    r.append("            T: tonic::codegen::Service<\n");
    r.append("                http::Request<tonic::body::BoxBody>,\n");
    r.append("                Response = http::Response<<T as tonic::client::GrpcService<tonic::body::BoxBody>>::ResponseBody>,\n");
    r.append("            >,\n");
    r.append("            <T as tonic::codegen::Service<http::Request<tonic::body::BoxBody>>>::Error: Into<StdError> + Send + Sync,\n");
    r.append("        {\n");
    r.append("            ");
    r.append(client);
    r.append("::new(InterceptedService::new(inner, interceptor))\n");
    r.append("        }\n\n");
    r.append("        /// Compress requests with the given encoding.\n");
    r.append("        ///\n");
    r.append("        /// This requires the server to support it otherwise it might respond with an\n");
    r.append("        /// error.\n");
    r.append("        #[must_use]\n");
    r.append("        pub fn send_compressed(mut self, encoding: CompressionEncoding) -> Self {\n");
    r.append("            self.inner = self.inner.send_compressed(encoding);\n");
    r.append("            self\n");
    r.append("        }\n\n");
    r.append("        /// Enable decompressing responses.\n");
    r.append("        #[must_use]\n");
    r.append("        pub fn accept_compressed(mut self, encoding: CompressionEncoding) -> Self {\n");
    r.append("            self.inner = self.inner.accept_compressed(encoding);\n");
    r.append("            self\n");
    r.append("        }\n\n");
    r.append("        /// Limits the maximum size of a decoded message.\n");
    r.append("        ///\n");
    r.append("        /// Default: `4MB`\n");
    r.append("        #[must_use]\n");
    r.append("        pub fn max_decoding_message_size(mut self, limit: usize) -> Self {\n");
    r.append("            self.inner = self.inner.max_decoding_message_size(limit);\n");
    r.append("            self\n");
    r.append("        }\n\n");
    r.append("        /// Limits the maximum size of an encoded message.\n");
    r.append("        ///\n");
    r.append("        /// Default: `usize::MAX`\n");
    r.append("        #[must_use]\n");
    r.append("        pub fn max_encoding_message_size(mut self, limit: usize) -> Self {\n");
    r.append("            self.inner = self.inner.max_encoding_message_size(limit);\n");
    r.append("            self\n");
    r.append("        }\n");
    r
}

/// The client module of a service.
#[verifier::opaque]
pub open spec fn client_mod_text(package: Seq<char>, s: ServiceView) -> Seq<char> {
    "/// Client implementations.\n"@
        + "pub mod "@
        + client_mod_of(s.name)
        + " {\n"@
        + "    use super::*;\n"@
        + "\n"@
        + "    use ::rotors::codegen::tonic;\n"@
        + "    use tonic::codegen::*;\n"@
        + "    use tonic::codegen::http::Uri;\n"@
        + "\n"@
        + "    #[derive(Clone, Debug)]\n"@
        + "    pub struct "@
        + client_type_of(s.name)
        + "<T> {\n"@
        + "        inner: tonic::client::Grpc<T>,\n"@
        + "    }\n"@
        + "\n"@
        + connect_text(client_type_of(s.name))
        + "    impl<T> "@
        + client_type_of(s.name)
        + "<T>\n"@
        + "    where\n"@
        + "        T: tonic::client::GrpcService<tonic::body::BoxBody>,\n"@
        + "        T::Error: Into<StdError>,\n"@
        + "        T::ResponseBody: Body<Data = Bytes> + Send + 'static,\n"@
        + "        <T::ResponseBody as Body>::Error: Into<StdError> + Send,\n"@
        + "    {\n"@
        + constructors_text(client_type_of(s.name))
        + client_methods_text(package, s.name, s.methods)
        + "    }\n"@
        + "}\n"@
}

/// Emits the client binding of one service: a client type over the transport
/// with one method per `rpc`, in declaration order.
pub fn generate_client_mod(package: &str, service: &Service) -> (r: String)
    ensures
        r@ == client_mod_text(package@, service@),
{
    reveal(client_mod_text);
    let module = client_mod_ident(service.name.as_str());
    let client = client_type_ident(service.name.as_str());
    let connect = generate_connect(client.as_str());
    let constructors = generate_constructors(client.as_str());
    let methods = generate_methods(package, service);
    let mut r = String::from_str("/// Client implementations.\n");
    r.append("pub mod ");
    r.append(module.as_str());
    r.append(" {\n");
    r.append("    use super::*;\n");
    r.append("\n");
    r.append("    use ::rotors::codegen::tonic;\n");
    r.append("    use tonic::codegen::*;\n");
    r.append("    use tonic::codegen::http::Uri;\n");
    r.append("\n");
    r.append("    #[derive(Clone, Debug)]\n");
    r.append("    pub struct ");
    r.append(client.as_str());
    r.append("<T> {\n");
    r.append("        inner: tonic::client::Grpc<T>,\n");
    r.append("    }\n");
    r.append("\n");
    r.append(connect.as_str());
    r.append("    impl<T> ");
    r.append(client.as_str());
    r.append("<T>\n");
    r.append("    where\n");
    r.append("        T: tonic::client::GrpcService<tonic::body::BoxBody>,\n");
    r.append("        T::Error: Into<StdError>,\n");
    r.append("        T::ResponseBody: Body<Data = Bytes> + Send + 'static,\n");
    r.append("        <T::ResponseBody as Body>::Error: Into<StdError> + Send,\n");
    r.append("    {\n");
    r.append(constructors.as_str());
    r.append(methods.as_str());
    r.append("    }\n");
    r.append("}\n");
    r
}

} // verus!
