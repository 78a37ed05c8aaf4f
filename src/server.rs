use crate::client::{entry_point, entry_point_of};
use crate::descriptor::{shape_of, CallShape, Method, MethodView, Service, ServiceView};
use crate::naming::{
    fullpath_of, method_ident, route, route_of, server_mod_ident, server_mod_of, server_type_ident,
    server_type_of, service_fullpath, snake_of, stream_type_ident, stream_type_of, trait_ident,
    trait_name_of,
};
use vstd::prelude::*;

verus! {

/// The server-side service trait of the transport that handles a call of the given shape.
pub open spec fn service_trait_of(shape: CallShape) -> Seq<char> {
    match shape {
        CallShape::Unary => "UnaryService"@,
        CallShape::ServerStreaming => "ServerStreamingService"@,
        CallShape::ClientStreaming => "ClientStreamingService"@,
        CallShape::Bidirectional => "StreamingService"@,
    }
}

pub fn service_trait(shape: CallShape) -> (r: &'static str)
    ensures
        r@ == service_trait_of(shape),
{
    match shape {
        CallShape::Unary => "UnaryService",
        CallShape::ServerStreaming => "ServerStreamingService",
        CallShape::ClientStreaming => "ClientStreamingService",
        CallShape::Bidirectional => "StreamingService",
    }
}

/// What a trait operation receives: one decoded message, or a stream of them.
pub open spec fn server_input_of(m: MethodView) -> Seq<char> {
    if m.client_streaming {
        "tonic::Streaming<"@ + m.input_type + ">"@
    } else {
        m.input_type
    }
}

pub fn server_input(method: &Method) -> (r: String)
    ensures
        r@ == server_input_of(method@),
{
    if method.client_streaming {
        let mut r = String::from_str("tonic::Streaming<");
        r.append(method.input_type.as_str());
        r.append(">");
        r
    } else {
        method.input_type.clone()
    }
}

/// What a trait operation returns: one message, or its associated stream type.
pub open spec fn server_output_of(m: MethodView) -> Seq<char> {
    if m.server_streaming {
        "Self::"@ + stream_type_of(m.name)
    } else {
        m.output_type
    }
}

pub fn server_output(method: &Method) -> (r: String)
    ensures
        r@ == server_output_of(method@),
{
    if method.server_streaming {
        let mut r = String::from_str("Self::");
        r.append(stream_type_ident(method.name.as_str()).as_str());
        r
    } else {
        method.output_type.clone()
    }
}

/// The associated stream type that a server-streaming operation declares.
pub open spec fn stream_decl_of(m: MethodView) -> Seq<char> {
    if m.server_streaming {
        "        type "@ + stream_type_of(m.name) + ": futures_core::Stream<Item = "@ + m.output_type
            + ">;\n\n"@
    } else {
        Seq::empty()
    }
}

pub fn stream_decl(method: &Method) -> (r: String)
    ensures
        r@ == stream_decl_of(method@),
{
    if method.server_streaming {
        let mut r = String::from_str("        type ");
        r.append(stream_type_ident(method.name.as_str()).as_str());
        r.append(": futures_core::Stream<Item = ");
        r.append(method.output_type.as_str());
        r.append(">;\n\n");
        r
    } else {
        String::new()
    }
}

/// The response stream type that a router adapter names for a server-streaming method.
pub open spec fn response_stream_of(m: MethodView) -> Seq<char> {
    if m.server_streaming {
        "                        type ResponseStream = T::"@ + stream_type_of(m.name) + ";\n"@
    } else {
        Seq::empty()
    }
}

pub fn response_stream(method: &Method) -> (r: String)
    ensures
        r@ == response_stream_of(method@),
{
    if method.server_streaming {
        let mut r = String::from_str("                        type ResponseStream = T::");
        r.append(stream_type_ident(method.name.as_str()).as_str());
        r.append(";\n");
        r
    } else {
        String::new()
    }
}

/// The operations of the capability trait, in declaration order.
pub open spec fn trait_methods_text(ms: Seq<MethodView>) -> Seq<char>
    decreases ms.len(),
{
    if ms.len() == 0 {
        Seq::empty()
    } else {
        trait_methods_text(ms.drop_last()) + trait_method_text(ms.last())
    }
}

pub fn generate_trait_methods(service: &Service) -> (r: String)
    ensures
        r@ == trait_methods_text(service@.methods),
{
    let mut r = String::new();
    let mut i: usize = 0;
    while i < service.method.len()
        invariant
            i <= service.method@.len(),
            r@ == trait_methods_text(service@.methods.take(i as int)),
        decreases service.method@.len() - i,
    {
        let text = generate_trait_method(&service.method[i]);
        r.append(text.as_str());
        proof {
            let ms = service@.methods;
            assert(ms.take(i + 1).drop_last() =~= ms.take(i as int));
        }
        i = i + 1;
    }
    proof {
        assert(service@.methods.take(i as int) =~= service@.methods);
    }
    r
}

/// The router arms of all methods, in declaration order.
pub open spec fn server_routes_text(
    trait_name: Seq<char>,
    package: Seq<char>,
    service: Seq<char>,
    ms: Seq<MethodView>,
) -> Seq<char>
    decreases ms.len(),
{
    if ms.len() == 0 {
        Seq::empty()
    } else {
        server_routes_text(trait_name, package, service, ms.drop_last()) + server_route_text(
            trait_name,
            package,
            service,
            ms.last(),
        )
    }
}

pub fn generate_server_routes(trait_name: &str, package: &str, service: &Service) -> (r: String)
    ensures
        r@ == server_routes_text(trait_name@, package@, service.name@, service@.methods),
{
    let mut r = String::new();
    let mut i: usize = 0;
    while i < service.method.len()
        invariant
            i <= service.method@.len(),
            r@ == server_routes_text(
                trait_name@,
                package@,
                service.name@,
                service@.methods.take(i as int),
            ),
        decreases service.method@.len() - i,
    {
        let text = generate_server_route(
            trait_name,
            package,
            service.name.as_str(),
            &service.method[i],
        );
        r.append(text.as_str());
        proof {
            let ms = service@.methods;
            assert(ms.take(i + 1).drop_last() =~= ms.take(i as int));
        }
        i = i + 1;
    }
    proof {
        assert(service@.methods.take(i as int) =~= service@.methods);
    }
    r
}

/// One operation of the capability trait, with the stream type it returns
/// when the method streams its responses.
pub open spec fn trait_method_text(m: MethodView) -> Seq<char> {
    stream_decl_of(m)
        + "        async fn "@
        + snake_of(m.name)
        + "(\n"@
        + "            &self,\n"@
        + "            request: tonic::Request<"@
        + server_input_of(m)
        + ">,\n"@
        + "        ) -> tonic::Result<tonic::Response<"@
        + server_output_of(m)
        + ">>;\n"@
}

pub fn generate_trait_method(method: &Method) -> (r: String)
    ensures
        r@ == trait_method_text(method@),
{
    let ident = method_ident(method.name.as_str());
    let input = server_input(method);
    let output = server_output(method);
    let mut r = stream_decl(method);
    r.append("        async fn ");
    r.append(ident.as_str());
    r.append("(\n");
    r.append("            &self,\n");
    r.append("            request: tonic::Request<");
    r.append(input.as_str());
    r.append(">,\n");
    r.append("        ) -> tonic::Result<tonic::Response<");
    r.append(output.as_str());
    r.append(">>;\n");
    r
}

/// The router arm of one method: on its exact route, decode the request,
/// call the capability trait, and encode the result.
pub open spec fn server_route_text(trait_name: Seq<char>, package: Seq<char>, service: Seq<char>, m: MethodView) -> Seq<char> {
    "                "@
        + "\""@
        + route_of(package, service, m.name)
        + "\""@
        + " => {\n"@
        + "                    struct Svc<T>(std::sync::Arc<T>);\n"@
        + "\n"@
        + "                    impl<T: "@
        + trait_name
        + "> tonic::server::"@
        + service_trait_of(shape_of(m.client_streaming, m.server_streaming))
        + "<"@
        + m.input_type
        + "> for Svc<T> {\n"@
        + "                        type Response = "@
        + m.output_type
        + ";\n"@
        + response_stream_of(m)
        + "                        type Future = BoxFuture<tonic::Response<Self::Response>, tonic::Status>;\n"@
        + "\n"@
        + "                        fn call(\n"@
        + "                            &mut self,\n"@
        + "                            request: tonic::Request<"@
        + server_input_of(m)
        + ">,\n"@
        + "                        ) -> Self::Future {\n"@
        + "                            let inner = self.0.clone();\n"@
        + "                            Box::pin(async move { inner."@
        + snake_of(m.name)
        + "(request).await })\n"@
        + "                        }\n"@
        + "                    }\n"@
        + "\n"@
        + "                    let method = Svc(inner);\n"@
        + "                    let codec = ::rotors::codec::CborCodec::default();\n"@
        + "                    let mut grpc = tonic::server::Grpc::new(codec)\n"@
        + "                        .apply_compression_config(\n"@
        + "                            self.accept_compression_encodings,\n"@
        + "                            self.send_compression_encodings,\n"@
        + "                        )\n"@
        + "                        .apply_max_message_size_config(\n"@
        + "                            self.max_decoding_message_size,\n"@
        + "                            self.max_encoding_message_size,\n"@
        + "                        );\n"@
        + "                    let fut = async move { Ok(grpc."@
        + entry_point_of(shape_of(m.client_streaming, m.server_streaming))
        + "(method, req).await) };\n"@
        + "                    Box::pin(fut)\n"@
        + "                }\n"@
}

pub fn generate_server_route(trait_name: &str, package: &str, service: &str, method: &Method) -> (r: String)
    ensures
        r@ == server_route_text(trait_name@, package@, service@, method@),
{
    let route = route(package, service, method.name.as_str());
    let ident = method_ident(method.name.as_str());
    let input = server_input(method);
    let response_stream = response_stream(method);
    let mut r = String::from_str("                ");
    r.append("\"");
    r.append(route.as_str());
    r.append("\"");
    r.append(" => {\n");
    r.append("                    struct Svc<T>(std::sync::Arc<T>);\n");
    r.append("\n");
    r.append("                    impl<T: ");
    r.append(trait_name);
    r.append("> tonic::server::");
    r.append(service_trait(method.shape()));
    r.append("<");
    r.append(method.input_type.as_str());
    r.append("> for Svc<T> {\n");
    r.append("                        type Response = ");
    r.append(method.output_type.as_str());
    r.append(";\n");
    r.append(response_stream.as_str());
    r.append("                        type Future = BoxFuture<tonic::Response<Self::Response>, tonic::Status>;\n");
    r.append("\n");
    r.append("                        fn call(\n");
    r.append("                            &mut self,\n");
    r.append("                            request: tonic::Request<");
    r.append(input.as_str());
    r.append(">,\n");
    r.append("                        ) -> Self::Future {\n");
    r.append("                            let inner = self.0.clone();\n");
    r.append("                            Box::pin(async move { inner.");
    r.append(ident.as_str());
    r.append("(request).await })\n");
    r.append("                        }\n");
    r.append("                    }\n");
    r.append("\n");
    r.append("                    let method = Svc(inner);\n");
    r.append("                    let codec = ::rotors::codec::CborCodec::default();\n");
    r.append("                    let mut grpc = tonic::server::Grpc::new(codec)\n");
    r.append("                        .apply_compression_config(\n");
    r.append("                            self.accept_compression_encodings,\n");
    r.append("                            self.send_compression_encodings,\n");
    r.append("                        )\n");
    r.append("                        .apply_max_message_size_config(\n");
    r.append("                            self.max_decoding_message_size,\n");
    r.append("                            self.max_encoding_message_size,\n");
    r.append("                        );\n");
    r.append("                    let fut = async move { Ok(grpc.");
    r.append(entry_point(method.shape()));
    r.append("(method, req).await) };\n");
    r.append("                    Box::pin(fut)\n");
    r.append("                }\n");
    r
}

/// The transport service of a server type: its router over the routes of
/// the service, with the unimplemented response for every other route.
pub open spec fn service_text(package: Seq<char>, s: ServiceView) -> Seq<char> {
    "    impl<T, B> tonic::codegen::Service<http::Request<B>> for "@
        + server_type_of(s.name)
        + "<T>\n"@
        + "    where\n"@
        + "        T: "@
        + trait_name_of(s.name)
        + ",\n"@
        + "        B: Body + Send + 'static,\n"@
        + "        B::Error: Into<StdError> + Send + 'static,\n"@
        + "    {\n"@
        + "        type Response = http::Response<tonic::body::BoxBody>;\n"@
        + "        type Error = std::convert::Infallible;\n"@
        + "        type Future = BoxFuture<Self::Response, Self::Error>;\n"@
        + "\n"@
        + "        fn poll_ready(\n"@
        + "            &mut self,\n"@
        + "            _cx: &mut Context<'_>,\n"@
        + "        ) -> Poll<std::result::Result<(), Self::Error>> {\n"@
        + "            Poll::Ready(Ok(()))\n"@
        + "        }\n"@
        + "\n"@
        + "        fn call(&mut self, req: http::Request<B>) -> Self::Future {\n"@
        + "            let inner = self.inner.clone();\n"@
        + "            match req.uri().path() {\n"@
        + server_routes_text(trait_name_of(s.name), package, s.name, s.methods)
        + "                _ => Box::pin(async move {\n"@
        + "                    Ok(http::Response::builder()\n"@
        + "                        .status(200)\n"@
        + "                        .header(\"grpc-status\", i32::from(tonic::Code::Unimplemented))\n"@
        + "                        .header(\"content-type\", \"application/grpc\")\n"@
        + "                        .body(empty_body())\n"@
        + "                        .unwrap())\n"@
        + "                }),\n"@
        + "            }\n"@
        + "        }\n"@
        + "    }\n"@
        + "\n"@
}

pub fn generate_service(package: &str, service: &Service) -> (r: String)
    ensures
        r@ == service_text(package@, service@),
{
    let server = server_type_ident(service.name.as_str());
    let trait_name = trait_ident(service.name.as_str());
    let routes = generate_server_routes(trait_name.as_str(), package, service);
    let mut r = String::from_str("    impl<T, B> tonic::codegen::Service<http::Request<B>> for ");
    r.append(server.as_str());
    r.append("<T>\n");
    r.append("    where\n");
    r.append("        T: ");
    r.append(trait_name.as_str());
    r.append(",\n");
    r.append("        B: Body + Send + 'static,\n");
    r.append("        B::Error: Into<StdError> + Send + 'static,\n");
    r.append("    {\n");
    r.append("        type Response = http::Response<tonic::body::BoxBody>;\n");
    r.append("        type Error = std::convert::Infallible;\n");
    r.append("        type Future = BoxFuture<Self::Response, Self::Error>;\n");
    r.append("\n");
    r.append("        fn poll_ready(\n");
    r.append("            &mut self,\n");
    r.append("            _cx: &mut Context<'_>,\n");
    r.append("        ) -> Poll<std::result::Result<(), Self::Error>> {\n");
    r.append("            Poll::Ready(Ok(()))\n");
    r.append("        }\n");
    r.append("\n");
    r.append("        fn call(&mut self, req: http::Request<B>) -> Self::Future {\n");
    r.append("            let inner = self.inner.clone();\n");
    r.append("            match req.uri().path() {\n");
    r.append(routes.as_str());
    r.append("                _ => Box::pin(async move {\n");
    r.append("                    Ok(http::Response::builder()\n");
    r.append("                        .status(200)\n");
    r.append("                        .header(\"grpc-status\", i32::from(tonic::Code::Unimplemented))\n");
    r.append("                        .header(\"content-type\", \"application/grpc\")\n");
    r.append("                        .body(empty_body())\n");
    r.append("                        .unwrap())\n");
    r.append("                }),\n");
    r.append("            }\n");
    r.append("        }\n");
    r.append("    }\n");
    r.append("\n");
    r
}

/// `Clone` for a server type: the implementation handle is shared, not copied.
pub open spec fn clone_text(server: Seq<char>, trait_name: Seq<char>) -> Seq<char> {
    "    impl<T: "@
        + trait_name
        + "> Clone for "@
        + server
        + "<T> {\n"@
        + "        fn clone(&self) -> Self {\n"@
        + "            Self {\n"@
        + "                inner: self.inner.clone(),\n"@
        + "                accept_compression_encodings: self.accept_compression_encodings,\n"@
        + "                send_compression_encodings: self.send_compression_encodings,\n"@
        + "                max_decoding_message_size: self.max_decoding_message_size,\n"@
        + "                max_encoding_message_size: self.max_encoding_message_size,\n"@
        + "            }\n"@
        + "        }\n"@
        + "    }\n"@
        + "\n"@
}

pub fn generate_clone(server: &str, trait_name: &str) -> (r: String)
    ensures
        r@ == clone_text(server@, trait_name@),
{
    let mut r = String::from_str("    impl<T: ");
    r.append(trait_name);
    r.append("> Clone for ");
    r.append(server);
    r.append("<T> {\n");
    r.append("        fn clone(&self) -> Self {\n");
    r.append("            Self {\n");
    r.append("                inner: self.inner.clone(),\n");
    r.append("                accept_compression_encodings: self.accept_compression_encodings,\n");
    r.append("                send_compression_encodings: self.send_compression_encodings,\n");
    r.append("                max_decoding_message_size: self.max_decoding_message_size,\n");
    r.append("                max_encoding_message_size: self.max_encoding_message_size,\n");
    r.append("            }\n");
    r.append("        }\n");
    r.append("    }\n");
    r.append("\n");
    r
}

/// Constructors and builder-style settings of a server type.
pub open spec fn server_constructors_text() -> Seq<char> {
    "        pub fn new(inner: T) -> Self {\n"@
        + "            Self::from_arc(std::sync::Arc::new(inner))\n"@
        + "        }\n"@
        + "\n"@
        + "        pub fn from_arc(inner: std::sync::Arc<T>) -> Self {\n"@
        + "            Self {\n"@
        + "                inner,\n"@
        + "                accept_compression_encodings: Default::default(),\n"@
        + "                send_compression_encodings: Default::default(),\n"@
        + "                max_decoding_message_size: None,\n"@
        + "                max_encoding_message_size: None,\n"@
        + "            }\n"@
        + "        }\n"@
        + "\n"@
        + "        pub fn with_interceptor<F>(inner: T, interceptor: F) -> InterceptedService<Self, F>\n"@
        + "        where\n"@
        + "            F: tonic::service::Interceptor,\n"@
        + "        {\n"@
        + "            InterceptedService::new(Self::new(inner), interceptor)\n"@
        + "        }\n"@
        + "\n"@
        + "        /// Enable decompressing requests with the given encoding.\n"@
        + "        #[must_use]\n"@
        + "        pub fn accept_compressed(mut self, encoding: CompressionEncoding) -> Self {\n"@
        + "            self.accept_compression_encodings.enable(encoding);\n"@
        + "            self\n"@
        + "        }\n"@
        + "\n"@
        + "        /// Compress responses with the given encoding, if the client supports it.\n"@
        + "        #[must_use]\n"@
        + "        pub fn send_compressed(mut self, encoding: CompressionEncoding) -> Self {\n"@
        + "            self.send_compression_encodings.enable(encoding);\n"@
        + "            self\n"@
        + "        }\n"@
        + "\n"@
        + "        /// Limits the maximum size of a decoded message.\n"@
        + "        ///\n"@
        + "        /// Default: `4MB`\n"@
        + "        #[must_use]\n"@
        + "        pub fn max_decoding_message_size(mut self, limit: usize) -> Self {\n"@
        + "            self.max_decoding_message_size = Some(limit);\n"@
        + "            self\n"@
        + "        }\n"@
        + "\n"@
        + "        /// Limits the maximum size of an encoded message.\n"@
        + "        ///\n"@
        + "        /// Default: `usize::MAX`\n"@
        + "        #[must_use]\n"@
        + "        pub fn max_encoding_message_size(mut self, limit: usize) -> Self {\n"@
        + "            self.max_encoding_message_size = Some(limit);\n"@
        + "            self\n"@
        + "        }\n"@
}

pub fn generate_constructors() -> (r: String)
    ensures
        r@ == server_constructors_text(),
{
    let mut r = String::from_str("        pub fn new(inner: T) -> Self {\n");
    r.append("            Self::from_arc(std::sync::Arc::new(inner))\n");
    r.append("        }\n");
    r.append("\n");
    r.append("        pub fn from_arc(inner: std::sync::Arc<T>) -> Self {\n");
    r.append("            Self {\n");
    r.append("                inner,\n");
    r.append("                accept_compression_encodings: Default::default(),\n");
    r.append("                send_compression_encodings: Default::default(),\n");
    r.append("                max_decoding_message_size: None,\n");
    r.append("                max_encoding_message_size: None,\n");
    r.append("            }\n");
    r.append("        }\n");
    r.append("\n");
    r.append("        pub fn with_interceptor<F>(inner: T, interceptor: F) -> InterceptedService<Self, F>\n");
    r.append("        where\n");
    r.append("            F: tonic::service::Interceptor,\n");
    r.append("        {\n");
    r.append("            InterceptedService::new(Self::new(inner), interceptor)\n");
    r.append("        }\n");
    r.append("\n");
    r.append("        /// Enable decompressing requests with the given encoding.\n");
    r.append("        #[must_use]\n");
    r.append("        pub fn accept_compressed(mut self, encoding: CompressionEncoding) -> Self {\n");
    r.append("            self.accept_compression_encodings.enable(encoding);\n");
    r.append("            self\n");
    r.append("        }\n");
    r.append("\n");
    r.append("        /// Compress responses with the given encoding, if the client supports it.\n");
    r.append("        #[must_use]\n");
    r.append("        pub fn send_compressed(mut self, encoding: CompressionEncoding) -> Self {\n");
    r.append("            self.send_compression_encodings.enable(encoding);\n");
    r.append("            self\n");
    r.append("        }\n");
    r.append("\n");
    r.append("        /// Limits the maximum size of a decoded message.\n");
    r.append("        ///\n");
    r.append("        /// Default: `4MB`\n");
    r.append("        #[must_use]\n");
    r.append("        pub fn max_decoding_message_size(mut self, limit: usize) -> Self {\n");
    r.append("            self.max_decoding_message_size = Some(limit);\n");
    r.append("            self\n");
    r.append("        }\n");
    r.append("\n");
    r.append("        /// Limits the maximum size of an encoded message.\n");
    r.append("        ///\n");
    r.append("        /// Default: `usize::MAX`\n");
    r.append("        #[must_use]\n");
    r.append("        pub fn max_encoding_message_size(mut self, limit: usize) -> Self {\n");
    r.append("            self.max_encoding_message_size = Some(limit);\n");
    r.append("            self\n");
    r.append("        }\n");
    r
}

/// The fully qualified service name a server type registers under.
pub open spec fn named_service_text(server: Seq<char>, trait_name: Seq<char>, service_name: Seq<char>) -> Seq<char> {
    "    impl<T: "@
        + trait_name
        + "> tonic::server::NamedService for "@
        + server
        + "<T> {\n"@
        + "        const NAME: &'static str = "@
        + "\""@
        + service_name
        + "\""@
        + ";\n"@
        + "    }\n"@
}

pub fn generate_named_service(server: &str, trait_name: &str, service_name: &str) -> (r: String)
    ensures
        r@ == named_service_text(server@, trait_name@, service_name@),
{
    let mut r = String::from_str("    impl<T: ");
    r.append(trait_name);
    r.append("> tonic::server::NamedService for ");
    r.append(server);
    r.append("<T> {\n");
    r.append("        const NAME: &'static str = ");
    r.append("\"");
    r.append(service_name);
    r.append("\"");
    r.append(";\n");
    r.append("    }\n");
    r
}

/// The server module of a service.
#[verifier::opaque]
pub open spec fn server_mod_text(package: Seq<char>, s: ServiceView) -> Seq<char> {
    "/// Server implementations.\n"@
        + "pub mod "@
        + server_mod_of(s.name)
        + " {\n"@
        + "    use super::*;\n"@
        + "    use ::rotors::codegen::tonic;\n"@
        + "    use tonic::codegen::*;\n"@
        + "\n"@
        + "    #[async_trait]\n"@
        + "    pub trait "@
        + trait_name_of(s.name)
        + ": Send + Sync + 'static {\n"@
        + trait_methods_text(s.methods)
        + "    }\n"@
        + "\n"@
        + "    #[derive(Debug)]\n"@
        + "    pub struct "@
        + server_type_of(s.name)
        + "<T: "@
        + trait_name_of(s.name)
        + "> {\n"@
        + "        inner: std::sync::Arc<T>,\n"@
        + "        accept_compression_encodings: EnabledCompressionEncodings,\n"@
        + "        send_compression_encodings: EnabledCompressionEncodings,\n"@
        + "        max_decoding_message_size: Option<usize>,\n"@
        + "        max_encoding_message_size: Option<usize>,\n"@
        + "    }\n"@
        + "\n"@
        + clone_text(server_type_of(s.name), trait_name_of(s.name))
        + "    impl<T: "@
        + trait_name_of(s.name)
        + "> "@
        + server_type_of(s.name)
        + "<T> {\n"@
        + server_constructors_text()
        + "    }\n"@
        + "\n"@
        + service_text(package, s)
        + named_service_text(server_type_of(s.name), trait_name_of(s.name), fullpath_of(package, s.name))
        + "}\n"@
}

/// Emits the server binding of one service: the capability trait, a server
/// type that shares one implementation across calls, its router, and its
/// registered name.
pub fn generate_server_mod(package: &str, service: &Service) -> (r: String)
    ensures
        r@ == server_mod_text(package@, service@),
{
    reveal(server_mod_text);
    let module = server_mod_ident(service.name.as_str());
    let trait_name = trait_ident(service.name.as_str());
    let server = server_type_ident(service.name.as_str());
    let trait_methods = generate_trait_methods(service);
    let clone = generate_clone(server.as_str(), trait_name.as_str());
    let constructors = generate_constructors();
    let service_impl = generate_service(package, service);
    let service_name = service_fullpath(package, service.name.as_str());
    let named = generate_named_service(server.as_str(), trait_name.as_str(), service_name.as_str());
    let mut r = String::from_str("/// Server implementations.\n");
    r.append("pub mod ");
    r.append(module.as_str());
    r.append(" {\n");
    r.append("    use super::*;\n");
    r.append("    use ::rotors::codegen::tonic;\n");
    r.append("    use tonic::codegen::*;\n");
    r.append("\n");
    r.append("    #[async_trait]\n");
    r.append("    pub trait ");
    r.append(trait_name.as_str());
    r.append(": Send + Sync + 'static {\n");
    r.append(trait_methods.as_str());
    r.append("    }\n");
    r.append("\n");
    r.append("    #[derive(Debug)]\n");
    r.append("    pub struct ");
    r.append(server.as_str());
    r.append("<T: ");
    r.append(trait_name.as_str());
    r.append("> {\n");
    r.append("        inner: std::sync::Arc<T>,\n");
    r.append("        accept_compression_encodings: EnabledCompressionEncodings,\n");
    r.append("        send_compression_encodings: EnabledCompressionEncodings,\n");
    r.append("        max_decoding_message_size: Option<usize>,\n");
    r.append("        max_encoding_message_size: Option<usize>,\n");
    r.append("    }\n");
    r.append("\n");
    r.append(clone.as_str());
    r.append("    impl<T: ");
    r.append(trait_name.as_str());
    r.append("> ");
    r.append(server.as_str());
    r.append("<T> {\n");
    r.append(constructors.as_str());
    r.append("    }\n");
    r.append("\n");
    r.append(service_impl.as_str());
    r.append(named.as_str());
    r.append("}\n");
    r
}

} // verus!
