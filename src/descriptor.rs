use vstd::prelude::*;

verus! {

/// The four calling conventions, one for each pair of streaming flags.
#[derive(Clone, Copy, Debug, PartialEq, Eq, Structural)]
pub enum CallShape {
    Unary,
    ServerStreaming,
    ClientStreaming,
    Bidirectional,
}

/// The calling convention selected by `(client_streaming, server_streaming)`.
pub open spec fn shape_of(client_streaming: bool, server_streaming: bool) -> CallShape {
    match (client_streaming, server_streaming) {
        (false, false) => CallShape::Unary,
        (false, true) => CallShape::ServerStreaming,
        (true, false) => CallShape::ClientStreaming,
        (true, true) => CallShape::Bidirectional,
    }
}

impl CallShape {
    pub fn from_flags(client_streaming: bool, server_streaming: bool) -> (r: CallShape)
        ensures
            r == shape_of(client_streaming, server_streaming),
    {
        match (client_streaming, server_streaming) {
            (false, false) => CallShape::Unary,
            (false, true) => CallShape::ServerStreaming,
            (true, false) => CallShape::ClientStreaming,
            (true, true) => CallShape::Bidirectional,
        }
    }
}

/// A method as the model sees it: names and type texts as character sequences.
pub struct MethodView {
    pub name: Seq<char>,
    pub input_type: Seq<char>,
    pub output_type: Seq<char>,
    pub client_streaming: bool,
    pub server_streaming: bool,
}

pub struct ServiceView {
    pub name: Seq<char>,
    pub methods: Seq<MethodView>,
}

pub struct DescriptorView {
    pub package: Seq<char>,
    pub services: Seq<ServiceView>,
}

/// One `rpc` declaration. The types are kept as the text written in the schema.
#[derive(Clone, Debug)]
pub struct Method {
    pub name: String,
    pub input_type: String,
    pub output_type: String,
    pub client_streaming: bool,
    pub server_streaming: bool,
}

impl View for Method {
    type V = MethodView;

    open spec fn view(&self) -> MethodView {
        MethodView {
            name: self.name@,
            input_type: self.input_type@,
            output_type: self.output_type@,
            client_streaming: self.client_streaming,
            server_streaming: self.server_streaming,
        }
    }
}

impl Method {
    pub fn shape(&self) -> (r: CallShape)
        ensures
            r == shape_of(self.client_streaming, self.server_streaming),
    {
        CallShape::from_flags(self.client_streaming, self.server_streaming)
    }
}

/// One `service` declaration with its methods in declaration order.
#[derive(Clone, Debug)]
pub struct Service {
    pub name: String,
    pub method: Vec<Method>,
}

impl View for Service {
    type V = ServiceView;

    open spec fn view(&self) -> ServiceView {
        ServiceView { name: self.name@, methods: self.method@.map_values(|m: Method| m@) }
    }
}

/// The package that prefixes every route; a dotted name is kept with its dots.
#[derive(Clone, Debug)]
pub struct Package {
    pub name: String,
}

/// A whole schema: one package and its services in declaration order.
#[derive(Clone, Debug)]
pub struct Descriptor {
    pub package: Package,
    pub service: Vec<Service>,
}

impl View for Descriptor {
    type V = DescriptorView;

    open spec fn view(&self) -> DescriptorView {
        DescriptorView {
            package: self.package.name@,
            services: self.service@.map_values(|s: Service| s@),
        }
    }
}

} // verus!
