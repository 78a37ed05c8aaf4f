use rotors::descriptor::Descriptor;
use rotors::parse::{Expected, SchemaError};

fn parse(src: &str) -> Result<Descriptor, SchemaError> {
    Descriptor::parse(src)
}

fn err(src: &str) -> SchemaError {
    match parse(src) {
        Ok(d) => panic!("expected an error, got {:?}", d),
        Err(e) => e,
    }
}

#[test]
fn parses_greeter_schema() {
    let d = parse(
        "package helloworld;\n\nservice Greeter {\n    rpc SayHello (super::HelloRequest) returns (super::HelloReply);\n}\n",
    )
    .unwrap();
    assert_eq!(d.package.name, "helloworld");
    assert_eq!(d.service.len(), 1);
    let s = &d.service[0];
    assert_eq!(s.name, "Greeter");
    assert_eq!(s.method.len(), 1);
    let m = &s.method[0];
    assert_eq!(m.name, "SayHello");
    assert_eq!(m.input_type, "super::HelloRequest");
    assert_eq!(m.output_type, "super::HelloReply");
    assert!(!m.client_streaming);
    assert!(!m.server_streaming);
}

#[test]
fn parses_dotted_package_and_streaming_flags() {
    let d = parse(
        "package grpc.examples.echo;
         service Echo {
            rpc UnaryEcho(super::EchoRequest) returns (super::EchoResponse);
            rpc ServerStreamingEcho(super::EchoRequest) returns (stream super::EchoResponse);
            rpc ClientStreamingEcho(stream super::EchoRequest) returns (super::EchoResponse);
            rpc BidirectionalStreamingEcho(stream super::EchoRequest) returns (stream super::EchoResponse);
         }",
    )
    .unwrap();
    assert_eq!(d.package.name, "grpc.examples.echo");
    let flags: Vec<(bool, bool)> = d.service[0]
        .method
        .iter()
        .map(|m| (m.client_streaming, m.server_streaming))
        .collect();
    assert_eq!(flags, vec![(false, false), (false, true), (true, false), (true, true)]);
    assert_eq!(d.service[0].method[3].input_type, "super::EchoRequest");
    assert_eq!(d.service[0].method[3].output_type, "super::EchoResponse");
}

#[test]
fn token_stream_spacing_is_accepted() {
    let d = parse("package grpc . examples ; service Echo { rpc Say ( super :: Req ) returns ( stream Resp ) ; }")
        .unwrap();
    assert_eq!(d.package.name, "grpc.examples");
    assert_eq!(d.service[0].method[0].input_type, "super :: Req");
    assert!(d.service[0].method[0].server_streaming);
}

#[test]
fn keeps_services_and_methods_in_declaration_order() {
    let d = parse("package p; service B { rpc Z(A) returns (A); rpc Y(A) returns (A); } service A {}")
        .unwrap();
    assert_eq!(d.service.len(), 2);
    assert_eq!(d.service[0].name, "B");
    assert_eq!(d.service[1].name, "A");
    assert!(d.service[1].method.is_empty());
    assert_eq!(d.service[0].method[0].name, "Z");
    assert_eq!(d.service[0].method[1].name, "Y");
}

#[test]
fn package_alone_is_a_schema() {
    let d = parse("package p;").unwrap();
    assert_eq!(d.package.name, "p");
    assert!(d.service.is_empty());
}

#[test]
fn generic_and_tuple_types_are_kept_verbatim() {
    let d = parse("package p; service S { rpc M(Vec<u8>) returns ((u32, String)); }").unwrap();
    assert_eq!(d.service[0].method[0].input_type, "Vec<u8>");
    assert_eq!(d.service[0].method[0].output_type, "(u32, String)");
}

#[test]
fn empty_schema_wants_package() {
    assert_eq!(err(""), SchemaError { at: 0, expected: Expected::Package });
}

#[test]
fn unknown_keyword_is_rejected() {
    assert_eq!(err("  module p;"), SchemaError { at: 2, expected: Expected::Package });
    assert_eq!(err("package p; struct S {}"), SchemaError { at: 11, expected: Expected::Service });
    assert_eq!(
        err("package p; service S { fn M(A) returns (B); }"),
        SchemaError { at: 23, expected: Expected::Rpc }
    );
}

#[test]
fn duplicate_package_is_rejected() {
    assert_eq!(err("package p; package q;"), SchemaError { at: 11, expected: Expected::Service });
}

#[test]
fn missing_semicolons_are_rejected() {
    assert_eq!(err("package p service S {}"), SchemaError { at: 10, expected: Expected::SemicolonOrDot });
    assert_eq!(
        err("package p; service S { rpc M(A) returns (B) }"),
        SchemaError { at: 44, expected: Expected::Semicolon }
    );
    assert_eq!(err("package p"), SchemaError { at: 9, expected: Expected::SemicolonOrDot });
}

#[test]
fn unbalanced_braces_are_rejected() {
    assert_eq!(err("package p; service S { rpc M(A) returns (B);"), SchemaError { at: 44, expected: Expected::CloseBrace });
    assert_eq!(err("package p; service S rpc"), SchemaError { at: 21, expected: Expected::OpenBrace });
    assert_eq!(err("package p; service S { rpc M(A returns (B); }"), SchemaError { at: 44, expected: Expected::CloseParen });
}

#[test]
fn missing_returns_is_rejected() {
    assert_eq!(
        err("package p; service S { rpc M(A) (B); }"),
        SchemaError { at: 32, expected: Expected::Returns }
    );
}

#[test]
fn bad_types_are_rejected() {
    assert_eq!(err("package p; service S { rpc M() returns (B); }"), SchemaError { at: 29, expected: Expected::Type });
    assert_eq!(
        err("package p; service S { rpc M(stream) returns (B); }"),
        SchemaError { at: 35, expected: Expected::Type }
    );
    assert_eq!(
        err("package p; service S { rpc M([A)) returns (B); }"),
        SchemaError { at: 31, expected: Expected::CloseParen }
    );
    assert_eq!(
        err("package p; service S { rpc M((A) returns (B); }"),
        SchemaError { at: 46, expected: Expected::CloseParen }
    );
}

#[test]
fn type_text_is_left_to_the_compiler() {
    let d = parse("package p; service S { rpc M(A B) returns ([u8; 4]); }").unwrap();
    assert_eq!(d.service[0].method[0].input_type, "A B");
    assert_eq!(d.service[0].method[0].output_type, "[u8; 4]");
}

#[test]
fn raw_names_are_unraw_ed() {
    let d = parse("package r#p.q; service r#Echo { rpc r#type(A) returns (B); rpc r#rpc(A) returns (B); }")
        .unwrap();
    assert_eq!(d.package.name, "p.q");
    assert_eq!(d.service[0].name, "Echo");
    assert_eq!(d.service[0].method[0].name, "type");
    assert_eq!(d.service[0].method[1].name, "rpc");
}

#[test]
fn raw_keyword_is_not_a_keyword() {
    assert_eq!(
        err("package p; service S { r#rpc M(A) returns (B); }"),
        SchemaError { at: 23, expected: Expected::Rpc }
    );
    assert_eq!(err("r#package p;"), SchemaError { at: 0, expected: Expected::Package });
}

#[test]
fn keywords_are_not_names() {
    assert_eq!(err("package p; service S { rpc fn(A) returns (B); }"), SchemaError { at: 27, expected: Expected::Ident });
    assert_eq!(err("package p.; service S {}"), SchemaError { at: 10, expected: Expected::Ident });
    assert_eq!(err("package 7;"), SchemaError { at: 8, expected: Expected::Ident });
}
