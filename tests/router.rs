use rotors::descriptor::Descriptor;
use rotors::router::unimplemented_response;
use rotors::status::Code;

fn echo() -> Descriptor {
    Descriptor::parse("package demo; service Echo { rpc Say(Req) returns (Resp); rpc Stream(Req) returns (stream Resp); }")
        .unwrap()
}

#[test]
fn routes_go_to_their_methods() {
    let d = echo();
    let s = &d.service[0];
    assert_eq!(s.dispatch("demo", "/demo.Echo/Say"), Some(0));
    assert_eq!(s.dispatch("demo", "/demo.Echo/Stream"), Some(1));
}

#[test]
fn identical_requests_get_identical_decisions() {
    let d = echo();
    let s = &d.service[0];
    let first = s.dispatch("demo", "/demo.Echo/Stream");
    let second = s.dispatch("demo", "/demo.Echo/Stream");
    assert_eq!(first, second);
    assert_eq!(s.dispatch("demo", "/demo.Echo/Nope"), s.dispatch("demo", "/demo.Echo/Nope"));
}

#[test]
fn unmatched_routes_get_no_method() {
    let d = echo();
    let s = &d.service[0];
    assert_eq!(s.dispatch("demo", "/demo.Echo/say"), None);
    assert_eq!(s.dispatch("demo", "/demo.Echo/Say/"), None);
    assert_eq!(s.dispatch("demo", "/other.Echo/Say"), None);
    assert_eq!(s.dispatch("demo", ""), None);
}

#[test]
fn first_of_duplicate_routes_wins() {
    let d = Descriptor::parse("package p; service S { rpc A(X) returns (X); rpc A(Y) returns (Y); }").unwrap();
    assert_eq!(d.service[0].dispatch("p", "/p.S/A"), Some(0));
}

#[test]
fn unimplemented_response_is_fixed() {
    let r = unimplemented_response();
    assert_eq!(r.http_status, 200);
    assert_eq!(r.grpc_status, 12);
    assert_eq!(r.content_type, "application/grpc");
    assert_eq!(Code::Unimplemented.value(), 12);
    assert_eq!(Code::Internal.value(), 13);
    assert_eq!(Code::Unknown.value(), 2);
}
