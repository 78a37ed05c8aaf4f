use heck::{ToSnakeCase, ToUpperCamelCase};
use vstd::prelude::*;

verus! {

/// What `heck` makes of a name in lower_snake_case.
pub uninterp spec fn snake_of(s: Seq<char>) -> Seq<char>;

/// What `heck` makes of a name in UpperCamelCase.
pub uninterp spec fn upper_camel_of(s: Seq<char>) -> Seq<char>;

/// Relies on `heck::ToSnakeCase::to_snake_case`: the result depends on the
/// characters alone.
#[verifier::external_body]
pub(crate) fn to_snake(s: &str) -> (r: String)
    ensures
        r@ == snake_of(s@),
{
    s.to_snake_case()
}

/// Relies on `heck::ToUpperCamelCase::to_upper_camel_case` (which
/// `ToPascalCase` forwards to): the result depends on the characters alone.
#[verifier::external_body]
pub(crate) fn to_upper_camel(s: &str) -> (r: String)
    ensures
        r@ == upper_camel_of(s@),
{
    s.to_upper_camel_case()
}

/// `"<package>.<service>"`, the name a service registers under.
pub open spec fn fullpath_of(package: Seq<char>, service: Seq<char>) -> Seq<char> {
    package + "."@ + service
}

/// The wire route `"/<package>.<service>/<method>"`, with the method name as declared.
pub open spec fn route_of(package: Seq<char>, service: Seq<char>, method: Seq<char>) -> Seq<char> {
    "/"@ + fullpath_of(package, service) + "/"@ + method
}

pub fn service_fullpath(package: &str, service: &str) -> (r: String)
    ensures
        r@ == fullpath_of(package@, service@),
{
    let mut r = String::from_str(package);
    r.append(".");
    r.append(service);
    r
}

pub fn route(package: &str, service: &str, method: &str) -> (r: String)
    ensures
        r@ == route_of(package@, service@, method@),
{
    let path = service_fullpath(package, service);
    let mut r = String::from_str("/");
    r.append(path.as_str());
    r.append("/");
    r.append(method);
    r
}

/// Name of the generated client type: the service name followed by `Client`.
pub open spec fn client_type_of(service: Seq<char>) -> Seq<char> {
    service + "Client"@
}

/// Name of the generated server type: the service name in UpperCamelCase followed by `Server`.
pub open spec fn server_type_of(service: Seq<char>) -> Seq<char> {
    upper_camel_of(service) + "Server"@
}

/// Name of the generated capability trait: the service name in UpperCamelCase.
pub open spec fn trait_name_of(service: Seq<char>) -> Seq<char> {
    upper_camel_of(service)
}

/// Module holding the client binding: the service name in snake case followed by `_client`.
pub open spec fn client_mod_of(service: Seq<char>) -> Seq<char> {
    snake_of(service) + "_client"@
}

/// Module holding the server binding: the service name in snake case followed by `_server`.
pub open spec fn server_mod_of(service: Seq<char>) -> Seq<char> {
    snake_of(service) + "_server"@
}

/// Name of the associated stream type of a server-streaming method.
pub open spec fn stream_type_of(method: Seq<char>) -> Seq<char> {
    upper_camel_of(method) + "Stream"@
}

pub fn client_type_ident(service: &str) -> (r: String)
    ensures
        r@ == client_type_of(service@),
{
    let mut r = String::from_str(service);
    r.append("Client");
    r
}

pub fn server_type_ident(service: &str) -> (r: String)
    ensures
        r@ == server_type_of(service@),
{
    let mut r = to_upper_camel(service);
    r.append("Server");
    r
}

pub fn trait_ident(service: &str) -> (r: String)
    ensures
        r@ == trait_name_of(service@),
{
    to_upper_camel(service)
}

pub fn client_mod_ident(service: &str) -> (r: String)
    ensures
        r@ == client_mod_of(service@),
{
    let mut r = to_snake(service);
    r.append("_client");
    r
}

pub fn server_mod_ident(service: &str) -> (r: String)
    ensures
        r@ == server_mod_of(service@),
{
    let mut r = to_snake(service);
    r.append("_server");
    r
}

/// The identifier of a method in the client type and in the capability trait.
pub fn method_ident(method: &str) -> (r: String)
    ensures
        r@ == snake_of(method@),
{
    to_snake(method)
}

pub fn stream_type_ident(method: &str) -> (r: String)
    ensures
        r@ == stream_type_of(method@),
{
    let mut r = to_upper_camel(method);
    r.append("Stream");
    r
}

} // verus!
