use crate::client::{
    client_call_of, client_method_body, client_method_text, client_methods_text, client_mod_text,
    entry_point_of, path_stmt,
};
use crate::codegen::{bindings_text, clients_text, servers_text};
use crate::parse::parse_schema;
use crate::descriptor::{shape_of, DescriptorView, MethodView, ServiceView};
use crate::naming::{fullpath_of, route_of, trait_name_of};
use crate::router::{first_match, route_index};
use crate::server::{
    server_mod_text, server_route_text, server_routes_text, service_text, service_trait_of,
};
use vstd::prelude::*;

verus! {

/// `needle` stands somewhere in `hay`.
pub open spec fn occurs(hay: Seq<char>, needle: Seq<char>) -> bool {
    exists|i: int|
        0 <= i && i + needle.len() <= hay.len() && #[trigger] hay.subrange(i, i + needle.len())
            == needle
}

/// A text between double quotes, as a string literal of the bindings writes it.
pub open spec fn quoted(s: Seq<char>) -> Seq<char> {
    "\""@ + s + "\""@
}

pub proof fn lemma_occurs_self(x: Seq<char>)
    ensures
        occurs(x, x),
{
    let i: int = 0;
    assert(x.subrange(i, i + x.len()) =~= x);
}

/// What stands in a part stands in the whole.
pub broadcast proof fn lemma_occurs_concat(a: Seq<char>, b: Seq<char>, x: Seq<char>)
    ensures
        (occurs(a, x) || occurs(b, x)) ==> #[trigger] occurs(a + b, x),
{
    if occurs(a, x) {
        let i = choose|i: int|
            0 <= i && i + x.len() <= a.len() && #[trigger] a.subrange(i, i + x.len()) == x;
        assert((a + b).subrange(i, i + x.len()) =~= a.subrange(i, i + x.len()));
    } else if occurs(b, x) {
        let i = choose|i: int|
            0 <= i && i + x.len() <= b.len() && #[trigger] b.subrange(i, i + x.len()) == x;
        assert((a + b).subrange(a.len() + i, a.len() + i + x.len()) =~= b.subrange(
            i,
            i + x.len(),
        ));
    }
}

/// A text written between quotes after some prefix stands quoted there.
pub proof fn lemma_quoted_after(pre: Seq<char>, r: Seq<char>)
    ensures
        occurs(pre + "\""@ + r + "\""@, quoted(r)),
{
    let hay = pre + "\""@ + r + "\""@;
    let i = pre.len() as int;
    assert(hay.subrange(i, i + quoted(r).len()) =~= quoted(r));
}

proof fn lemma_client_method_route(package: Seq<char>, service: Seq<char>, m: MethodView)
    ensures
        occurs(
            client_method_text(package, service, m),
            quoted(route_of(package, service, m.name)),
        ),
{
    broadcast use lemma_occurs_concat;

    let r = route_of(package, service, m.name);
    lemma_quoted_after("        let path = http::uri::PathAndQuery::from_static("@, r);
}

proof fn lemma_client_methods_route(package: Seq<char>, service: Seq<char>, ms: Seq<MethodView>, i: int)
    requires
        0 <= i < ms.len(),
    ensures
        occurs(
            client_methods_text(package, service, ms),
            quoted(route_of(package, service, ms[i].name)),
        ),
    decreases ms.len(),
{
    broadcast use lemma_occurs_concat;

    if i == ms.len() - 1 {
        lemma_client_method_route(package, service, ms[i]);
    } else {
        lemma_client_methods_route(package, service, ms.drop_last(), i);
    }
}

proof fn lemma_server_routes_route(
    trait_name: Seq<char>,
    package: Seq<char>,
    service: Seq<char>,
    ms: Seq<MethodView>,
    i: int,
)
    requires
        0 <= i < ms.len(),
    ensures
        occurs(
            server_routes_text(trait_name, package, service, ms),
            quoted(route_of(package, service, ms[i].name)),
        ),
    decreases ms.len(),
{
    broadcast use lemma_occurs_concat;

    if i == ms.len() - 1 {
        lemma_quoted_after("                "@, route_of(package, service, ms[i].name));
    } else {
        lemma_server_routes_route(trait_name, package, service, ms.drop_last(), i);
    }
}

proof fn lemma_service_route(package: Seq<char>, s: ServiceView, i: int)
    requires
        0 <= i < s.methods.len(),
    ensures
        occurs(client_mod_text(package, s), quoted(route_of(package, s.name, s.methods[i].name))),
        occurs(server_mod_text(package, s), quoted(route_of(package, s.name, s.methods[i].name))),
{
    broadcast use lemma_occurs_concat;

    reveal(client_mod_text);
    reveal(server_mod_text);
    lemma_client_methods_route(package, s.name, s.methods, i);
    lemma_server_routes_route(trait_name_of(s.name), package, s.name, s.methods, i);
}

proof fn lemma_services_route(package: Seq<char>, ss: Seq<ServiceView>, j: int, i: int)
    requires
        0 <= j < ss.len(),
        0 <= i < ss[j].methods.len(),
    ensures
        occurs(clients_text(package, ss), quoted(route_of(package, ss[j].name, ss[j].methods[i].name))),
        occurs(servers_text(package, ss), quoted(route_of(package, ss[j].name, ss[j].methods[i].name))),
    decreases ss.len(),
{
    broadcast use lemma_occurs_concat;

    if j == ss.len() - 1 {
        lemma_service_route(package, ss[j], i);
    } else {
        lemma_services_route(package, ss.drop_last(), j, i);
    }
}

/// The wire route of a method is `/<package>.<service>/<method>` with the
/// method name exactly as declared, whatever case conversion the bindings
/// apply to identifiers; the compiled client and server both address the method
/// by that literal route.
pub proof fn law_route_is_declared_name(d: DescriptorView, j: int, i: int)
    requires
        0 <= j < d.services.len(),
        0 <= i < d.services[j].methods.len(),
    ensures
        route_of(d.package, d.services[j].name, d.services[j].methods[i].name) == "/"@ + d.package
            + "."@ + d.services[j].name + "/"@ + d.services[j].methods[i].name,
        occurs(
            clients_text(d.package, d.services),
            quoted(route_of(d.package, d.services[j].name, d.services[j].methods[i].name)),
        ),
        occurs(
            servers_text(d.package, d.services),
            quoted(route_of(d.package, d.services[j].name, d.services[j].methods[i].name)),
        ),
        occurs(
            bindings_text(d),
            quoted(route_of(d.package, d.services[j].name, d.services[j].methods[i].name)),
        ),
{
    broadcast use lemma_occurs_concat;

    lemma_services_route(d.package, d.services, j, i);
    assert(route_of(d.package, d.services[j].name, d.services[j].methods[i].name) =~= "/"@
        + d.package + "."@ + d.services[j].name + "/"@ + d.services[j].methods[i].name);
}

/// Routes tell methods apart by their declared names alone: two methods of a
/// service share a route only when their names are the same text, so names
/// that differ only in style (`SayHello`, `say_hello`) address different
/// routes even where their identifiers in the bindings coincide. Types and
/// streaming flags play no part in a route.
pub proof fn law_route_injective(package: Seq<char>, service: Seq<char>, m1: MethodView, m2: MethodView)
    ensures
        route_of(package, service, m1.name) == route_of(package, service, m2.name) <==> m1.name
            == m2.name,
{
    let pre = "/"@ + package + "."@ + service + "/"@;
    assert(route_of(package, service, m1.name) =~= pre + m1.name);
    assert(route_of(package, service, m2.name) =~= pre + m2.name);
    if route_of(package, service, m1.name) == route_of(package, service, m2.name) {
        assert(m1.name =~= (pre + m1.name).subrange(pre.len() as int, (pre + m1.name).len() as int));
        assert(m2.name =~= (pre + m2.name).subrange(pre.len() as int, (pre + m2.name).len() as int));
    }
}

/// Every method that a schema text declares is addressed in the compiled
/// bindings by its literal route `/<package>.<service>/<method>`.
pub proof fn law_compiled_schema_routes(src: Seq<char>, j: int, i: int)
    requires
        parse_schema(src) is Ok,
        0 <= j < parse_schema(src)->Ok_0.services.len(),
        0 <= i < parse_schema(src)->Ok_0.services[j].methods.len(),
    ensures
        occurs(
            bindings_text(parse_schema(src)->Ok_0),
            quoted(
                "/"@ + parse_schema(src)->Ok_0.package + "."@
                    + parse_schema(src)->Ok_0.services[j].name + "/"@
                    + parse_schema(src)->Ok_0.services[j].methods[i].name,
            ),
        ),
{
    law_route_is_declared_name(parse_schema(src)->Ok_0, j, i);
}

/// The two streaming flags alone select the calling convention: the four
/// pairs give four different conventions, with four different transport entry
/// points and four different server adapters.
pub proof fn law_flags_select_distinct_shapes(c1: bool, s1: bool, c2: bool, s2: bool)
    requires
        c1 != c2 || s1 != s2,
    ensures
        shape_of(c1, s1) != shape_of(c2, s2),
        entry_point_of(shape_of(c1, s1)) != entry_point_of(shape_of(c2, s2)),
        service_trait_of(shape_of(c1, s1)) != service_trait_of(shape_of(c2, s2)),
{
    reveal_strlit("unary");
    reveal_strlit("server_streaming");
    reveal_strlit("client_streaming");
    reveal_strlit("streaming");
    reveal_strlit("UnaryService");
    reveal_strlit("ServerStreamingService");
    reveal_strlit("ClientStreamingService");
    reveal_strlit("StreamingService");
    let a = shape_of(c1, s1);
    let b = shape_of(c2, s2);
    if entry_point_of(a) == entry_point_of(b) {
        assert(entry_point_of(a)[0] == entry_point_of(b)[0]);
        assert(entry_point_of(a).len() == entry_point_of(b).len());
    }
    if service_trait_of(a) == service_trait_of(b) {
        assert(service_trait_of(a)[0] == service_trait_of(b)[0]);
        assert(service_trait_of(a).len() == service_trait_of(b).len());
    }
}

/// Both bindings of a method use the calling convention its flags select: the
/// client method makes the matching transport call, and the router arm wraps
/// the method in the matching server adapter and serves it through the
/// matching entry point.
pub proof fn law_bindings_use_selected_shape(
    trait_name: Seq<char>,
    package: Seq<char>,
    service: Seq<char>,
    m: MethodView,
)
    ensures
        occurs(
            client_method_text(package, service, m),
            client_call_of(shape_of(m.client_streaming, m.server_streaming)),
        ),
        occurs(
            server_route_text(trait_name, package, service, m),
            service_trait_of(shape_of(m.client_streaming, m.server_streaming)),
        ),
        occurs(
            server_route_text(trait_name, package, service, m),
            entry_point_of(shape_of(m.client_streaming, m.server_streaming)),
        ),
{
    broadcast use lemma_occurs_concat;

    let shape = shape_of(m.client_streaming, m.server_streaming);
    lemma_occurs_self(client_call_of(shape));
    lemma_occurs_self(service_trait_of(shape));
    lemma_occurs_self(entry_point_of(shape));
}

/// Requests are served independently: the router's decision depends on the
/// requested route alone, so two requests for the same route go to the same
/// method; and the arm that serves a method builds its adapter and its codec
/// afresh for each call, so nothing call-local is shared between calls.
pub proof fn law_dispatch_is_per_request(
    trait_name: Seq<char>,
    package: Seq<char>,
    s: ServiceView,
    m: MethodView,
    p1: Seq<char>,
    p2: Seq<char>,
)
    requires
        p1 == p2,
    ensures
        route_index(package, s, p1) == route_index(package, s, p2),
        occurs(
            server_route_text(trait_name, package, s.name, m),
            "                    let method = Svc(inner);\n"@,
        ),
        occurs(
            server_route_text(trait_name, package, s.name, m),
            "                    let codec = ::rotors::codec::CborCodec::default();\n"@,
        ),
{
    broadcast use lemma_occurs_concat;

    lemma_occurs_self("                    let method = Svc(inner);\n"@);
    lemma_occurs_self("                    let codec = ::rotors::codec::CborCodec::default();\n"@);
}

/// A route that no method of the service owns is given to no method: the
/// router answers it with the unimplemented response.
pub proof fn law_unmatched_route(package: Seq<char>, s: ServiceView, path: Seq<char>)
    requires
        forall|i: int| 0 <= i < s.methods.len() ==> route_of(package, s.name, s.methods[i].name) != path,
    ensures
        route_index(package, s, path) is None,
{
    if exists|k: int| first_match(package, s, path, k) {
        let k = choose|k: int| first_match(package, s, path, k);
        assert(route_of(package, s.name, s.methods[k].name) != path);
    }
}

} // verus!
