use crate::descriptor::{Service, ServiceView};
use crate::naming::{route, route_of};
use crate::status::{code_value, Code};
use vstd::prelude::*;

verus! {

/// Method `i` is the first whose route is `path`.
pub open spec fn first_match(package: Seq<char>, s: ServiceView, path: Seq<char>, i: int) -> bool {
    &&& 0 <= i < s.methods.len()
    &&& route_of(package, s.name, s.methods[i].name) == path
    &&& forall|j: int| 0 <= j < i ==> route_of(package, s.name, s.methods[j].name) != path
}

/// The method that the router hands a request for `path` to: the first whose
/// route is exactly `path`, or none.
pub open spec fn route_index(package: Seq<char>, s: ServiceView, path: Seq<char>) -> Option<int> {
    if exists|i: int| first_match(package, s, path, i) {
        Some(choose|i: int| first_match(package, s, path, i))
    } else {
        None
    }
}

/// At most one method is the first match.
pub proof fn lemma_first_match_unique(package: Seq<char>, s: ServiceView, path: Seq<char>, i: int, k: int)
    requires
        first_match(package, s, path, i),
        first_match(package, s, path, k),
    ensures
        i == k,
{
}

/// The response to a route that no method owns.
pub struct UnimplementedResponse {
    pub http_status: u16,
    pub grpc_status: i32,
    pub content_type: String,
}

/// The fixed response for an unmatched route: success at the transport level,
/// the not-implemented status inside, and the gRPC content type.
pub fn unimplemented_response() -> (r: UnimplementedResponse)
    ensures
        r.http_status == 200,
        r.grpc_status == code_value(Code::Unimplemented),
        r.content_type@ == "application/grpc"@,
{
    UnimplementedResponse {
        http_status: 200,
        grpc_status: Code::Unimplemented.value(),
        content_type: String::from_str("application/grpc"),
    }
}

impl Service {
    /// The router's decision for an inbound `path`: the index of the method
    /// whose route it is, or `None` where the unimplemented response is due.
    pub fn dispatch(&self, package: &str, path: &str) -> (r: Option<usize>)
        ensures
            r matches Some(i) ==> route_index(package@, self@, path@) == Some(i as int),
            r is None ==> route_index(package@, self@, path@) is None,
    {
        let wanted = String::from_str(path);
        let mut i: usize = 0;
        while i < self.method.len()
            invariant
                i <= self.method@.len(),
                wanted@ == path@,
                forall|j: int|
                    0 <= j < i ==> route_of(package@, self@.name, self@.methods[j].name) != path@,
            decreases self.method@.len() - i,
        {
            let candidate = route(package, self.name.as_str(), self.method[i].name.as_str());
            if candidate == wanted {
                proof {
                    assert(first_match(package@, self@, path@, i as int));
                    let k = choose|k: int| first_match(package@, self@, path@, k);
                    lemma_first_match_unique(package@, self@, path@, i as int, k);
                }
                return Some(i);
            }
            i = i + 1;
        }
        proof {
            if exists|k: int| first_match(package@, self@, path@, k) {
                let k = choose|k: int| first_match(package@, self@, path@, k);
                assert(route_of(package@, self@.name, self@.methods[k].name) != path@);
            }
        }
        None
    }
}

} // verus!
