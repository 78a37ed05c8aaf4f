/// The transport crate, re-exported for the emitted bindings, which name it
/// as `::rotors::codegen::tonic`.
pub use tonic;
use crate::client::{client_mod_text, generate_client_mod};
use crate::descriptor::{Descriptor, DescriptorView, ServiceView};
use crate::parse::{parse_schema, SchemaError};
use crate::server::{generate_server_mod, server_mod_text};
use vstd::prelude::*;

verus! {

/// The client modules of the services, in declaration order.
pub open spec fn clients_text(package: Seq<char>, ss: Seq<ServiceView>) -> Seq<char>
    decreases ss.len(),
{
    if ss.len() == 0 {
        Seq::empty()
    } else {
        clients_text(package, ss.drop_last()) + client_mod_text(package, ss.last())
    }
}

/// The server modules of the services, in declaration order.
pub open spec fn servers_text(package: Seq<char>, ss: Seq<ServiceView>) -> Seq<char>
    decreases ss.len(),
{
    if ss.len() == 0 {
        Seq::empty()
    } else {
        servers_text(package, ss.drop_last()) + server_mod_text(package, ss.last())
    }
}

/// Everything a descriptor compiles to: all client modules, then all server modules.
pub open spec fn bindings_text(d: DescriptorView) -> Seq<char> {
    clients_text(d.package, d.services) + servers_text(d.package, d.services)
}

impl Descriptor {
    /// Emits the bindings of every service as Rust source text.
    pub fn to_source(&self) -> (r: String)
        ensures
            r@ == bindings_text(self@),
    {
        let package = self.package.name.as_str();
        let mut clients = String::new();
        let mut servers = String::new();
        let mut i: usize = 0;
        while i < self.service.len()
            invariant
                i <= self.service@.len(),
                package@ == self@.package,
                clients@ == clients_text(self@.package, self@.services.take(i as int)),
                servers@ == servers_text(self@.package, self@.services.take(i as int)),
            decreases self.service@.len() - i,
        {
            let client = generate_client_mod(package, &self.service[i]);
            let server = generate_server_mod(package, &self.service[i]);
            clients.append(client.as_str());
            servers.append(server.as_str());
            proof {
                let ss = self@.services;
                assert(ss.take(i + 1).drop_last() =~= ss.take(i as int));
            }
            i = i + 1;
        }
        proof {
            assert(self@.services.take(i as int) =~= self@.services);
        }
        clients.append(servers.as_str());
        clients
    }
}

/// Compiles a schema to the Rust source of its bindings, or reports where the
/// schema is malformed.
pub fn rotors(src: &str) -> (r: Result<String, SchemaError>)
    requires
        src@.len() + 4 <= usize::MAX,
    ensures
        match parse_schema(src@) {
            Ok(d) => r matches Ok(text) && text@ == bindings_text(d),
            Err(e) => r matches Err(re) && re@ == e,
        },
{
    match Descriptor::parse(src) {
        Ok(d) => Ok(d.to_source()),
        Err(e) => Err(e),
    }
}

} // verus!
