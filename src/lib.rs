//! An interface-definition compiler for RPC services: a small schema is parsed
//! into a descriptor, from which client and server bindings are emitted as Rust
//! source text, together with the CBOR codec those bindings use.
pub mod client;
pub mod codec;
pub mod codegen;
pub mod descriptor;
pub mod laws;
pub mod lex;
pub mod naming;
pub mod parse;
pub mod router;
pub mod server;
pub mod status;

pub use codec::{CborCodec, CborDecoder, CborEncoder};
pub use codegen::rotors;
pub use descriptor::{Descriptor, Method, Package, Service};
pub use client::generate_client_mod;
pub use server::generate_server_mod;
