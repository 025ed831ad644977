//! The execution core of a symbolic fuzzer for TLS implementations: an
//! in-memory transport that hands out whole TLS records, the ledger of claims
//! that the endpoints make, and the checker that compares them.

pub mod agent;
pub mod callbacks;
pub mod claims;
pub mod io;
pub mod put;
pub mod put_registry;
pub mod record;
pub mod tls;
pub mod violation;
