//! What an agent is made from.

use crate::claims::AgentName;
use vstd::prelude::*;

verus! {

/// The versions of TLS that an agent can be asked to speak.
#[derive(Clone, Copy, Debug, PartialEq, Eq, Hash, Structural)]
pub enum TLSVersion {
    V1_3,
    V1_2,
}

/// The role of an agent in a session.
#[derive(Clone, Copy, Debug, PartialEq, Eq, Hash, Structural)]
pub enum AgentType {
    Server,
    Client,
}

/// Who an agent is and how it takes part in a session.
#[derive(Clone, Copy, Debug, PartialEq, Eq, Structural)]
pub struct AgentDescriptor {
    pub name: AgentName,
    pub tls_version: TLSVersion,
    /// Whether the agent is a server or a client.
    pub typ: AgentType,
    /// Whether the agent is kept for the next run where that is possible.
    pub try_reuse: bool,
    /// Whether the client proves who it is.
    pub client_authentication: bool,
    /// Whether the server proves who it is.
    pub server_authentication: bool,
}

/// Static configuration for creating a new agent state for the program under
/// test. The ledger that the agent's claims go to is no part of it: the
/// driver of a run owns the ledger and hands it to whoever appends.
#[derive(Clone, Copy, Debug, PartialEq, Eq, Structural)]
pub struct TlsPutConfig {
    pub descriptor: AgentDescriptor,
    /// Whether the agent checks the certificate of its peer.
    pub authenticate_peer: bool,
}

} // verus!
