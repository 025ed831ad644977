//! What an agent decides while it drives a TLS engine.
//!
//! The engine itself is no part of this library. Whoever holds one asks here
//! which call to make next, makes the call, and hands back how the call
//! ended; the answer is what the driver of the trace gets to see.

use vstd::prelude::*;

verus! {

/// The call that moves the handshake of an engine on.
#[derive(Clone, Copy, Debug, PartialEq, Eq, Hash, Structural)]
pub enum HandshakeCall {
    /// Wait for a client and answer it.
    Accept,
    /// Open the session with a server.
    Connect,
}

/// The call into the engine that is due when the driver asks an agent for
/// what has come in.
#[derive(Clone, Copy, Debug, PartialEq, Eq, Hash, Structural)]
pub enum EngineCall {
    /// The handshake is not done yet: move it on.
    Handshake(HandshakeCall),
    /// The handshake is done: read the next application data.
    ReadApplicationData,
}

/// How a call into a TLS engine ended.
#[derive(Clone, Debug)]
pub enum EngineSignal {
    /// The handshake is done.
    Finished,
    /// The engine needs bytes that the inbound channel does not hold yet. This
    /// is how a read that would block shows up.
    WantRead,
    /// The engine has written what it had to say and waits for it to be sent.
    WantWrite,
    /// The engine gave up; the text is its own account of why.
    Failed(String),
}

/// What the driver of a trace learns when it has let an agent go on.
#[derive(Clone, Debug)]
pub enum Progress {
    /// The agent waits for input.
    NeedsInput,
    /// The agent has put records into its outbound channel.
    ProducedOutput,
    /// The handshake is done.
    HandshakeComplete,
    /// The engine failed; the text is the one that the engine gave.
    Fatal(String),
}

/// The handshake call of an agent: a server accepts, a client connects.
pub fn handshake_call(server: bool) -> (call: HandshakeCall)
    ensures
        call == if server {
            HandshakeCall::Accept
        } else {
            HandshakeCall::Connect
        },
{
    if server {
        HandshakeCall::Accept
    } else {
        HandshakeCall::Connect
    }
}

/// The call that is due: while the handshake goes on, the handshake call of
/// the agent's role; once it is done, a read of application data.
pub fn next_call(server: bool, handshake_done: bool) -> (call: EngineCall)
    ensures
        call == if handshake_done {
            EngineCall::ReadApplicationData
        } else if server {
            EngineCall::Handshake(HandshakeCall::Accept)
        } else {
            EngineCall::Handshake(HandshakeCall::Connect)
        },
{
    if handshake_done {
        EngineCall::ReadApplicationData
    } else {
        EngineCall::Handshake(handshake_call(server))
    }
}

/// What the driver is told of the way in which a call into the engine ended.
pub open spec fn progress_after(signal: EngineSignal) -> Progress {
    match signal {
        EngineSignal::Finished => Progress::HandshakeComplete,
        EngineSignal::WantRead => Progress::NeedsInput,
        EngineSignal::WantWrite => Progress::ProducedOutput,
        EngineSignal::Failed(message) => Progress::Fatal(message),
    }
}

/// Turns the way in which a call into the engine ended into what the driver is
/// told. A read that would block is reported as a need for input, never as a
/// failure; a failure keeps the text of the engine as it is.
pub fn progress(signal: EngineSignal) -> (r: Progress)
    ensures
        r == progress_after(signal),
{
    match signal {
        EngineSignal::Finished => Progress::HandshakeComplete,
        EngineSignal::WantRead => Progress::NeedsInput,
        EngineSignal::WantWrite => Progress::ProducedOutput,
        EngineSignal::Failed(message) => Progress::Fatal(message),
    }
}

/// What an agent hands to the driver that asks for what has come in: the
/// application data that the engine has read, cut to the `count` bytes that
/// the read filled. A handshake call hands over nothing, and neither does a
/// read that did not come to an end.
pub fn drained(call: EngineCall, outcome: Option<usize>, buffer: Vec<u8>) -> (r: Option<Vec<u8>>)
    ensures
        r is Some <==> call == EngineCall::ReadApplicationData && outcome is Some
            && outcome.unwrap() <= buffer@.len(),
        r matches Some(data) ==> data@ == buffer@.take(outcome.unwrap() as int),
{
    match (call, outcome) {
        (EngineCall::ReadApplicationData, Some(count)) => {
            if count <= buffer.len() {
                let mut data = buffer;
                data.truncate(count);
                Some(data)
            } else {
                None
            }
        },
        _ => None,
    }
}

} // verus!
