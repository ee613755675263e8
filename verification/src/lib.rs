//! Peer-discovery and offer-aggregation client for an anonymity-network
//! marketplace: a length-prefixed binary message codec, a two-step
//! version-negotiation handshake, a retrying directory bootstrap, and the
//! pure decision logic of the per-peer fetch orchestration.
use vstd::prelude::*;

pub mod codec;
pub mod directory;
pub mod keys;
pub mod messages;
pub mod orchestrator;
pub mod session;
pub mod wire;

verus! {

/// Failure of the protocol layer: a payload that does not decode, or a
/// well-formed message of the wrong kind for the current protocol state.
#[derive(Clone, Copy, Debug, PartialEq, Eq, Structural)]
pub enum ProtocolError {
    Decode,
    UnexpectedMessage,
}

} // verus!
