//! The per-peer session logic: the two-step version-negotiation
//! handshake and the offer request that follows it. Only the
//! decisions live here — sending and receiving the framed bytes is
//! the caller's business.
use crate::messages::{
    MakerAddress, MakerToTakerMessage, MakerToTakerMessageV, Offer, OfferAndAddress, TakerHello,
    TakerToMakerMessage,
};
use crate::ProtocolError;
use vstd::prelude::*;

verus! {

/// The one protocol version this client speaks, sent as both ends of
/// its supported range.
pub const PROTOCOL_VERSION: u32 = 1;

/// The handshake's two states: a hello has been sent and the peer's
/// answer is awaited, or the peer answered and the session is usable.
#[derive(Clone, Copy, Debug, PartialEq, Eq, Structural)]
pub enum HandshakeState {
    AwaitingHello,
    Ready,
}

/// The message that opens every session.
pub fn client_hello() -> (m: TakerToMakerMessage)
    ensures
        m == TakerToMakerMessage::TakerHello(
            TakerHello { protocol_version_min: 1, protocol_version_max: 1 },
        ),
{
    TakerToMakerMessage::TakerHello(
        TakerHello {
            protocol_version_min: PROTOCOL_VERSION,
            protocol_version_max: PROTOCOL_VERSION,
        },
    )
}

/// Drive the handshake on the peer's reply: any peer hello moves it
/// to `Ready`, whatever version range the hello carries (no range
/// comparison is made); every other message, the catch-all included,
/// is a protocol violation.
pub fn handshake_on_reply(st: HandshakeState, reply: &MakerToTakerMessage) -> (r: Result<
    HandshakeState,
    ProtocolError,
>)
    requires
        st == HandshakeState::AwaitingHello,
    ensures
        r is Ok <==> reply@ is MakerHello,
        r matches Ok(s2) ==> s2 == HandshakeState::Ready,
        r matches Err(e) ==> e == ProtocolError::UnexpectedMessage,
{
    match reply {
        MakerToTakerMessage::MakerHello(_) => Ok(HandshakeState::Ready),
        _ => Err(ProtocolError::UnexpectedMessage),
    }
}

/// Judge the reply to an offer request: exactly an offer response
/// yields its offer; every other message is a protocol violation.
pub fn offer_reply(reply: MakerToTakerMessage) -> (r: Result<Offer, ProtocolError>)
    ensures
        r is Ok <==> reply@ is RespOffer,
        r matches Ok(o) ==> reply@ == MakerToTakerMessageV::RespOffer(o@),
        r matches Err(e) ==> e == ProtocolError::UnexpectedMessage,
{
    match reply {
        MakerToTakerMessage::RespOffer(o) => Ok(o),
        _ => Err(ProtocolError::UnexpectedMessage),
    }
}

/// Stamp a received offer with the peer it came from and the capture
/// time the fetcher read from its clock.
pub fn annotate_offer(offer: Offer, address: MakerAddress, timestamp: u64) -> (r: OfferAndAddress)
    ensures
        r@.offer == offer@,
        r@.address == address@,
        r@.timestamp == timestamp,
{
    OfferAndAddress { offer, address, timestamp }
}

} // verus!
