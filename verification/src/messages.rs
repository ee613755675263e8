//! Typed protocol messages and the offer data they carry, with the
//! mathematical view of each type. Byte-blob fields (transaction id,
//! public keys, certificate material) are raw byte vectors; the two
//! proportional fee rates are carried as the bit patterns of 64-bit
//! IEEE floats, so that the codec can move them without interpreting
//! them.
use vstd::prelude::*;

verus! {

/// A peer's connect target: an opaque host-like name and a port, both
/// kept as the raw bytes of the directory's text.
#[derive(Clone, Debug, PartialEq, Eq)]
pub struct MakerAddress {
    pub onion_addr: Vec<u8>,
    pub port: Vec<u8>,
}

pub struct MakerAddressV {
    pub onion_addr: Seq<u8>,
    pub port: Seq<u8>,
}

impl View for MakerAddress {
    type V = MakerAddressV;

    open spec fn view(&self) -> MakerAddressV {
        MakerAddressV { onion_addr: self.onion_addr@, port: self.port@ }
    }
}

impl MakerAddress {
    /// The `host:port` form of the address, as the directory wrote it.
    pub fn host_port(&self) -> (r: Vec<u8>)
        ensures
            r@ == self@.onion_addr + seq![58u8] + self@.port,
    {
        let mut r: Vec<u8> = Vec::new();
        crate::wire::push_all(&mut r, &self.onion_addr);
        r.push(58);
        crate::wire::push_all(&mut r, &self.port);
        assert(r@ =~= self@.onion_addr + seq![58u8] + self@.port);
        r
    }
}

/// A reference to a funding output: a transaction id held as lowercase
/// hex text, and an output index.
#[derive(Clone, Debug, PartialEq, Eq)]
pub struct OutPoint {
    pub txid: Vec<u8>,
    pub vout: u32,
}

pub struct OutPointV {
    pub txid: Seq<u8>,
    pub vout: u32,
}

impl View for OutPoint {
    type V = OutPointV;

    open spec fn view(&self) -> OutPointV {
        OutPointV { txid: self.txid@, vout: self.vout }
    }
}

/// A peer's collateral commitment: funding output, amount, lock time,
/// the committing key, and two block heights.
#[derive(Clone, Debug, PartialEq, Eq)]
pub struct FidelityBond {
    pub outpoint: OutPoint,
    pub amount: u64,
    pub lock_time: u32,
    pub pubkey: Vec<u8>,
    pub conf_height: u32,
    pub cert_expiry: u32,
}

pub struct FidelityBondV {
    pub outpoint: OutPointV,
    pub amount: u64,
    pub lock_time: u32,
    pub pubkey: Seq<u8>,
    pub conf_height: u32,
    pub cert_expiry: u32,
}

impl View for FidelityBond {
    type V = FidelityBondV;

    open spec fn view(&self) -> FidelityBondV {
        FidelityBondV {
            outpoint: self.outpoint@,
            amount: self.amount,
            lock_time: self.lock_time,
            pubkey: self.pubkey@,
            conf_height: self.conf_height,
            cert_expiry: self.cert_expiry,
        }
    }
}

/// A fidelity bond together with its certificate hash and signature,
/// both opaque (this client parses them, it does not verify them).
#[derive(Clone, Debug, PartialEq, Eq)]
pub struct FidelityProof {
    pub bond: FidelityBond,
    pub cert_hash: Vec<u8>,
    pub cert_sig: Vec<u8>,
}

pub struct FidelityProofV {
    pub bond: FidelityBondV,
    pub cert_hash: Seq<u8>,
    pub cert_sig: Seq<u8>,
}

impl View for FidelityProof {
    type V = FidelityProofV;

    open spec fn view(&self) -> FidelityProofV {
        FidelityProofV { bond: self.bond@, cert_hash: self.cert_hash@, cert_sig: self.cert_sig@ }
    }
}

/// A peer's advertised pricing and liquidity terms. The two `_bits`
/// fields hold IEEE-754 bit patterns of the proportional fee rates.
#[derive(Clone, Debug, PartialEq, Eq)]
pub struct Offer {
    pub base_fee: u64,
    pub amount_relative_fee_pct_bits: u64,
    pub time_relative_fee_pct_bits: u64,
    pub min_size: u64,
    pub max_size: u64,
    pub required_confirms: u32,
    pub minimum_locktime: u16,
    pub fidelity: FidelityProof,
    pub tweakable_point: Vec<u8>,
}

pub struct OfferV {
    pub base_fee: u64,
    pub amount_relative_fee_pct_bits: u64,
    pub time_relative_fee_pct_bits: u64,
    pub min_size: u64,
    pub max_size: u64,
    pub required_confirms: u32,
    pub minimum_locktime: u16,
    pub fidelity: FidelityProofV,
    pub tweakable_point: Seq<u8>,
}

impl View for Offer {
    type V = OfferV;

    open spec fn view(&self) -> OfferV {
        OfferV {
            base_fee: self.base_fee,
            amount_relative_fee_pct_bits: self.amount_relative_fee_pct_bits,
            time_relative_fee_pct_bits: self.time_relative_fee_pct_bits,
            min_size: self.min_size,
            max_size: self.max_size,
            required_confirms: self.required_confirms,
            minimum_locktime: self.minimum_locktime,
            fidelity: self.fidelity@,
            tweakable_point: self.tweakable_point@,
        }
    }
}

/// One successful fetch: the offer, the peer it came from, and the
/// capture time (seconds since epoch, stamped by the fetcher).
#[derive(Clone, Debug, PartialEq, Eq)]
pub struct OfferAndAddress {
    pub offer: Offer,
    pub address: MakerAddress,
    pub timestamp: u64,
}

pub struct OfferAndAddressV {
    pub offer: OfferV,
    pub address: MakerAddressV,
    pub timestamp: u64,
}

impl View for OfferAndAddress {
    type V = OfferAndAddressV;

    open spec fn view(&self) -> OfferAndAddressV {
        OfferAndAddressV { offer: self.offer@, address: self.address@, timestamp: self.timestamp }
    }
}

/// The request sent to the directory's rendezvous target.
#[derive(Clone, Copy, Debug, PartialEq, Eq, Structural)]
pub enum DnsRequest {
    Get,
}

impl View for DnsRequest {
    type V = DnsRequest;

    open spec fn view(&self) -> DnsRequest {
        *self
    }
}

/// The client's half of the version-negotiation handshake.
#[derive(Clone, Copy, Debug, PartialEq, Eq, Structural)]
pub struct TakerHello {
    pub protocol_version_min: u32,
    pub protocol_version_max: u32,
}

/// The peer's half of the version-negotiation handshake.
#[derive(Clone, Copy, Debug, PartialEq, Eq, Structural)]
pub struct MakerHello {
    pub protocol_version_min: u32,
    pub protocol_version_max: u32,
}

/// Messages the client sends to a peer.
#[derive(Clone, Copy, Debug, PartialEq, Eq, Structural)]
pub enum TakerToMakerMessage {
    TakerHello(TakerHello),
    ReqGiveOffer,
}

impl View for TakerToMakerMessage {
    type V = TakerToMakerMessage;

    open spec fn view(&self) -> TakerToMakerMessage {
        *self
    }
}

/// Messages a peer sends to the client. An unrecognized variant tag
/// decodes to `Unknown` rather than failing, for forward compatibility.
#[derive(Clone, Debug, PartialEq, Eq)]
pub enum MakerToTakerMessage {
    MakerHello(MakerHello),
    RespOffer(Offer),
    Unknown,
}

pub enum MakerToTakerMessageV {
    MakerHello(MakerHello),
    RespOffer(OfferV),
    Unknown,
}

impl View for MakerToTakerMessage {
    type V = MakerToTakerMessageV;

    open spec fn view(&self) -> MakerToTakerMessageV {
        match self {
            MakerToTakerMessage::MakerHello(h) => MakerToTakerMessageV::MakerHello(*h),
            MakerToTakerMessage::RespOffer(o) => MakerToTakerMessageV::RespOffer(o@),
            MakerToTakerMessage::Unknown => MakerToTakerMessageV::Unknown,
        }
    }
}

impl OutPoint {
    /// A fresh value holding the same fields.
    pub fn duplicate(&self) -> (r: Self)
        ensures
            r@ == self@,
    {
        OutPoint { txid: crate::wire::copy_bytes(&self.txid), vout: self.vout }
    }
}

impl FidelityBond {
    /// A fresh value holding the same fields.
    pub fn duplicate(&self) -> (r: Self)
        ensures
            r@ == self@,
    {
        FidelityBond {
            outpoint: self.outpoint.duplicate(),
            amount: self.amount,
            lock_time: self.lock_time,
            pubkey: crate::wire::copy_bytes(&self.pubkey),
            conf_height: self.conf_height,
            cert_expiry: self.cert_expiry,
        }
    }
}

impl FidelityProof {
    /// A fresh value holding the same fields.
    pub fn duplicate(&self) -> (r: Self)
        ensures
            r@ == self@,
    {
        FidelityProof {
            bond: self.bond.duplicate(),
            cert_hash: crate::wire::copy_bytes(&self.cert_hash),
            cert_sig: crate::wire::copy_bytes(&self.cert_sig),
        }
    }
}

impl Offer {
    /// A fresh value holding the same fields.
    pub fn duplicate(&self) -> (r: Self)
        ensures
            r@ == self@,
    {
        Offer {
            base_fee: self.base_fee,
            amount_relative_fee_pct_bits: self.amount_relative_fee_pct_bits,
            time_relative_fee_pct_bits: self.time_relative_fee_pct_bits,
            min_size: self.min_size,
            max_size: self.max_size,
            required_confirms: self.required_confirms,
            minimum_locktime: self.minimum_locktime,
            fidelity: self.fidelity.duplicate(),
            tweakable_point: crate::wire::copy_bytes(&self.tweakable_point),
        }
    }
}

impl MakerAddress {
    /// A fresh value holding the same fields.
    pub fn duplicate(&self) -> (r: Self)
        ensures
            r@ == self@,
    {
        MakerAddress {
            onion_addr: crate::wire::copy_bytes(&self.onion_addr),
            port: crate::wire::copy_bytes(&self.port),
        }
    }
}

impl OfferAndAddress {
    /// A fresh value holding the same fields.
    pub fn duplicate(&self) -> (r: Self)
        ensures
            r@ == self@,
    {
        OfferAndAddress {
            offer: self.offer.duplicate(),
            address: self.address.duplicate(),
            timestamp: self.timestamp,
        }
    }
}

/// Length bounds under which a value's encoding is well defined: every
/// byte-blob field fits the largest header argument.
pub open spec fn outpoint_wf(o: OutPointV) -> bool {
    o.txid.len() <= u64::MAX
}

pub open spec fn bond_wf(b: FidelityBondV) -> bool {
    outpoint_wf(b.outpoint) && b.pubkey.len() <= u64::MAX
}

pub open spec fn fidelity_wf(p: FidelityProofV) -> bool {
    bond_wf(p.bond) && p.cert_hash.len() <= u64::MAX && p.cert_sig.len() <= u64::MAX
}

pub open spec fn offer_wf(o: OfferV) -> bool {
    fidelity_wf(o.fidelity) && o.tweakable_point.len() <= u64::MAX
}

pub open spec fn m2t_wf(m: MakerToTakerMessageV) -> bool {
    match m {
        MakerToTakerMessageV::RespOffer(o) => offer_wf(o),
        _ => true,
    }
}

/// The view of any in-memory offer is well formed: a vector never
/// holds more bytes than a header argument can count.
pub proof fn lemma_offer_view_wf(o: &Offer)
    ensures
        offer_wf(o@),
{
    assert(o.fidelity.bond.outpoint.txid.len() <= usize::MAX);
    assert(o.fidelity.bond.pubkey.len() <= usize::MAX);
    assert(o.fidelity.cert_hash.len() <= usize::MAX);
    assert(o.fidelity.cert_sig.len() <= usize::MAX);
    assert(o.tweakable_point.len() <= usize::MAX);
}

/// The view of any in-memory peer-to-client message is well formed.
pub proof fn lemma_m2t_view_wf(m: &MakerToTakerMessage)
    ensures
        m2t_wf(m@),
{
    match m {
        MakerToTakerMessage::RespOffer(o) => lemma_offer_view_wf(o),
        _ => {},
    }
}

} // verus!
