//! The message codec: canonical encodings of every protocol message,
//! a deterministic decoder, the length-prefixed frame around a
//! payload, and the round-trip lemmas tying decoder to encoder.
//!
//! Structured messages travel as maps of text keys in declared field
//! order; a tagged variant is a one-entry map from the variant's tag
//! to its payload, and a payload-free variant is bare text. The
//! transaction id of an outpoint may arrive as text or as a raw byte
//! string; a raw byte string decodes to its lowercase hex text, so
//! both arrivals converge on the same representation.
use crate::keys::{
    lit_amount, lit_amount_relative_fee_pct, lit_base_fee, lit_bond, lit_cert_expiry,
    lit_cert_hash, lit_cert_sig, lit_conf_height, lit_fidelity, lit_get, lit_lock_time,
    lit_makerhello, lit_max_size, lit_min_size, lit_minimum_locktime, lit_outpoint,
    lit_protocol_version_max, lit_protocol_version_min, lit_pubkey, lit_reqgiveoffer,
    lit_required_confirms, lit_respoffer, lit_takerhello, lit_time_relative_fee_pct, lit_txid,
    lit_tweakable_point, lit_unknown, lit_vout, n_get, n_makerhello, n_reqgiveoffer, n_respoffer,
    n_takerhello, n_unknown, name_get, name_makerhello, name_reqgiveoffer, name_respoffer, name_takerhello,
    t_amount, t_amount_relative_fee_pct, t_base_fee, t_bond, t_cert_expiry, t_cert_hash,
    t_cert_sig, t_conf_height, t_fidelity, t_get, t_lock_time, t_makerhello, t_max_size,
    t_min_size, t_minimum_locktime, t_outpoint, t_protocol_version_max, t_protocol_version_min,
    t_pubkey, t_reqgiveoffer, t_required_confirms, t_respoffer, t_takerhello,
    t_time_relative_fee_pct, t_txid, t_tweakable_point, t_unknown, t_vout,
};
use crate::messages::{
    bond_wf, fidelity_wf, m2t_wf, offer_wf, outpoint_wf, DnsRequest, FidelityBond, FidelityBondV,
    FidelityProof, FidelityProofV, MakerHello, MakerToTakerMessage, MakerToTakerMessageV, Offer,
    OfferV, OutPoint, OutPointV, TakerHello, TakerToMakerMessage,
};
use crate::wire::{
    be4, copy_range, dec_bytes, dec_bytes_x, dec_f64, dec_f64_x, dec_head, dec_head_x, dec_lit,
    dec_maphead, dec_maphead_x, dec_text, dec_text_x, dec_uint, dec_uint_x, enc_bytes,
    enc_bytes_x, enc_f64, enc_f64_x, enc_null, enc_null_x, enc_text, enc_text_x, enc_uint,
    enc_uint_x, eq_bytes, hex_seq, lemma_dec_bytes, lemma_dec_f64, lemma_dec_maphead,
    lemma_dec_text, lemma_dec_uint, lemma_starts_split, map_head, map_head_x, match_lit,
    push_all, rd4, starts, to_hex, MAJOR_BYTES, MAJOR_MAP, MAJOR_TEXT,
};
use crate::ProtocolError;
use vstd::prelude::*;

verus! {

// ---------------------------------------------------------------- spec: encoding

#[verifier::opaque]
pub open spec fn enc_outpoint(o: OutPointV) -> Seq<u8> {
    map_head(2) + t_txid() + enc_text(o.txid) + t_vout() + enc_uint(o.vout as u64)
}

#[verifier::opaque]
pub open spec fn enc_bond(b: FidelityBondV) -> Seq<u8> {
    map_head(6) + t_outpoint() + enc_outpoint(b.outpoint) + t_amount() + enc_uint(b.amount)
        + t_lock_time() + enc_uint(b.lock_time as u64) + t_pubkey() + enc_bytes(b.pubkey)
        + t_conf_height() + enc_uint(b.conf_height as u64) + t_cert_expiry() + enc_uint(
        b.cert_expiry as u64,
    )
}

#[verifier::opaque]
pub open spec fn enc_fidelity(p: FidelityProofV) -> Seq<u8> {
    map_head(3) + t_bond() + enc_bond(p.bond) + t_cert_hash() + enc_bytes(p.cert_hash)
        + t_cert_sig() + enc_bytes(p.cert_sig)
}

#[verifier::opaque]
pub open spec fn enc_offer(o: OfferV) -> Seq<u8> {
    map_head(9) + t_base_fee() + enc_uint(o.base_fee) + t_amount_relative_fee_pct() + enc_f64(
        o.amount_relative_fee_pct_bits,
    ) + t_time_relative_fee_pct() + enc_f64(o.time_relative_fee_pct_bits) + t_min_size()
        + enc_uint(o.min_size) + t_max_size() + enc_uint(o.max_size) + t_required_confirms()
        + enc_uint(o.required_confirms as u64) + t_minimum_locktime() + enc_uint(
        o.minimum_locktime as u64,
    ) + t_fidelity() + enc_fidelity(o.fidelity) + t_tweakable_point() + enc_bytes(
        o.tweakable_point,
    )
}

#[verifier::opaque]
pub open spec fn enc_versions(mn: u32, mx: u32) -> Seq<u8> {
    map_head(2) + t_protocol_version_min() + enc_uint(mn as u64) + t_protocol_version_max()
        + enc_uint(mx as u64)
}

#[verifier::opaque]
pub open spec fn enc_t2m(m: TakerToMakerMessage) -> Seq<u8> {
    match m {
        TakerToMakerMessage::TakerHello(h) => map_head(1) + t_takerhello() + enc_versions(
            h.protocol_version_min,
            h.protocol_version_max,
        ),
        TakerToMakerMessage::ReqGiveOffer => map_head(1) + t_reqgiveoffer() + enc_null(),
    }
}

#[verifier::opaque]
pub open spec fn enc_m2t(m: MakerToTakerMessageV) -> Seq<u8> {
    match m {
        MakerToTakerMessageV::MakerHello(h) => map_head(1) + t_makerhello() + enc_versions(
            h.protocol_version_min,
            h.protocol_version_max,
        ),
        MakerToTakerMessageV::RespOffer(o) => map_head(1) + t_respoffer() + enc_offer(o),
        MakerToTakerMessageV::Unknown => t_unknown(),
    }
}

pub open spec fn enc_dns(m: DnsRequest) -> Seq<u8> {
    t_get()
}

// ---------------------------------------------------------------- spec: decoding

pub open spec fn dec_u32(s: Seq<u8>, pos: int) -> Option<(u32, int)> {
    match dec_uint(s, pos) {
        Some((v, p)) => if v <= 0xffff_ffff {
            Some((v as u32, p))
        } else {
            None
        },
        None => None,
    }
}

pub open spec fn dec_u16(s: Seq<u8>, pos: int) -> Option<(u16, int)> {
    match dec_uint(s, pos) {
        Some((v, p)) => if v <= 0xffff {
            Some((v as u16, p))
        } else {
            None
        },
        None => None,
    }
}

pub open spec fn dec_field_uint(s: Seq<u8>, pos: int, key: Seq<u8>) -> Option<(u64, int)> {
    match dec_lit(s, pos, key) {
        Some(p) => dec_uint(s, p),
        None => None,
    }
}

pub open spec fn dec_field_u32(s: Seq<u8>, pos: int, key: Seq<u8>) -> Option<(u32, int)> {
    match dec_lit(s, pos, key) {
        Some(p) => dec_u32(s, p),
        None => None,
    }
}

pub open spec fn dec_field_u16(s: Seq<u8>, pos: int, key: Seq<u8>) -> Option<(u16, int)> {
    match dec_lit(s, pos, key) {
        Some(p) => dec_u16(s, p),
        None => None,
    }
}

pub open spec fn dec_field_bytes(s: Seq<u8>, pos: int, key: Seq<u8>) -> Option<(Seq<u8>, int)> {
    match dec_lit(s, pos, key) {
        Some(p) => dec_bytes(s, p),
        None => None,
    }
}

pub open spec fn dec_field_f64(s: Seq<u8>, pos: int, key: Seq<u8>) -> Option<(u64, int)> {
    match dec_lit(s, pos, key) {
        Some(p) => dec_f64(s, p),
        None => None,
    }
}

/// A transaction id arrives as text (taken as is) or as raw bytes
/// (normalized to lowercase hex text); both give the same form.
pub open spec fn dec_txid(s: Seq<u8>, pos: int) -> Option<(Seq<u8>, int)> {
    match dec_head(s, pos) {
        Some((m, _len, _p)) => if m == MAJOR_TEXT {
            dec_text(s, pos)
        } else if m == MAJOR_BYTES {
            match dec_bytes(s, pos) {
                Some((raw, p)) => Some((hex_seq(raw), p)),
                None => None,
            }
        } else {
            None
        },
        None => None,
    }
}

#[verifier::opaque]
pub open spec fn dec_outpoint(s: Seq<u8>, pos: int) -> Option<(OutPointV, int)> {
    match dec_maphead(s, pos) {
        Some((n, p0)) => if n == 2 {
            match dec_lit(s, p0, t_txid()) {
                Some(p1) => match dec_txid(s, p1) {
                    Some((txid, p2)) => match dec_field_u32(s, p2, t_vout()) {
                        Some((vout, p3)) => Some((OutPointV { txid, vout }, p3)),
                        None => None,
                    },
                    None => None,
                },
                None => None,
            }
        } else {
            None
        },
        None => None,
    }
}

#[verifier::opaque]
pub open spec fn dec_bond(s: Seq<u8>, pos: int) -> Option<(FidelityBondV, int)> {
    match dec_maphead(s, pos) {
        Some((n, p0)) => if n == 6 {
            match dec_lit(s, p0, t_outpoint()) {
                Some(p1) => match dec_outpoint(s, p1) {
                    Some((outpoint, p2)) => match dec_field_uint(s, p2, t_amount()) {
                        Some((amount, p3)) => match dec_field_u32(s, p3, t_lock_time()) {
                            Some((lock_time, p4)) => match dec_field_bytes(s, p4, t_pubkey()) {
                                Some((pubkey, p5)) => match dec_field_u32(
                                    s,
                                    p5,
                                    t_conf_height(),
                                ) {
                                    Some((conf_height, p6)) => match dec_field_u32(
                                        s,
                                        p6,
                                        t_cert_expiry(),
                                    ) {
                                        Some((cert_expiry, p7)) => Some(
                                            (
                                                FidelityBondV {
                                                    outpoint,
                                                    amount,
                                                    lock_time,
                                                    pubkey,
                                                    conf_height,
                                                    cert_expiry,
                                                },
                                                p7,
                                            ),
                                        ),
                                        None => None,
                                    },
                                    None => None,
                                },
                                None => None,
                            },
                            None => None,
                        },
                        None => None,
                    },
                    None => None,
                },
                None => None,
            }
        } else {
            None
        },
        None => None,
    }
}

#[verifier::opaque]
pub open spec fn dec_fidelity(s: Seq<u8>, pos: int) -> Option<(FidelityProofV, int)> {
    match dec_maphead(s, pos) {
        Some((n, p0)) => if n == 3 {
            match dec_lit(s, p0, t_bond()) {
                Some(p1) => match dec_bond(s, p1) {
                    Some((bond, p2)) => match dec_field_bytes(s, p2, t_cert_hash()) {
                        Some((cert_hash, p3)) => match dec_field_bytes(s, p3, t_cert_sig()) {
                            Some((cert_sig, p4)) => Some(
                                (FidelityProofV { bond, cert_hash, cert_sig }, p4),
                            ),
                            None => None,
                        },
                        None => None,
                    },
                    None => None,
                },
                None => None,
            }
        } else {
            None
        },
        None => None,
    }
}

#[verifier::opaque]
pub open spec fn dec_offer(s: Seq<u8>, pos: int) -> Option<(OfferV, int)> {
    match dec_maphead(s, pos) {
        Some((n, p0)) => if n == 9 {
            match dec_field_uint(s, p0, t_base_fee()) {
                Some((base_fee, p1)) => match dec_field_f64(s, p1, t_amount_relative_fee_pct()) {
                    Some((arf, p2)) => match dec_field_f64(s, p2, t_time_relative_fee_pct()) {
                        Some((trf, p3)) => match dec_field_uint(s, p3, t_min_size()) {
                            Some((min_size, p4)) => match dec_field_uint(s, p4, t_max_size()) {
                                Some((max_size, p5)) => match dec_field_u32(
                                    s,
                                    p5,
                                    t_required_confirms(),
                                ) {
                                    Some((required_confirms, p6)) => match dec_field_u16(
                                        s,
                                        p6,
                                        t_minimum_locktime(),
                                    ) {
                                        Some((minimum_locktime, p7)) => match dec_lit(
                                            s,
                                            p7,
                                            t_fidelity(),
                                        ) {
                                            Some(p8) => match dec_fidelity(s, p8) {
                                                Some((fidelity, p9)) => match dec_field_bytes(
                                                    s,
                                                    p9,
                                                    t_tweakable_point(),
                                                ) {
                                                    Some((tweakable_point, p10)) => Some(
                                                        (
                                                            OfferV {
                                                                base_fee,
                                                                amount_relative_fee_pct_bits: arf,
                                                                time_relative_fee_pct_bits: trf,
                                                                min_size,
                                                                max_size,
                                                                required_confirms,
                                                                minimum_locktime,
                                                                fidelity,
                                                                tweakable_point,
                                                            },
                                                            p10,
                                                        ),
                                                    ),
                                                    None => None,
                                                },
                                                None => None,
                                            },
                                            None => None,
                                        },
                                        None => None,
                                    },
                                    None => None,
                                },
                                None => None,
                            },
                            None => None,
                        },
                        None => None,
                    },
                    None => None,
                },
                None => None,
            }
        } else {
            None
        },
        None => None,
    }
}

#[verifier::opaque]
pub open spec fn dec_versions(s: Seq<u8>, pos: int) -> Option<((u32, u32), int)> {
    match dec_maphead(s, pos) {
        Some((n, p0)) => if n == 2 {
            match dec_field_u32(s, p0, t_protocol_version_min()) {
                Some((mn, p1)) => match dec_field_u32(s, p1, t_protocol_version_max()) {
                    Some((mx, p2)) => Some(((mn, mx), p2)),
                    None => None,
                },
                None => None,
            }
        } else {
            None
        },
        None => None,
    }
}

/// Decode a complete peer-to-client payload. A tagged one-entry map
/// whose tag is recognized must carry that variant's payload and
/// nothing after it; any other tag, in map or bare-text position,
/// decodes to `Unknown`.
#[verifier::opaque]
pub open spec fn dec_m2t(s: Seq<u8>) -> Option<MakerToTakerMessageV> {
    match dec_head(s, 0) {
        Some((m, _len, _p)) => if m == MAJOR_TEXT {
            match dec_text(s, 0) {
                Some((name, _q)) => if name == n_makerhello() || name == n_respoffer() {
                    None
                } else {
                    Some(MakerToTakerMessageV::Unknown)
                },
                None => None,
            }
        } else if m == MAJOR_MAP {
            match dec_maphead(s, 0) {
                Some((n, p0)) => if n == 1 {
                    match dec_text(s, p0) {
                        Some((name, p1)) => if name == n_makerhello() {
                            match dec_versions(s, p1) {
                                Some(((mn, mx), p2)) => if p2 == s.len() {
                                    Some(
                                        MakerToTakerMessageV::MakerHello(
                                            MakerHello {
                                                protocol_version_min: mn,
                                                protocol_version_max: mx,
                                            },
                                        ),
                                    )
                                } else {
                                    None
                                },
                                None => None,
                            }
                        } else if name == n_respoffer() {
                            match dec_offer(s, p1) {
                                Some((o, p2)) => if p2 == s.len() {
                                    Some(MakerToTakerMessageV::RespOffer(o))
                                } else {
                                    None
                                },
                                None => None,
                            }
                        } else {
                            Some(MakerToTakerMessageV::Unknown)
                        },
                        None => None,
                    }
                } else {
                    None
                },
                None => None,
            }
        } else {
            None
        },
        None => None,
    }
}

/// Decode a complete client-to-peer payload (the peer's direction has
/// no catch-all: an unknown tag is an error).
#[verifier::opaque]
pub open spec fn dec_t2m(s: Seq<u8>) -> Option<TakerToMakerMessage> {
    match dec_maphead(s, 0) {
        Some((n, p0)) => if n == 1 {
            match dec_text(s, p0) {
                Some((name, p1)) => if name == n_takerhello() {
                    match dec_versions(s, p1) {
                        Some(((mn, mx), p2)) => if p2 == s.len() {
                            Some(
                                TakerToMakerMessage::TakerHello(
                                    TakerHello {
                                        protocol_version_min: mn,
                                        protocol_version_max: mx,
                                    },
                                ),
                            )
                        } else {
                            None
                        },
                        None => None,
                    }
                } else if name == n_reqgiveoffer() {
                    match dec_lit(s, p1, enc_null()) {
                        Some(p2) => if p2 == s.len() {
                            Some(TakerToMakerMessage::ReqGiveOffer)
                        } else {
                            None
                        },
                        None => None,
                    }
                } else {
                    None
                },
                None => None,
            }
        } else {
            None
        },
        None => None,
    }
}

/// Decode a complete directory-request payload.
pub open spec fn dec_dns(s: Seq<u8>) -> Option<DnsRequest> {
    match dec_text(s, 0) {
        Some((name, p)) => if p == s.len() && name == n_get() {
            Some(DnsRequest::Get)
        } else {
            None
        },
        None => None,
    }
}

/// Decode a complete directory-response payload: one text blob.
pub open spec fn dec_dir(s: Seq<u8>) -> Option<Seq<u8>> {
    match dec_text(s, 0) {
        Some((blob, p)) => if p == s.len() {
            Some(blob)
        } else {
            None
        },
        None => None,
    }
}

// ---------------------------------------------------------------- spec: framing

/// The envelope around a payload: a 4-byte big-endian length prefix.
pub open spec fn frame(p: Seq<u8>) -> Seq<u8> {
    be4(p.len() as u64) + p
}

/// A frame is whole when its prefix counts exactly the bytes after it.
pub open spec fn unframe(s: Seq<u8>) -> Option<Seq<u8>> {
    if s.len() >= 4 && rd4(s, 0) == (s.len() - 4) as u64 {
        Some(s.skip(4))
    } else {
        None
    }
}

// ---------------------------------------------------------------- round-trip lemmas

proof fn lemma_dec_field_uint(s: Seq<u8>, pos: int, key: Seq<u8>, v: u64)
    requires
        starts(s, pos, key),
        starts(s, pos + key.len(), enc_uint(v)),
    ensures
        dec_field_uint(s, pos, key) == Some((v, pos + key.len() + enc_uint(v).len())),
{
    lemma_dec_uint(s, pos + key.len(), v);
}

proof fn lemma_dec_field_u32(s: Seq<u8>, pos: int, key: Seq<u8>, v: u32)
    requires
        starts(s, pos, key),
        starts(s, pos + key.len(), enc_uint(v as u64)),
    ensures
        dec_field_u32(s, pos, key) == Some((v, pos + key.len() + enc_uint(v as u64).len())),
{
    lemma_dec_uint(s, pos + key.len(), v as u64);
}

proof fn lemma_dec_field_u16(s: Seq<u8>, pos: int, key: Seq<u8>, v: u16)
    requires
        starts(s, pos, key),
        starts(s, pos + key.len(), enc_uint(v as u64)),
    ensures
        dec_field_u16(s, pos, key) == Some((v, pos + key.len() + enc_uint(v as u64).len())),
{
    lemma_dec_uint(s, pos + key.len(), v as u64);
}

proof fn lemma_dec_field_bytes(s: Seq<u8>, pos: int, key: Seq<u8>, b: Seq<u8>)
    requires
        b.len() <= u64::MAX,
        starts(s, pos, key),
        starts(s, pos + key.len(), enc_bytes(b)),
    ensures
        dec_field_bytes(s, pos, key) == Some((b, pos + key.len() + enc_bytes(b).len())),
{
    lemma_dec_bytes(s, pos + key.len(), b);
}

proof fn lemma_dec_field_f64(s: Seq<u8>, pos: int, key: Seq<u8>, bits: u64)
    requires
        starts(s, pos, key),
        starts(s, pos + key.len(), enc_f64(bits)),
    ensures
        dec_field_f64(s, pos, key) == Some((bits, pos + key.len() + 9)),
{
    lemma_dec_f64(s, pos + key.len(), bits);
}

proof fn lemma_dec_outpoint(s: Seq<u8>, pos: int, o: OutPointV)
    requires
        outpoint_wf(o),
        starts(s, pos, enc_outpoint(o)),
    ensures
        dec_outpoint(s, pos) == Some((o, pos + enc_outpoint(o).len())),
{
    reveal(enc_outpoint);
    reveal(dec_outpoint);
    let a1 = map_head(2);
    let a2 = t_txid();
    let a3 = enc_text(o.txid);
    let a4 = t_vout();
    let a5 = enc_uint(o.vout as u64);
    lemma_starts_split(s, pos, a1 + a2 + a3 + a4, a5);
    lemma_starts_split(s, pos, a1 + a2 + a3, a4);
    lemma_starts_split(s, pos, a1 + a2, a3);
    lemma_starts_split(s, pos, a1, a2);
    lemma_dec_maphead(s, pos, 2);
    lemma_dec_text(s, pos + a1.len() + a2.len(), o.txid);
    lemma_dec_field_u32(s, pos + a1.len() + a2.len() + a3.len(), a4, o.vout);
    assert(o == OutPointV { txid: o.txid, vout: o.vout });
}

#[verifier::rlimit(60)]
proof fn lemma_dec_bond(s: Seq<u8>, pos: int, b: FidelityBondV)
    requires
        bond_wf(b),
        starts(s, pos, enc_bond(b)),
    ensures
        dec_bond(s, pos) == Some((b, pos + enc_bond(b).len())),
{
    reveal(enc_bond);
    reveal(dec_bond);
    let a1 = map_head(6);
    let a2 = t_outpoint();
    let a3 = enc_outpoint(b.outpoint);
    let a4 = t_amount();
    let a5 = enc_uint(b.amount);
    let a6 = t_lock_time();
    let a7 = enc_uint(b.lock_time as u64);
    let a8 = t_pubkey();
    let a9 = enc_bytes(b.pubkey);
    let a10 = t_conf_height();
    let a11 = enc_uint(b.conf_height as u64);
    let a12 = t_cert_expiry();
    let a13 = enc_uint(b.cert_expiry as u64);
    lemma_starts_split(s, pos, a1 + a2 + a3 + a4 + a5 + a6 + a7 + a8 + a9 + a10 + a11 + a12, a13);
    lemma_starts_split(s, pos, a1 + a2 + a3 + a4 + a5 + a6 + a7 + a8 + a9 + a10 + a11, a12);
    lemma_starts_split(s, pos, a1 + a2 + a3 + a4 + a5 + a6 + a7 + a8 + a9 + a10, a11);
    lemma_starts_split(s, pos, a1 + a2 + a3 + a4 + a5 + a6 + a7 + a8 + a9, a10);
    lemma_starts_split(s, pos, a1 + a2 + a3 + a4 + a5 + a6 + a7 + a8, a9);
    lemma_starts_split(s, pos, a1 + a2 + a3 + a4 + a5 + a6 + a7, a8);
    lemma_starts_split(s, pos, a1 + a2 + a3 + a4 + a5 + a6, a7);
    lemma_starts_split(s, pos, a1 + a2 + a3 + a4 + a5, a6);
    lemma_starts_split(s, pos, a1 + a2 + a3 + a4, a5);
    lemma_starts_split(s, pos, a1 + a2 + a3, a4);
    lemma_starts_split(s, pos, a1 + a2, a3);
    lemma_starts_split(s, pos, a1, a2);
    let p1 = pos + a1.len();
    let p2 = p1 + a2.len();
    let p3 = p2 + a3.len();
    let p5 = p3 + a4.len() + a5.len();
    let p7 = p5 + a6.len() + a7.len();
    let p9 = p7 + a8.len() + a9.len();
    let p11 = p9 + a10.len() + a11.len();
    lemma_dec_maphead(s, pos, 6);
    lemma_dec_outpoint(s, p2, b.outpoint);
    lemma_dec_field_uint(s, p3, a4, b.amount);
    lemma_dec_field_u32(s, p5, a6, b.lock_time);
    lemma_dec_field_bytes(s, p7, a8, b.pubkey);
    lemma_dec_field_u32(s, p9, a10, b.conf_height);
    lemma_dec_field_u32(s, p11, a12, b.cert_expiry);
    assert(b == FidelityBondV {
        outpoint: b.outpoint,
        amount: b.amount,
        lock_time: b.lock_time,
        pubkey: b.pubkey,
        conf_height: b.conf_height,
        cert_expiry: b.cert_expiry,
    });
}

#[verifier::rlimit(100)]
proof fn lemma_dec_fidelity(s: Seq<u8>, pos: int, f: FidelityProofV)
    requires
        fidelity_wf(f),
        starts(s, pos, enc_fidelity(f)),
    ensures
        dec_fidelity(s, pos) == Some((f, pos + enc_fidelity(f).len())),
{
    reveal(enc_fidelity);
    reveal(dec_fidelity);
    let a1 = map_head(3);
    let a2 = t_bond();
    let a3 = enc_bond(f.bond);
    let a4 = t_cert_hash();
    let a5 = enc_bytes(f.cert_hash);
    let a6 = t_cert_sig();
    let a7 = enc_bytes(f.cert_sig);
    lemma_starts_split(s, pos, a1 + a2 + a3 + a4 + a5 + a6, a7);
    lemma_starts_split(s, pos, a1 + a2 + a3 + a4 + a5, a6);
    lemma_starts_split(s, pos, a1 + a2 + a3 + a4, a5);
    lemma_starts_split(s, pos, a1 + a2 + a3, a4);
    lemma_starts_split(s, pos, a1 + a2, a3);
    lemma_starts_split(s, pos, a1, a2);
    let p2 = pos + a1.len() + a2.len();
    let p3 = p2 + a3.len();
    let p5 = p3 + a4.len() + a5.len();
    lemma_dec_maphead(s, pos, 3);
    lemma_dec_bond(s, p2, f.bond);
    lemma_dec_field_bytes(s, p3, a4, f.cert_hash);
    lemma_dec_field_bytes(s, p5, a6, f.cert_sig);
    assert(f == FidelityProofV { bond: f.bond, cert_hash: f.cert_hash, cert_sig: f.cert_sig });
}

#[verifier::rlimit(100)]
#[verifier::spinoff_prover]
proof fn lemma_dec_offer(s: Seq<u8>, pos: int, o: OfferV)
    requires
        offer_wf(o),
        starts(s, pos, enc_offer(o)),
    ensures
        dec_offer(s, pos) == Some((o, pos + enc_offer(o).len())),
{
    reveal(enc_offer);
    reveal(dec_offer);
    let a1 = map_head(9);
    let a2 = t_base_fee();
    let a3 = enc_uint(o.base_fee);
    let a4 = t_amount_relative_fee_pct();
    let a5 = enc_f64(o.amount_relative_fee_pct_bits);
    let a6 = t_time_relative_fee_pct();
    let a7 = enc_f64(o.time_relative_fee_pct_bits);
    let a8 = t_min_size();
    let a9 = enc_uint(o.min_size);
    let a10 = t_max_size();
    let a11 = enc_uint(o.max_size);
    let a12 = t_required_confirms();
    let a13 = enc_uint(o.required_confirms as u64);
    let a14 = t_minimum_locktime();
    let a15 = enc_uint(o.minimum_locktime as u64);
    let a16 = t_fidelity();
    let a17 = enc_fidelity(o.fidelity);
    let a18 = t_tweakable_point();
    let a19 = enc_bytes(o.tweakable_point);
    lemma_starts_split(
        s,
        pos,
        a1 + a2 + a3 + a4 + a5 + a6 + a7 + a8 + a9 + a10 + a11 + a12 + a13 + a14 + a15 + a16 + a17
            + a18,
        a19,
    );
    lemma_starts_split(
        s,
        pos,
        a1 + a2 + a3 + a4 + a5 + a6 + a7 + a8 + a9 + a10 + a11 + a12 + a13 + a14 + a15 + a16
            + a17,
        a18,
    );
    lemma_starts_split(
        s,
        pos,
        a1 + a2 + a3 + a4 + a5 + a6 + a7 + a8 + a9 + a10 + a11 + a12 + a13 + a14 + a15 + a16,
        a17,
    );
    lemma_starts_split(
        s,
        pos,
        a1 + a2 + a3 + a4 + a5 + a6 + a7 + a8 + a9 + a10 + a11 + a12 + a13 + a14 + a15,
        a16,
    );
    lemma_starts_split(
        s,
        pos,
        a1 + a2 + a3 + a4 + a5 + a6 + a7 + a8 + a9 + a10 + a11 + a12 + a13 + a14,
        a15,
    );
    lemma_starts_split(
        s,
        pos,
        a1 + a2 + a3 + a4 + a5 + a6 + a7 + a8 + a9 + a10 + a11 + a12 + a13,
        a14,
    );
    lemma_starts_split(s, pos, a1 + a2 + a3 + a4 + a5 + a6 + a7 + a8 + a9 + a10 + a11 + a12, a13);
    lemma_starts_split(s, pos, a1 + a2 + a3 + a4 + a5 + a6 + a7 + a8 + a9 + a10 + a11, a12);
    lemma_starts_split(s, pos, a1 + a2 + a3 + a4 + a5 + a6 + a7 + a8 + a9 + a10, a11);
    lemma_starts_split(s, pos, a1 + a2 + a3 + a4 + a5 + a6 + a7 + a8 + a9, a10);
    lemma_starts_split(s, pos, a1 + a2 + a3 + a4 + a5 + a6 + a7 + a8, a9);
    lemma_starts_split(s, pos, a1 + a2 + a3 + a4 + a5 + a6 + a7, a8);
    lemma_starts_split(s, pos, a1 + a2 + a3 + a4 + a5 + a6, a7);
    lemma_starts_split(s, pos, a1 + a2 + a3 + a4 + a5, a6);
    lemma_starts_split(s, pos, a1 + a2 + a3 + a4, a5);
    lemma_starts_split(s, pos, a1 + a2 + a3, a4);
    lemma_starts_split(s, pos, a1 + a2, a3);
    lemma_starts_split(s, pos, a1, a2);
    let p1 = pos + a1.len();
    let p3 = p1 + a2.len() + a3.len();
    let p5 = p3 + a4.len() + a5.len();
    let p7 = p5 + a6.len() + a7.len();
    let p9 = p7 + a8.len() + a9.len();
    let p11 = p9 + a10.len() + a11.len();
    let p13 = p11 + a12.len() + a13.len();
    let p15 = p13 + a14.len() + a15.len();
    let p16 = p15 + a16.len();
    let p17 = p16 + a17.len();
    lemma_dec_maphead(s, pos, 9);
    lemma_dec_field_uint(s, p1, a2, o.base_fee);
    lemma_dec_field_f64(s, p3, a4, o.amount_relative_fee_pct_bits);
    lemma_dec_field_f64(s, p5, a6, o.time_relative_fee_pct_bits);
    lemma_dec_field_uint(s, p7, a8, o.min_size);
    lemma_dec_field_uint(s, p9, a10, o.max_size);
    lemma_dec_field_u32(s, p11, a12, o.required_confirms);
    lemma_dec_field_u16(s, p13, a14, o.minimum_locktime);
    lemma_dec_fidelity(s, p16, o.fidelity);
    lemma_dec_field_bytes(s, p17, a18, o.tweakable_point);
    assert(o == OfferV {
        base_fee: o.base_fee,
        amount_relative_fee_pct_bits: o.amount_relative_fee_pct_bits,
        time_relative_fee_pct_bits: o.time_relative_fee_pct_bits,
        min_size: o.min_size,
        max_size: o.max_size,
        required_confirms: o.required_confirms,
        minimum_locktime: o.minimum_locktime,
        fidelity: o.fidelity,
        tweakable_point: o.tweakable_point,
    });
}

proof fn lemma_dec_versions(s: Seq<u8>, pos: int, mn: u32, mx: u32)
    requires
        starts(s, pos, enc_versions(mn, mx)),
    ensures
        dec_versions(s, pos) == Some(((mn, mx), pos + enc_versions(mn, mx).len())),
{
    reveal(enc_versions);
    reveal(dec_versions);
    let a1 = map_head(2);
    let a2 = t_protocol_version_min();
    let a3 = enc_uint(mn as u64);
    let a4 = t_protocol_version_max();
    let a5 = enc_uint(mx as u64);
    lemma_starts_split(s, pos, a1 + a2 + a3 + a4, a5);
    lemma_starts_split(s, pos, a1 + a2 + a3, a4);
    lemma_starts_split(s, pos, a1 + a2, a3);
    lemma_starts_split(s, pos, a1, a2);
    lemma_dec_maphead(s, pos, 2);
    lemma_dec_field_u32(s, pos + a1.len(), a2, mn);
    lemma_dec_field_u32(s, pos + a1.len() + a2.len() + a3.len(), a4, mx);
}

proof fn lemma_starts_self(s: Seq<u8>)
    ensures
        starts(s, 0, s),
{
    assert(s.subrange(0, s.len() as int) =~= s);
}

#[verifier::rlimit(100)]
proof fn lemma_enc_dec_m2t_hello(h: MakerHello)
    ensures
        dec_m2t(enc_m2t(MakerToTakerMessageV::MakerHello(h))) == Some(
            MakerToTakerMessageV::MakerHello(h),
        ),
{
    reveal(enc_m2t);
    reveal(dec_m2t);
    let s = enc_m2t(MakerToTakerMessageV::MakerHello(h));
    lemma_starts_self(s);
    let a1 = map_head(1);
    let a2 = t_makerhello();
    let a3 = enc_versions(h.protocol_version_min, h.protocol_version_max);
    lemma_starts_split(s, 0, a1 + a2, a3);
    lemma_starts_split(s, 0, a1, a2);
    lemma_dec_maphead(s, 0, 1);
    assert(t_makerhello() =~= enc_text(n_makerhello()));
    lemma_dec_text(s, a1.len() as int, n_makerhello());
    lemma_dec_versions(s, a1.len() + a2.len() as int, h.protocol_version_min,
        h.protocol_version_max);
    assert(h == MakerHello {
        protocol_version_min: h.protocol_version_min,
        protocol_version_max: h.protocol_version_max,
    });
}

#[verifier::rlimit(100)]
proof fn lemma_enc_dec_m2t_offer(o: OfferV)
    requires
        offer_wf(o),
    ensures
        dec_m2t(enc_m2t(MakerToTakerMessageV::RespOffer(o))) == Some(
            MakerToTakerMessageV::RespOffer(o),
        ),
{
    reveal(enc_m2t);
    reveal(dec_m2t);
    let s = enc_m2t(MakerToTakerMessageV::RespOffer(o));
    lemma_starts_self(s);
    let a1 = map_head(1);
    let a2 = t_respoffer();
    let a3 = enc_offer(o);
    lemma_starts_split(s, 0, a1 + a2, a3);
    lemma_starts_split(s, 0, a1, a2);
    lemma_dec_maphead(s, 0, 1);
    assert(t_respoffer() =~= enc_text(n_respoffer()));
    lemma_dec_text(s, a1.len() as int, n_respoffer());
    assert(n_respoffer().len() == 9 && n_makerhello().len() == 10);
    lemma_dec_offer(s, a1.len() + a2.len() as int, o);
}

proof fn lemma_enc_dec_m2t_unknown()
    ensures
        dec_m2t(enc_m2t(MakerToTakerMessageV::Unknown)) == Some(MakerToTakerMessageV::Unknown),
{
    reveal(enc_m2t);
    reveal(dec_m2t);
    let s = enc_m2t(MakerToTakerMessageV::Unknown);
    lemma_starts_self(s);
    assert(t_unknown() =~= enc_text(n_unknown()));
    lemma_dec_text(s, 0, n_unknown());
    assert(n_unknown().len() == 7 && n_makerhello().len() == 10 && n_respoffer().len() == 9);
}

/// Round trip of the peer-to-client codec: every well-formed message,
/// encoded and decoded, comes back as itself.
pub proof fn lemma_enc_dec_m2t(m: MakerToTakerMessageV)
    requires
        m2t_wf(m),
    ensures
        dec_m2t(enc_m2t(m)) == Some(m),
{
    match m {
        MakerToTakerMessageV::MakerHello(h) => lemma_enc_dec_m2t_hello(h),
        MakerToTakerMessageV::RespOffer(o) => lemma_enc_dec_m2t_offer(o),
        MakerToTakerMessageV::Unknown => lemma_enc_dec_m2t_unknown(),
    }
}

/// Round trip of the client-to-peer codec.
pub proof fn lemma_enc_dec_t2m(m: TakerToMakerMessage)
    ensures
        dec_t2m(enc_t2m(m)) == Some(m),
{
    reveal(enc_t2m);
    reveal(dec_t2m);
    let s = enc_t2m(m);
    lemma_starts_self(s);
    match m {
        TakerToMakerMessage::TakerHello(h) => {
            let a1 = map_head(1);
            let a2 = t_takerhello();
            let a3 = enc_versions(h.protocol_version_min, h.protocol_version_max);
            lemma_starts_split(s, 0, a1 + a2, a3);
            lemma_starts_split(s, 0, a1, a2);
            lemma_dec_maphead(s, 0, 1);
            assert(t_takerhello() =~= enc_text(n_takerhello()));
            lemma_dec_text(s, a1.len() as int, n_takerhello());
            lemma_dec_versions(s, a1.len() + a2.len() as int, h.protocol_version_min,
                h.protocol_version_max);
            assert(h == TakerHello {
                protocol_version_min: h.protocol_version_min,
                protocol_version_max: h.protocol_version_max,
            });
        },
        TakerToMakerMessage::ReqGiveOffer => {
            let a1 = map_head(1);
            let a2 = t_reqgiveoffer();
            let a3 = enc_null();
            lemma_starts_split(s, 0, a1 + a2, a3);
            lemma_starts_split(s, 0, a1, a2);
            lemma_dec_maphead(s, 0, 1);
            assert(t_reqgiveoffer() =~= enc_text(n_reqgiveoffer()));
            lemma_dec_text(s, a1.len() as int, n_reqgiveoffer());
            assert(n_reqgiveoffer().len() == 12 && n_takerhello().len() == 10);
        },
    }
}

/// Round trip of the directory-request codec.
pub proof fn lemma_enc_dec_dns(m: DnsRequest)
    ensures
        dec_dns(enc_dns(m)) == Some(m),
{
    let s = enc_dns(m);
    lemma_starts_self(s);
    assert(t_get() =~= enc_text(n_get()));
    lemma_dec_text(s, 0, n_get());
    match m {
        DnsRequest::Get => {},
    }
}

/// Round trip of the directory-response codec.
pub proof fn lemma_enc_dec_dir(b: Seq<u8>)
    requires
        b.len() <= u64::MAX,
    ensures
        dec_dir(enc_text(b)) == Some(b),
{
    let s = enc_text(b);
    lemma_starts_self(s);
    lemma_dec_text(s, 0, b);
}

/// An unrecognized tag in map position decodes to `Unknown`, whatever
/// follows the tag.
pub proof fn lemma_unknown_tag_map(name: Seq<u8>, tail: Seq<u8>)
    requires
        name.len() <= u64::MAX,
        name != n_makerhello(),
        name != n_respoffer(),
    ensures
        dec_m2t(map_head(1) + enc_text(name) + tail) == Some(MakerToTakerMessageV::Unknown),
{
    reveal(dec_m2t);
    let s = map_head(1) + enc_text(name) + tail;
    lemma_starts_self(s);
    lemma_starts_split(s, 0, map_head(1) + enc_text(name), tail);
    lemma_starts_split(s, 0, map_head(1), enc_text(name));
    lemma_dec_maphead(s, 0, 1);
    lemma_dec_text(s, map_head(1).len() as int, name);
}

/// A client-to-peer message fed to the peer-to-client decoder is an
/// unrecognized tag there: it decodes to the catch-all, never to a
/// peer hello — so a peer that echoes a request instead of a hello
/// cannot pass the handshake.
pub proof fn lemma_t2m_decodes_to_unknown(m: TakerToMakerMessage)
    ensures
        dec_m2t(enc_t2m(m)) == Some(MakerToTakerMessageV::Unknown),
{
    reveal(enc_t2m);
    match m {
        TakerToMakerMessage::TakerHello(h) => {
            assert(t_takerhello() =~= enc_text(n_takerhello()));
            assert(n_takerhello().len() == 10 && n_makerhello().len() == 10 && n_respoffer().len()
                == 9);
            assert(n_takerhello()[0] != n_makerhello()[0]);
            lemma_unknown_tag_map(n_takerhello(), enc_versions(h.protocol_version_min,
                h.protocol_version_max));
            assert(map_head(1) + t_takerhello() + enc_versions(h.protocol_version_min,
                h.protocol_version_max) =~= map_head(1) + enc_text(n_takerhello()) + enc_versions(
                h.protocol_version_min, h.protocol_version_max));
        },
        TakerToMakerMessage::ReqGiveOffer => {
            assert(t_reqgiveoffer() =~= enc_text(n_reqgiveoffer()));
            assert(n_reqgiveoffer().len() == 12 && n_makerhello().len() == 10
                && n_respoffer().len() == 9);
            lemma_unknown_tag_map(n_reqgiveoffer(), enc_null());
            assert(map_head(1) + t_reqgiveoffer() + enc_null() =~= map_head(1) + enc_text(
                n_reqgiveoffer()) + enc_null());
        },
    }
}

/// An unrecognized tag in bare-text position decodes to `Unknown` too.
pub proof fn lemma_unknown_tag_text(name: Seq<u8>, tail: Seq<u8>)
    requires
        name.len() <= u64::MAX,
        name != n_makerhello(),
        name != n_respoffer(),
    ensures
        dec_m2t(enc_text(name) + tail) == Some(MakerToTakerMessageV::Unknown),
{
    reveal(dec_m2t);
    let s = enc_text(name) + tail;
    lemma_starts_self(s);
    lemma_starts_split(s, 0, enc_text(name), tail);
    lemma_dec_text(s, 0, name);
}

/// A transaction id encoded as raw bytes and one encoded as the hex
/// text of those bytes decode to the same hex text: both arrival
/// forms converge.
pub proof fn lemma_txid_forms_converge(raw: Seq<u8>)
    requires
        raw.len() * 2 <= u64::MAX,
    ensures
        dec_txid(enc_bytes(raw), 0) == Some((hex_seq(raw), enc_bytes(raw).len() as int)),
        dec_txid(enc_text(hex_seq(raw)), 0) == Some(
            (hex_seq(raw), enc_text(hex_seq(raw)).len() as int),
        ),
{
    let s1 = enc_bytes(raw);
    lemma_starts_self(s1);
    lemma_dec_bytes(s1, 0, raw);
    let s2 = enc_text(hex_seq(raw));
    lemma_starts_self(s2);
    lemma_dec_text(s2, 0, hex_seq(raw));
}

/// A framed payload is read back whole: the prefix counts exactly the
/// payload written after it.
pub proof fn lemma_frame_roundtrip(p: Seq<u8>)
    requires
        p.len() <= 0xffff_ffff,
    ensures
        unframe(frame(p)) == Some(p),
{
    let len = p.len() as u64;
    let s = frame(p);
    assert forall|i: int| 0 <= i < 4 implies s[i] == be4(len)[i] by {}
    let b1 = ((len >> 24) & 0xff) as u8;
    let b2 = ((len >> 16) & 0xff) as u8;
    let b3 = ((len >> 8) & 0xff) as u8;
    let b4 = (len & 0xff) as u8;
    assert((((b1 as u64) << 24) | ((b2 as u64) << 16) | ((b3 as u64) << 8) | (b4 as u64))
        == len) by (bit_vector)
        requires
            b1 == ((len >> 24) & 0xff) as u8,
            b2 == ((len >> 16) & 0xff) as u8,
            b3 == ((len >> 8) & 0xff) as u8,
            b4 == (len & 0xff) as u8,
            len <= 0xffff_ffff,
    ;
    assert(s.skip(4) =~= p);
}

// ---------------------------------------------------------------- exec: encoding

fn encode_versions_into(out: &mut Vec<u8>, mn: u32, mx: u32)
    ensures
        final(out)@ == old(out)@ + enc_versions(mn, mx),
{
    proof {
        reveal(enc_versions);
    }
    map_head_x(out, 2);
    let k = lit_protocol_version_min();
    push_all(out, &k);
    enc_uint_x(out, mn as u64);
    let k = lit_protocol_version_max();
    push_all(out, &k);
    enc_uint_x(out, mx as u64);
    assert(out@ =~= old(out)@ + enc_versions(mn, mx));
}

fn encode_outpoint_into(out: &mut Vec<u8>, o: &OutPoint)
    ensures
        final(out)@ == old(out)@ + enc_outpoint(o@),
{
    proof {
        reveal(enc_outpoint);
    }
    map_head_x(out, 2);
    let k = lit_txid();
    push_all(out, &k);
    enc_text_x(out, &o.txid);
    let k = lit_vout();
    push_all(out, &k);
    enc_uint_x(out, o.vout as u64);
    assert(out@ =~= old(out)@ + enc_outpoint(o@));
}

#[verifier::rlimit(60)]
fn encode_bond_into(out: &mut Vec<u8>, b: &FidelityBond)
    ensures
        final(out)@ == old(out)@ + enc_bond(b@),
{
    proof {
        reveal(enc_bond);
    }
    map_head_x(out, 6);
    let k = lit_outpoint();
    push_all(out, &k);
    encode_outpoint_into(out, &b.outpoint);
    let k = lit_amount();
    push_all(out, &k);
    enc_uint_x(out, b.amount);
    let k = lit_lock_time();
    push_all(out, &k);
    enc_uint_x(out, b.lock_time as u64);
    let k = lit_pubkey();
    push_all(out, &k);
    enc_bytes_x(out, &b.pubkey);
    let k = lit_conf_height();
    push_all(out, &k);
    enc_uint_x(out, b.conf_height as u64);
    let k = lit_cert_expiry();
    push_all(out, &k);
    enc_uint_x(out, b.cert_expiry as u64);
    assert(out@ =~= old(out)@ + enc_bond(b@));
}

fn encode_fidelity_into(out: &mut Vec<u8>, p: &FidelityProof)
    ensures
        final(out)@ == old(out)@ + enc_fidelity(p@),
{
    proof {
        reveal(enc_fidelity);
    }
    map_head_x(out, 3);
    let k = lit_bond();
    push_all(out, &k);
    encode_bond_into(out, &p.bond);
    let k = lit_cert_hash();
    push_all(out, &k);
    enc_bytes_x(out, &p.cert_hash);
    let k = lit_cert_sig();
    push_all(out, &k);
    enc_bytes_x(out, &p.cert_sig);
    assert(out@ =~= old(out)@ + enc_fidelity(p@));
}

#[verifier::rlimit(60)]
fn encode_offer_into(out: &mut Vec<u8>, o: &Offer)
    ensures
        final(out)@ == old(out)@ + enc_offer(o@),
{
    proof {
        reveal(enc_offer);
    }
    map_head_x(out, 9);
    let k = lit_base_fee();
    push_all(out, &k);
    enc_uint_x(out, o.base_fee);
    let k = lit_amount_relative_fee_pct();
    push_all(out, &k);
    enc_f64_x(out, o.amount_relative_fee_pct_bits);
    let k = lit_time_relative_fee_pct();
    push_all(out, &k);
    enc_f64_x(out, o.time_relative_fee_pct_bits);
    let k = lit_min_size();
    push_all(out, &k);
    enc_uint_x(out, o.min_size);
    let k = lit_max_size();
    push_all(out, &k);
    enc_uint_x(out, o.max_size);
    let k = lit_required_confirms();
    push_all(out, &k);
    enc_uint_x(out, o.required_confirms as u64);
    let k = lit_minimum_locktime();
    push_all(out, &k);
    enc_uint_x(out, o.minimum_locktime as u64);
    let k = lit_fidelity();
    push_all(out, &k);
    encode_fidelity_into(out, &o.fidelity);
    let k = lit_tweakable_point();
    push_all(out, &k);
    enc_bytes_x(out, &o.tweakable_point);
    assert(out@ =~= old(out)@ + enc_offer(o@));
}

/// Encode one client-to-peer message as a complete payload.
pub fn encode_t2m(m: &TakerToMakerMessage) -> (r: Vec<u8>)
    ensures
        r@ == enc_t2m(m@),
{
    proof {
        reveal(enc_t2m);
    }
    let mut out: Vec<u8> = Vec::new();
    match m {
        TakerToMakerMessage::TakerHello(h) => {
            map_head_x(&mut out, 1);
            let k = lit_takerhello();
            push_all(&mut out, &k);
            encode_versions_into(&mut out, h.protocol_version_min, h.protocol_version_max);
            assert(out@ =~= enc_t2m(m@));
        },
        TakerToMakerMessage::ReqGiveOffer => {
            map_head_x(&mut out, 1);
            let k = lit_reqgiveoffer();
            push_all(&mut out, &k);
            enc_null_x(&mut out);
            assert(out@ =~= enc_t2m(m@));
        },
    }
    out
}

/// Encode one peer-to-client message as a complete payload.
pub fn encode_m2t(m: &MakerToTakerMessage) -> (r: Vec<u8>)
    ensures
        r@ == enc_m2t(m@),
{
    proof {
        reveal(enc_m2t);
    }
    let mut out: Vec<u8> = Vec::new();
    match m {
        MakerToTakerMessage::MakerHello(h) => {
            map_head_x(&mut out, 1);
            let k = lit_makerhello();
            push_all(&mut out, &k);
            encode_versions_into(&mut out, h.protocol_version_min, h.protocol_version_max);
            assert(out@ =~= enc_m2t(m@));
        },
        MakerToTakerMessage::RespOffer(o) => {
            map_head_x(&mut out, 1);
            let k = lit_respoffer();
            push_all(&mut out, &k);
            encode_offer_into(&mut out, o);
            assert(out@ =~= enc_m2t(m@));
        },
        MakerToTakerMessage::Unknown => {
            let k = lit_unknown();
            push_all(&mut out, &k);
            assert(out@ =~= enc_m2t(m@));
        },
    }
    out
}

/// Encode the directory request as a complete payload.
pub fn encode_dns(m: &DnsRequest) -> (r: Vec<u8>)
    ensures
        r@ == enc_dns(m@),
{
    lit_get()
}

// ---------------------------------------------------------------- exec: decoding

fn dec_u32_x(buf: &Vec<u8>, pos: usize) -> (r: Option<(u32, usize)>)
    ensures
        r matches Some((v, p)) ==> dec_u32(buf@, pos as int) == Some((v, p as int)),
        r is None ==> dec_u32(buf@, pos as int) is None,
{
    match dec_uint_x(buf, pos) {
        Some((v, p)) => if v <= 0xffff_ffff {
            Some((v as u32, p))
        } else {
            None
        },
        None => None,
    }
}

fn dec_u16_x(buf: &Vec<u8>, pos: usize) -> (r: Option<(u16, usize)>)
    ensures
        r matches Some((v, p)) ==> dec_u16(buf@, pos as int) == Some((v, p as int)),
        r is None ==> dec_u16(buf@, pos as int) is None,
{
    match dec_uint_x(buf, pos) {
        Some((v, p)) => if v <= 0xffff {
            Some((v as u16, p))
        } else {
            None
        },
        None => None,
    }
}

fn dec_field_uint_x(buf: &Vec<u8>, pos: usize, key: &Vec<u8>) -> (r: Option<(u64, usize)>)
    ensures
        r matches Some((v, p)) ==> dec_field_uint(buf@, pos as int, key@) == Some((v, p as int)),
        r is None ==> dec_field_uint(buf@, pos as int, key@) is None,
{
    match match_lit(buf, pos, key) {
        Some(p) => dec_uint_x(buf, p),
        None => None,
    }
}

fn dec_field_u32_x(buf: &Vec<u8>, pos: usize, key: &Vec<u8>) -> (r: Option<(u32, usize)>)
    ensures
        r matches Some((v, p)) ==> dec_field_u32(buf@, pos as int, key@) == Some((v, p as int)),
        r is None ==> dec_field_u32(buf@, pos as int, key@) is None,
{
    match match_lit(buf, pos, key) {
        Some(p) => dec_u32_x(buf, p),
        None => None,
    }
}

fn dec_field_u16_x(buf: &Vec<u8>, pos: usize, key: &Vec<u8>) -> (r: Option<(u16, usize)>)
    ensures
        r matches Some((v, p)) ==> dec_field_u16(buf@, pos as int, key@) == Some((v, p as int)),
        r is None ==> dec_field_u16(buf@, pos as int, key@) is None,
{
    match match_lit(buf, pos, key) {
        Some(p) => dec_u16_x(buf, p),
        None => None,
    }
}

fn dec_field_bytes_x(buf: &Vec<u8>, pos: usize, key: &Vec<u8>) -> (r: Option<(Vec<u8>, usize)>)
    ensures
        r matches Some((v, p)) ==> dec_field_bytes(buf@, pos as int, key@) == Some(
            (v@, p as int),
        ),
        r is None ==> dec_field_bytes(buf@, pos as int, key@) is None,
{
    match match_lit(buf, pos, key) {
        Some(p) => dec_bytes_x(buf, p),
        None => None,
    }
}

fn dec_field_f64_x(buf: &Vec<u8>, pos: usize, key: &Vec<u8>) -> (r: Option<(u64, usize)>)
    ensures
        r matches Some((v, p)) ==> dec_field_f64(buf@, pos as int, key@) == Some((v, p as int)),
        r is None ==> dec_field_f64(buf@, pos as int, key@) is None,
{
    match match_lit(buf, pos, key) {
        Some(p) => dec_f64_x(buf, p),
        None => None,
    }
}

fn dec_txid_x(buf: &Vec<u8>, pos: usize) -> (r: Option<(Vec<u8>, usize)>)
    ensures
        r matches Some((b, p)) ==> dec_txid(buf@, pos as int) == Some((b@, p as int)),
        r is None ==> dec_txid(buf@, pos as int) is None,
{
    match dec_head_x(buf, pos) {
        Some((m, _len, _p)) => {
            if m == MAJOR_TEXT {
                dec_text_x(buf, pos)
            } else if m == MAJOR_BYTES {
                match dec_bytes_x(buf, pos) {
                    Some((raw, p)) => Some((to_hex(&raw), p)),
                    None => None,
                }
            } else {
                None
            }
        },
        None => None,
    }
}

fn dec_outpoint_x(buf: &Vec<u8>, pos: usize) -> (r: Option<(OutPoint, usize)>)
    ensures
        r matches Some((o, p)) ==> dec_outpoint(buf@, pos as int) == Some((o@, p as int)),
        r is None ==> dec_outpoint(buf@, pos as int) is None,
{
    proof {
        reveal(dec_outpoint);
    }
    let (n, p0) = match dec_maphead_x(buf, pos) {
        Some(x) => x,
        None => {
            return None;
        },
    };
    if n != 2 {
        return None;
    }
    let k = lit_txid();
    let p1 = match match_lit(buf, p0, &k) {
        Some(p) => p,
        None => {
            return None;
        },
    };
    let (txid, p2) = match dec_txid_x(buf, p1) {
        Some(x) => x,
        None => {
            return None;
        },
    };
    let k = lit_vout();
    let (vout, p3) = match dec_field_u32_x(buf, p2, &k) {
        Some(x) => x,
        None => {
            return None;
        },
    };
    Some((OutPoint { txid, vout }, p3))
}

fn dec_bond_x(buf: &Vec<u8>, pos: usize) -> (r: Option<(FidelityBond, usize)>)
    ensures
        r matches Some((b, p)) ==> dec_bond(buf@, pos as int) == Some((b@, p as int)),
        r is None ==> dec_bond(buf@, pos as int) is None,
{
    proof {
        reveal(dec_bond);
    }
    let (n, p0) = match dec_maphead_x(buf, pos) {
        Some(x) => x,
        None => {
            return None;
        },
    };
    if n != 6 {
        return None;
    }
    let k = lit_outpoint();
    let p1 = match match_lit(buf, p0, &k) {
        Some(p) => p,
        None => {
            return None;
        },
    };
    let (outpoint, p2) = match dec_outpoint_x(buf, p1) {
        Some(x) => x,
        None => {
            return None;
        },
    };
    let k = lit_amount();
    let (amount, p3) = match dec_field_uint_x(buf, p2, &k) {
        Some(x) => x,
        None => {
            return None;
        },
    };
    let k = lit_lock_time();
    let (lock_time, p4) = match dec_field_u32_x(buf, p3, &k) {
        Some(x) => x,
        None => {
            return None;
        },
    };
    let k = lit_pubkey();
    let (pubkey, p5) = match dec_field_bytes_x(buf, p4, &k) {
        Some(x) => x,
        None => {
            return None;
        },
    };
    let k = lit_conf_height();
    let (conf_height, p6) = match dec_field_u32_x(buf, p5, &k) {
        Some(x) => x,
        None => {
            return None;
        },
    };
    let k = lit_cert_expiry();
    let (cert_expiry, p7) = match dec_field_u32_x(buf, p6, &k) {
        Some(x) => x,
        None => {
            return None;
        },
    };
    Some((FidelityBond { outpoint, amount, lock_time, pubkey, conf_height, cert_expiry }, p7))
}

fn dec_fidelity_x(buf: &Vec<u8>, pos: usize) -> (r: Option<(FidelityProof, usize)>)
    ensures
        r matches Some((f, p)) ==> dec_fidelity(buf@, pos as int) == Some((f@, p as int)),
        r is None ==> dec_fidelity(buf@, pos as int) is None,
{
    proof {
        reveal(dec_fidelity);
    }
    let (n, p0) = match dec_maphead_x(buf, pos) {
        Some(x) => x,
        None => {
            return None;
        },
    };
    if n != 3 {
        return None;
    }
    let k = lit_bond();
    let p1 = match match_lit(buf, p0, &k) {
        Some(p) => p,
        None => {
            return None;
        },
    };
    let (bond, p2) = match dec_bond_x(buf, p1) {
        Some(x) => x,
        None => {
            return None;
        },
    };
    let k = lit_cert_hash();
    let (cert_hash, p3) = match dec_field_bytes_x(buf, p2, &k) {
        Some(x) => x,
        None => {
            return None;
        },
    };
    let k = lit_cert_sig();
    let (cert_sig, p4) = match dec_field_bytes_x(buf, p3, &k) {
        Some(x) => x,
        None => {
            return None;
        },
    };
    Some((FidelityProof { bond, cert_hash, cert_sig }, p4))
}

fn dec_offer_x(buf: &Vec<u8>, pos: usize) -> (r: Option<(Offer, usize)>)
    ensures
        r matches Some((o, p)) ==> dec_offer(buf@, pos as int) == Some((o@, p as int)),
        r is None ==> dec_offer(buf@, pos as int) is None,
{
    proof {
        reveal(dec_offer);
    }
    let (n, p0) = match dec_maphead_x(buf, pos) {
        Some(x) => x,
        None => {
            return None;
        },
    };
    if n != 9 {
        return None;
    }
    let k = lit_base_fee();
    let (base_fee, p1) = match dec_field_uint_x(buf, p0, &k) {
        Some(x) => x,
        None => {
            return None;
        },
    };
    let k = lit_amount_relative_fee_pct();
    let (arf, p2) = match dec_field_f64_x(buf, p1, &k) {
        Some(x) => x,
        None => {
            return None;
        },
    };
    let k = lit_time_relative_fee_pct();
    let (trf, p3) = match dec_field_f64_x(buf, p2, &k) {
        Some(x) => x,
        None => {
            return None;
        },
    };
    let k = lit_min_size();
    let (min_size, p4) = match dec_field_uint_x(buf, p3, &k) {
        Some(x) => x,
        None => {
            return None;
        },
    };
    let k = lit_max_size();
    let (max_size, p5) = match dec_field_uint_x(buf, p4, &k) {
        Some(x) => x,
        None => {
            return None;
        },
    };
    let k = lit_required_confirms();
    let (required_confirms, p6) = match dec_field_u32_x(buf, p5, &k) {
        Some(x) => x,
        None => {
            return None;
        },
    };
    let k = lit_minimum_locktime();
    let (minimum_locktime, p7) = match dec_field_u16_x(buf, p6, &k) {
        Some(x) => x,
        None => {
            return None;
        },
    };
    let k = lit_fidelity();
    let p8 = match match_lit(buf, p7, &k) {
        Some(p) => p,
        None => {
            return None;
        },
    };
    let (fidelity, p9) = match dec_fidelity_x(buf, p8) {
        Some(x) => x,
        None => {
            return None;
        },
    };
    let k = lit_tweakable_point();
    let (tweakable_point, p10) = match dec_field_bytes_x(buf, p9, &k) {
        Some(x) => x,
        None => {
            return None;
        },
    };
    Some(
        (
            Offer {
                base_fee,
                amount_relative_fee_pct_bits: arf,
                time_relative_fee_pct_bits: trf,
                min_size,
                max_size,
                required_confirms,
                minimum_locktime,
                fidelity,
                tweakable_point,
            },
            p10,
        ),
    )
}

fn dec_versions_x(buf: &Vec<u8>, pos: usize) -> (r: Option<((u32, u32), usize)>)
    ensures
        r matches Some(((mn, mx), p)) ==> dec_versions(buf@, pos as int) == Some(
            ((mn, mx), p as int),
        ),
        r is None ==> dec_versions(buf@, pos as int) is None,
{
    proof {
        reveal(dec_versions);
    }
    let (n, p0) = match dec_maphead_x(buf, pos) {
        Some(x) => x,
        None => {
            return None;
        },
    };
    if n != 2 {
        return None;
    }
    let k = lit_protocol_version_min();
    let (mn, p1) = match dec_field_u32_x(buf, p0, &k) {
        Some(x) => x,
        None => {
            return None;
        },
    };
    let k = lit_protocol_version_max();
    let (mx, p2) = match dec_field_u32_x(buf, p1, &k) {
        Some(x) => x,
        None => {
            return None;
        },
    };
    Some(((mn, mx), p2))
}

/// Decode a complete peer-to-client payload into its typed message.
/// An unrecognized variant tag yields `Unknown`, never an error.
pub fn decode_m2t(payload: &Vec<u8>) -> (r: Result<MakerToTakerMessage, ProtocolError>)
    ensures
        r matches Ok(m) ==> dec_m2t(payload@) == Some(m@),
        r matches Err(e) ==> dec_m2t(payload@) is None && e == ProtocolError::Decode,
{
    proof {
        reveal(dec_m2t);
    }
    let (m, _len, _p) = match dec_head_x(payload, 0) {
        Some(x) => x,
        None => {
            return Err(ProtocolError::Decode);
        },
    };
    if m == MAJOR_TEXT {
        let (name, _q) = match dec_text_x(payload, 0) {
            Some(x) => x,
            None => {
                return Err(ProtocolError::Decode);
            },
        };
        let nm = name_makerhello();
        let nr = name_respoffer();
        if eq_bytes(&name, &nm) || eq_bytes(&name, &nr) {
            Err(ProtocolError::Decode)
        } else {
            Ok(MakerToTakerMessage::Unknown)
        }
    } else if m == MAJOR_MAP {
        let (n, p0) = match dec_maphead_x(payload, 0) {
            Some(x) => x,
            None => {
                return Err(ProtocolError::Decode);
            },
        };
        if n != 1 {
            return Err(ProtocolError::Decode);
        }
        let (name, p1) = match dec_text_x(payload, p0) {
            Some(x) => x,
            None => {
                return Err(ProtocolError::Decode);
            },
        };
        let nm = name_makerhello();
        let nr = name_respoffer();
        if eq_bytes(&name, &nm) {
            let ((mn, mx), p2) = match dec_versions_x(payload, p1) {
                Some(x) => x,
                None => {
                    return Err(ProtocolError::Decode);
                },
            };
            if p2 == payload.len() {
                Ok(
                    MakerToTakerMessage::MakerHello(
                        MakerHello { protocol_version_min: mn, protocol_version_max: mx },
                    ),
                )
            } else {
                Err(ProtocolError::Decode)
            }
        } else if eq_bytes(&name, &nr) {
            let (o, p2) = match dec_offer_x(payload, p1) {
                Some(x) => x,
                None => {
                    return Err(ProtocolError::Decode);
                },
            };
            if p2 == payload.len() {
                Ok(MakerToTakerMessage::RespOffer(o))
            } else {
                Err(ProtocolError::Decode)
            }
        } else {
            Ok(MakerToTakerMessage::Unknown)
        }
    } else {
        Err(ProtocolError::Decode)
    }
}

/// Decode a complete client-to-peer payload into its typed message.
pub fn decode_t2m(payload: &Vec<u8>) -> (r: Result<TakerToMakerMessage, ProtocolError>)
    ensures
        r matches Ok(m) ==> dec_t2m(payload@) == Some(m@),
        r matches Err(e) ==> dec_t2m(payload@) is None && e == ProtocolError::Decode,
{
    proof {
        reveal(dec_t2m);
    }
    let (n, p0) = match dec_maphead_x(payload, 0) {
        Some(x) => x,
        None => {
            return Err(ProtocolError::Decode);
        },
    };
    if n != 1 {
        return Err(ProtocolError::Decode);
    }
    let (name, p1) = match dec_text_x(payload, p0) {
        Some(x) => x,
        None => {
            return Err(ProtocolError::Decode);
        },
    };
    let nt = name_takerhello();
    let ng = name_reqgiveoffer();
    if eq_bytes(&name, &nt) {
        let ((mn, mx), p2) = match dec_versions_x(payload, p1) {
            Some(x) => x,
            None => {
                return Err(ProtocolError::Decode);
            },
        };
        if p2 == payload.len() {
            Ok(
                TakerToMakerMessage::TakerHello(
                    TakerHello { protocol_version_min: mn, protocol_version_max: mx },
                ),
            )
        } else {
            Err(ProtocolError::Decode)
        }
    } else if eq_bytes(&name, &ng) {
        let mut nul: Vec<u8> = Vec::new();
        nul.push(0xf6);
        assert(nul@ =~= enc_null());
        let p2 = match match_lit(payload, p1, &nul) {
            Some(p) => p,
            None => {
                return Err(ProtocolError::Decode);
            },
        };
        if p2 == payload.len() {
            Ok(TakerToMakerMessage::ReqGiveOffer)
        } else {
            Err(ProtocolError::Decode)
        }
    } else {
        Err(ProtocolError::Decode)
    }
}

/// Decode a complete directory-request payload.
pub fn decode_dns(payload: &Vec<u8>) -> (r: Result<DnsRequest, ProtocolError>)
    ensures
        r matches Ok(m) ==> dec_dns(payload@) == Some(m@),
        r matches Err(e) ==> dec_dns(payload@) is None && e == ProtocolError::Decode,
{
    let (name, p) = match dec_text_x(payload, 0) {
        Some(x) => x,
        None => {
            return Err(ProtocolError::Decode);
        },
    };
    let ng = name_get();
    if p == payload.len() && eq_bytes(&name, &ng) {
        Ok(DnsRequest::Get)
    } else {
        Err(ProtocolError::Decode)
    }
}

/// Decode a complete directory-response payload into its text blob.
pub fn decode_dir(payload: &Vec<u8>) -> (r: Result<Vec<u8>, ProtocolError>)
    ensures
        r matches Ok(b) ==> dec_dir(payload@) == Some(b@),
        r matches Err(e) ==> dec_dir(payload@) is None && e == ProtocolError::Decode,
{
    let (blob, p) = match dec_text_x(payload, 0) {
        Some(x) => x,
        None => {
            return Err(ProtocolError::Decode);
        },
    };
    if p == payload.len() {
        Ok(blob)
    } else {
        Err(ProtocolError::Decode)
    }
}

// ---------------------------------------------------------------- exec: framing

/// Put the 4-byte big-endian length prefix in front of a payload.
pub fn frame_msg(payload: &Vec<u8>) -> (r: Vec<u8>)
    requires
        payload@.len() <= 0xffff_ffff,
    ensures
        r@ == frame(payload@),
{
    let len = payload.len() as u64;
    let mut out: Vec<u8> = Vec::new();
    out.push(((len >> 24) & 0xff) as u8);
    out.push(((len >> 16) & 0xff) as u8);
    out.push(((len >> 8) & 0xff) as u8);
    out.push((len & 0xff) as u8);
    push_all(&mut out, payload);
    assert(out@ =~= frame(payload@));
    out
}

/// Take one whole frame apart: check that the 4-byte big-endian prefix
/// counts exactly the remaining bytes, and hand those bytes back.
pub fn read_msg(buf: &Vec<u8>) -> (r: Result<Vec<u8>, ProtocolError>)
    ensures
        r matches Ok(p) ==> unframe(buf@) == Some(p@),
        r matches Err(e) ==> unframe(buf@) is None && e == ProtocolError::Decode,
{
    if buf.len() < 4 {
        return Err(ProtocolError::Decode);
    }
    let len = ((buf[0] as u64) << 24) | ((buf[1] as u64) << 16) | ((buf[2] as u64) << 8) | (
    buf[3] as u64);
    if len == (buf.len() - 4) as u64 {
        let p = copy_range(buf, 4, buf.len());
        assert(p@ =~= buf@.skip(4));
        Ok(p)
    } else {
        Err(ProtocolError::Decode)
    }
}

/// The payload length a 4-byte big-endian prefix announces.
pub fn payload_len(prefix: &Vec<u8>) -> (r: u64)
    requires
        prefix@.len() == 4,
    ensures
        r == rd4(prefix@, 0),
{
    ((prefix[0] as u64) << 24) | ((prefix[1] as u64) << 16) | ((prefix[2] as u64) << 8) | (
    prefix[3] as u64)
}

} // verus!
