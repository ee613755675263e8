//! Byte-level item layer of the wire protocol: a small subset of CBOR
//! (RFC 8949) covering unsigned integers, byte strings, text strings,
//! maps, null and 64-bit floats, always in minimal-length (canonical)
//! form. Spec-level encoders and a deterministic spec-level parser are
//! given together with executable mirrors proved equal to them, and
//! lemmas showing that the parser inverts the encoders.
use vstd::prelude::*;

verus! {

pub const MAJOR_UINT: u8 = 0;
pub const MAJOR_BYTES: u8 = 2;
pub const MAJOR_TEXT: u8 = 3;
pub const MAJOR_MAP: u8 = 5;

// ---------------------------------------------------------------- spec: encoding

/// Big-endian bytes of the low 16 bits of `v`.
pub open spec fn be2(v: u64) -> Seq<u8> {
    seq![((v >> 8) & 0xff) as u8, (v & 0xff) as u8]
}

/// Big-endian bytes of the low 32 bits of `v`.
pub open spec fn be4(v: u64) -> Seq<u8> {
    seq![
        ((v >> 24) & 0xff) as u8,
        ((v >> 16) & 0xff) as u8,
        ((v >> 8) & 0xff) as u8,
        (v & 0xff) as u8,
    ]
}

/// Big-endian bytes of `v`.
pub open spec fn be8(v: u64) -> Seq<u8> {
    seq![
        ((v >> 56) & 0xff) as u8,
        ((v >> 48) & 0xff) as u8,
        ((v >> 40) & 0xff) as u8,
        ((v >> 32) & 0xff) as u8,
        ((v >> 24) & 0xff) as u8,
        ((v >> 16) & 0xff) as u8,
        ((v >> 8) & 0xff) as u8,
        (v & 0xff) as u8,
    ]
}

/// Header of an item of the given major type carrying argument `v`,
/// in the shortest form that holds `v`.
pub open spec fn head(major: u8, v: u64) -> Seq<u8> {
    if v < 24 {
        seq![(major * 32 + v) as u8]
    } else if v <= 0xff {
        seq![(major * 32 + 24) as u8, v as u8]
    } else if v <= 0xffff {
        seq![(major * 32 + 25) as u8] + be2(v)
    } else if v <= 0xffff_ffff {
        seq![(major * 32 + 26) as u8] + be4(v)
    } else {
        seq![(major * 32 + 27) as u8] + be8(v)
    }
}

pub open spec fn enc_uint(v: u64) -> Seq<u8> {
    head(MAJOR_UINT, v)
}

pub open spec fn enc_bytes(b: Seq<u8>) -> Seq<u8> {
    head(MAJOR_BYTES, b.len() as u64) + b
}

pub open spec fn enc_text(b: Seq<u8>) -> Seq<u8> {
    head(MAJOR_TEXT, b.len() as u64) + b
}

pub open spec fn map_head(n: u64) -> Seq<u8> {
    head(MAJOR_MAP, n)
}

pub open spec fn enc_null() -> Seq<u8> {
    seq![0xf6u8]
}

pub open spec fn enc_f64(bits: u64) -> Seq<u8> {
    seq![0xfbu8] + be8(bits)
}

// ---------------------------------------------------------------- spec: parsing

pub open spec fn rd2(s: Seq<u8>, pos: int) -> u64 {
    ((s[pos] as u64) << 8) | (s[pos + 1] as u64)
}

pub open spec fn rd4(s: Seq<u8>, pos: int) -> u64 {
    ((s[pos] as u64) << 24) | ((s[pos + 1] as u64) << 16) | ((s[pos + 2] as u64) << 8) | (s[pos
        + 3] as u64)
}

pub open spec fn rd8(s: Seq<u8>, pos: int) -> u64 {
    ((s[pos] as u64) << 56) | ((s[pos + 1] as u64) << 48) | ((s[pos + 2] as u64) << 40) | ((s[pos
        + 3] as u64) << 32) | ((s[pos + 4] as u64) << 24) | ((s[pos + 5] as u64) << 16) | ((s[pos
        + 6] as u64) << 8) | (s[pos + 7] as u64)
}

/// Parse one item header at `pos`: its major type, its argument and the
/// position just past the header. Only minimal-length arguments are
/// accepted, so a value has exactly one accepted header.
pub open spec fn dec_head(s: Seq<u8>, pos: int) -> Option<(u8, u64, int)> {
    if 0 <= pos < s.len() {
        let b = s[pos];
        let major = b / 32;
        let ai = b % 32;
        if ai < 24 {
            Some((major, ai as u64, pos + 1))
        } else if ai == 24 {
            if pos + 2 <= s.len() && s[pos + 1] >= 24 {
                Some((major, s[pos + 1] as u64, pos + 2))
            } else {
                None
            }
        } else if ai == 25 {
            if pos + 3 <= s.len() && rd2(s, pos + 1) > 0xff {
                Some((major, rd2(s, pos + 1), pos + 3))
            } else {
                None
            }
        } else if ai == 26 {
            if pos + 5 <= s.len() && rd4(s, pos + 1) > 0xffff {
                Some((major, rd4(s, pos + 1), pos + 5))
            } else {
                None
            }
        } else if ai == 27 {
            if pos + 9 <= s.len() && rd8(s, pos + 1) > 0xffff_ffff {
                Some((major, rd8(s, pos + 1), pos + 9))
            } else {
                None
            }
        } else {
            None
        }
    } else {
        None
    }
}

pub open spec fn dec_uint(s: Seq<u8>, pos: int) -> Option<(u64, int)> {
    match dec_head(s, pos) {
        Some((major, v, p)) => if major == MAJOR_UINT {
            Some((v, p))
        } else {
            None
        },
        None => None,
    }
}

/// Parse a byte or text string item (the payload bytes, uninterpreted).
pub open spec fn dec_str(s: Seq<u8>, pos: int, major: u8) -> Option<(Seq<u8>, int)> {
    match dec_head(s, pos) {
        Some((m, len, p)) => if m == major && p + len <= s.len() {
            Some((s.subrange(p, p + len as int), p + len as int))
        } else {
            None
        },
        None => None,
    }
}

pub open spec fn dec_text(s: Seq<u8>, pos: int) -> Option<(Seq<u8>, int)> {
    dec_str(s, pos, MAJOR_TEXT)
}

pub open spec fn dec_bytes(s: Seq<u8>, pos: int) -> Option<(Seq<u8>, int)> {
    dec_str(s, pos, MAJOR_BYTES)
}

pub open spec fn dec_maphead(s: Seq<u8>, pos: int) -> Option<(u64, int)> {
    match dec_head(s, pos) {
        Some((major, v, p)) => if major == MAJOR_MAP {
            Some((v, p))
        } else {
            None
        },
        None => None,
    }
}

pub open spec fn dec_f64(s: Seq<u8>, pos: int) -> Option<(u64, int)> {
    if 0 <= pos && pos + 9 <= s.len() && s[pos] == 0xfb {
        Some((rd8(s, pos + 1), pos + 9))
    } else {
        None
    }
}

/// Match the exact byte sequence `lit` at `pos`.
pub open spec fn dec_lit(s: Seq<u8>, pos: int, lit: Seq<u8>) -> Option<int> {
    if starts(s, pos, lit) {
        Some(pos + lit.len() as int)
    } else {
        None
    }
}

/// `s` holds exactly the bytes `x` beginning at `pos`.
pub open spec fn starts(s: Seq<u8>, pos: int, x: Seq<u8>) -> bool {
    &&& 0 <= pos
    &&& pos + x.len() <= s.len()
    &&& s.subrange(pos, pos + x.len() as int) == x
}

// ---------------------------------------------------------------- lemmas

pub proof fn lemma_starts_split(s: Seq<u8>, pos: int, a: Seq<u8>, b: Seq<u8>)
    requires
        starts(s, pos, a + b),
    ensures
        starts(s, pos, a),
        starts(s, pos + a.len(), b),
{
    let ab = a + b;
    let full = s.subrange(pos, pos + ab.len() as int);
    assert forall|i: int| 0 <= i < a.len() implies s[pos + i] == a[i] by {
        assert(full[i] == ab[i]);
    }
    assert forall|i: int| 0 <= i < b.len() implies s[pos + a.len() + i] == b[i] by {
        assert(full[a.len() + i] == ab[a.len() + i]);
    }
    assert(s.subrange(pos, pos + a.len() as int) =~= a);
    assert(s.subrange(pos + a.len(), pos + a.len() + b.len() as int) =~= b);
}

proof fn lemma_major_split(major: u8, ai: u8)
    requires
        major <= 5,
        ai < 32,
    ensures
        ((major * 32 + ai) as u8) / 32 == major,
        ((major * 32 + ai) as u8) % 32 == ai,
{
    let b = (major * 32 + ai) as u8;
    assert(b / 32 == major && b % 32 == ai) by (nonlinear_arith)
        requires
            major <= 5,
            ai < 32,
            b == major * 32 + ai,
    ;
}

/// The parser reads back exactly the header that `head` wrote.
pub proof fn lemma_dec_head(s: Seq<u8>, pos: int, major: u8, v: u64)
    requires
        major == MAJOR_UINT || major == MAJOR_BYTES || major == MAJOR_TEXT || major == MAJOR_MAP,
        starts(s, pos, head(major, v)),
    ensures
        dec_head(s, pos) == Some((major, v, pos + head(major, v).len())),
{
    let h = head(major, v);
    assert forall|i: int| 0 <= i < h.len() implies s[pos + i] == h[i] by {
        assert(s.subrange(pos, pos + h.len() as int)[i] == h[i]);
    }
    assert(s[pos] == h[0]);
    if v < 24 {
        lemma_major_split(major, v as u8);
        assert(h == seq![(major * 32 + v) as u8]);
        assert(s[pos] == (major * 32 + v) as u8);
    } else if v <= 0xff {
        lemma_major_split(major, 24);
        assert(h == seq![(major * 32 + 24) as u8, v as u8]);
        assert(s[pos + 1] == v as u8);
    } else if v <= 0xffff {
        lemma_major_split(major, 25);
        let b1 = ((v >> 8) & 0xff) as u8;
        let b2 = (v & 0xff) as u8;
        assert(h == seq![(major * 32 + 25) as u8] + be2(v));
        assert(h[1] == b1 && h[2] == b2);
        assert(s[pos + 1] == b1 && s[pos + 2] == b2);
        assert(((b1 as u64) << 8) | (b2 as u64) == v) by (bit_vector)
            requires
                b1 == ((v >> 8) & 0xff) as u8,
                b2 == (v & 0xff) as u8,
                0xff < v <= 0xffff,
        ;
    } else if v <= 0xffff_ffff {
        lemma_major_split(major, 26);
        let b1 = ((v >> 24) & 0xff) as u8;
        let b2 = ((v >> 16) & 0xff) as u8;
        let b3 = ((v >> 8) & 0xff) as u8;
        let b4 = (v & 0xff) as u8;
        assert(h == seq![(major * 32 + 26) as u8] + be4(v));
        assert(h[1] == b1 && h[2] == b2 && h[3] == b3 && h[4] == b4);
        assert(s[pos + 1] == b1 && s[pos + 2] == b2 && s[pos + 3] == b3 && s[pos + 4] == b4);
        assert((((b1 as u64) << 24) | ((b2 as u64) << 16) | ((b3 as u64) << 8) | (b4 as u64))
            == v) by (bit_vector)
            requires
                b1 == ((v >> 24) & 0xff) as u8,
                b2 == ((v >> 16) & 0xff) as u8,
                b3 == ((v >> 8) & 0xff) as u8,
                b4 == (v & 0xff) as u8,
                0xffff < v <= 0xffff_ffff,
        ;
    } else {
        lemma_major_split(major, 27);
        let b1 = ((v >> 56) & 0xff) as u8;
        let b2 = ((v >> 48) & 0xff) as u8;
        let b3 = ((v >> 40) & 0xff) as u8;
        let b4 = ((v >> 32) & 0xff) as u8;
        let b5 = ((v >> 24) & 0xff) as u8;
        let b6 = ((v >> 16) & 0xff) as u8;
        let b7 = ((v >> 8) & 0xff) as u8;
        let b8 = (v & 0xff) as u8;
        assert(h == seq![(major * 32 + 27) as u8] + be8(v));
        assert(h[1] == b1 && h[2] == b2 && h[3] == b3 && h[4] == b4);
        assert(h[5] == b5 && h[6] == b6 && h[7] == b7 && h[8] == b8);
        assert(s[pos + 1] == b1 && s[pos + 2] == b2 && s[pos + 3] == b3 && s[pos + 4] == b4);
        assert(s[pos + 5] == b5 && s[pos + 6] == b6 && s[pos + 7] == b7 && s[pos + 8] == b8);
        assert((((b1 as u64) << 56) | ((b2 as u64) << 48) | ((b3 as u64) << 40) | ((b4 as u64)
            << 32) | ((b5 as u64) << 24) | ((b6 as u64) << 16) | ((b7 as u64) << 8) | (
        b8 as u64)) == v) by (bit_vector)
            requires
                b1 == ((v >> 56) & 0xff) as u8,
                b2 == ((v >> 48) & 0xff) as u8,
                b3 == ((v >> 40) & 0xff) as u8,
                b4 == ((v >> 32) & 0xff) as u8,
                b5 == ((v >> 24) & 0xff) as u8,
                b6 == ((v >> 16) & 0xff) as u8,
                b7 == ((v >> 8) & 0xff) as u8,
                b8 == (v & 0xff) as u8,
                v > 0xffff_ffff,
        ;
    }
}

pub proof fn lemma_dec_uint(s: Seq<u8>, pos: int, v: u64)
    requires
        starts(s, pos, enc_uint(v)),
    ensures
        dec_uint(s, pos) == Some((v, pos + enc_uint(v).len())),
{
    lemma_dec_head(s, pos, MAJOR_UINT, v);
}

pub proof fn lemma_dec_maphead(s: Seq<u8>, pos: int, n: u64)
    requires
        starts(s, pos, map_head(n)),
    ensures
        dec_maphead(s, pos) == Some((n, pos + map_head(n).len())),
        dec_head(s, pos) == Some((MAJOR_MAP, n, pos + map_head(n).len())),
{
    lemma_dec_head(s, pos, MAJOR_MAP, n);
}

proof fn lemma_dec_str(s: Seq<u8>, pos: int, b: Seq<u8>, major: u8)
    requires
        major == MAJOR_BYTES || major == MAJOR_TEXT,
        b.len() <= u64::MAX,
        starts(s, pos, head(major, b.len() as u64) + b),
    ensures
        dec_str(s, pos, major) == Some(
            (b, pos + (head(major, b.len() as u64) + b).len() as int),
        ),
        dec_head(s, pos) == Some(
            (major, b.len() as u64, pos + head(major, b.len() as u64).len()),
        ),
{
    let h = head(major, b.len() as u64);
    lemma_starts_split(s, pos, h, b);
    lemma_dec_head(s, pos, major, b.len() as u64);
}

pub proof fn lemma_dec_text(s: Seq<u8>, pos: int, b: Seq<u8>)
    requires
        b.len() <= u64::MAX,
        starts(s, pos, enc_text(b)),
    ensures
        dec_text(s, pos) == Some((b, pos + enc_text(b).len() as int)),
        dec_head(s, pos) == Some(
            (MAJOR_TEXT, b.len() as u64, pos + head(MAJOR_TEXT, b.len() as u64).len()),
        ),
{
    lemma_dec_str(s, pos, b, MAJOR_TEXT);
}

pub proof fn lemma_dec_bytes(s: Seq<u8>, pos: int, b: Seq<u8>)
    requires
        b.len() <= u64::MAX,
        starts(s, pos, enc_bytes(b)),
    ensures
        dec_bytes(s, pos) == Some((b, pos + enc_bytes(b).len() as int)),
        dec_head(s, pos) == Some(
            (MAJOR_BYTES, b.len() as u64, pos + head(MAJOR_BYTES, b.len() as u64).len()),
        ),
{
    lemma_dec_str(s, pos, b, MAJOR_BYTES);
}

pub proof fn lemma_dec_f64(s: Seq<u8>, pos: int, bits: u64)
    requires
        starts(s, pos, enc_f64(bits)),
    ensures
        dec_f64(s, pos) == Some((bits, pos + 9)),
{
    let h = enc_f64(bits);
    assert forall|i: int| 0 <= i < h.len() implies s[pos + i] == h[i] by {
        assert(s.subrange(pos, pos + h.len() as int)[i] == h[i]);
    }
    let b1 = ((bits >> 56) & 0xff) as u8;
    let b2 = ((bits >> 48) & 0xff) as u8;
    let b3 = ((bits >> 40) & 0xff) as u8;
    let b4 = ((bits >> 32) & 0xff) as u8;
    let b5 = ((bits >> 24) & 0xff) as u8;
    let b6 = ((bits >> 16) & 0xff) as u8;
    let b7 = ((bits >> 8) & 0xff) as u8;
    let b8 = (bits & 0xff) as u8;
    assert(h == seq![0xfbu8] + be8(bits));
    assert(h[0] == 0xfb);
    assert(h[1] == b1 && h[2] == b2 && h[3] == b3 && h[4] == b4);
    assert(h[5] == b5 && h[6] == b6 && h[7] == b7 && h[8] == b8);
    assert(s[pos] == 0xfb);
    assert(s[pos + 1] == b1 && s[pos + 2] == b2 && s[pos + 3] == b3 && s[pos + 4] == b4);
    assert(s[pos + 5] == b5 && s[pos + 6] == b6 && s[pos + 7] == b7 && s[pos + 8] == b8);
    assert((((b1 as u64) << 56) | ((b2 as u64) << 48) | ((b3 as u64) << 40) | ((b4 as u64) << 32)
        | ((b5 as u64) << 24) | ((b6 as u64) << 16) | ((b7 as u64) << 8) | (b8 as u64))
        == bits) by (bit_vector)
        requires
            b1 == ((bits >> 56) & 0xff) as u8,
            b2 == ((bits >> 48) & 0xff) as u8,
            b3 == ((bits >> 40) & 0xff) as u8,
            b4 == ((bits >> 32) & 0xff) as u8,
            b5 == ((bits >> 24) & 0xff) as u8,
            b6 == ((bits >> 16) & 0xff) as u8,
            b7 == ((bits >> 8) & 0xff) as u8,
            b8 == (bits & 0xff) as u8,
    ;
}

// ---------------------------------------------------------------- exec: encoding

/// Append the header of an item of major type `major` with argument `v`.
pub fn enc_head_x(out: &mut Vec<u8>, major: u8, v: u64)
    requires
        major <= 5,
    ensures
        final(out)@ == old(out)@ + head(major, v),
{
    if v < 24 {
        out.push(major * 32 + v as u8);
    } else if v <= 0xff {
        out.push(major * 32 + 24);
        out.push(v as u8);
    } else if v <= 0xffff {
        out.push(major * 32 + 25);
        out.push(((v >> 8) & 0xff) as u8);
        out.push((v & 0xff) as u8);
    } else if v <= 0xffff_ffff {
        out.push(major * 32 + 26);
        out.push(((v >> 24) & 0xff) as u8);
        out.push(((v >> 16) & 0xff) as u8);
        out.push(((v >> 8) & 0xff) as u8);
        out.push((v & 0xff) as u8);
    } else {
        out.push(major * 32 + 27);
        push_be8(out, v);
    }
    assert(out@ =~= old(out)@ + head(major, v));
}

fn push_be8(out: &mut Vec<u8>, v: u64)
    ensures
        final(out)@ == old(out)@ + be8(v),
{
    out.push(((v >> 56) & 0xff) as u8);
    out.push(((v >> 48) & 0xff) as u8);
    out.push(((v >> 40) & 0xff) as u8);
    out.push(((v >> 32) & 0xff) as u8);
    out.push(((v >> 24) & 0xff) as u8);
    out.push(((v >> 16) & 0xff) as u8);
    out.push(((v >> 8) & 0xff) as u8);
    out.push((v & 0xff) as u8);
    assert(out@ =~= old(out)@ + be8(v));
}

pub fn enc_uint_x(out: &mut Vec<u8>, v: u64)
    ensures
        final(out)@ == old(out)@ + enc_uint(v),
{
    enc_head_x(out, MAJOR_UINT, v);
}

pub fn push_all(out: &mut Vec<u8>, b: &Vec<u8>)
    ensures
        final(out)@ == old(out)@ + b@,
{
    let mut i: usize = 0;
    while i < b.len()
        invariant
            i <= b.len(),
            out@ == old(out)@ + b@.subrange(0, i as int),
        decreases b.len() - i,
    {
        out.push(b[i]);
        i = i + 1;
        assert(out@ =~= old(out)@ + b@.subrange(0, i as int));
    }
    assert(out@ =~= old(out)@ + b@);
}

pub fn enc_bytes_x(out: &mut Vec<u8>, b: &Vec<u8>)
    ensures
        final(out)@ == old(out)@ + enc_bytes(b@),
{
    enc_head_x(out, MAJOR_BYTES, b.len() as u64);
    push_all(out, b);
    assert(out@ =~= old(out)@ + enc_bytes(b@));
}

pub fn enc_text_x(out: &mut Vec<u8>, b: &Vec<u8>)
    ensures
        final(out)@ == old(out)@ + enc_text(b@),
{
    enc_head_x(out, MAJOR_TEXT, b.len() as u64);
    push_all(out, b);
    assert(out@ =~= old(out)@ + enc_text(b@));
}

pub fn map_head_x(out: &mut Vec<u8>, n: u64)
    ensures
        final(out)@ == old(out)@ + map_head(n),
{
    enc_head_x(out, MAJOR_MAP, n);
}

pub fn enc_null_x(out: &mut Vec<u8>)
    ensures
        final(out)@ == old(out)@ + enc_null(),
{
    out.push(0xf6);
    assert(out@ =~= old(out)@ + enc_null());
}

pub fn enc_f64_x(out: &mut Vec<u8>, bits: u64)
    ensures
        final(out)@ == old(out)@ + enc_f64(bits),
{
    out.push(0xfb);
    push_be8(out, bits);
    assert(out@ =~= old(out)@ + enc_f64(bits));
}

// ---------------------------------------------------------------- exec: parsing

/// Executable mirror of `dec_head`.
pub fn dec_head_x(buf: &Vec<u8>, pos: usize) -> (r: Option<(u8, u64, usize)>)
    ensures
        r matches Some((m, v, p)) ==> dec_head(buf@, pos as int) == Some((m, v, p as int)),
        r is None ==> dec_head(buf@, pos as int) is None,
{
    if pos >= buf.len() {
        return None;
    }
    let b = buf[pos];
    let major = b / 32;
    let ai = b % 32;
    if ai < 24 {
        Some((major, ai as u64, pos + 1))
    } else if ai == 24 {
        if buf.len() - pos >= 2 && buf[pos + 1] >= 24 {
            Some((major, buf[pos + 1] as u64, pos + 2))
        } else {
            None
        }
    } else if ai == 25 {
        if buf.len() - pos >= 3 {
            let v = ((buf[pos + 1] as u64) << 8) | (buf[pos + 2] as u64);
            if v > 0xff {
                Some((major, v, pos + 3))
            } else {
                None
            }
        } else {
            None
        }
    } else if ai == 26 {
        if buf.len() - pos >= 5 {
            let v = ((buf[pos + 1] as u64) << 24) | ((buf[pos + 2] as u64) << 16) | ((buf[pos
                + 3] as u64) << 8) | (buf[pos + 4] as u64);
            if v > 0xffff {
                Some((major, v, pos + 5))
            } else {
                None
            }
        } else {
            None
        }
    } else if ai == 27 {
        if buf.len() - pos >= 9 {
            let v = ((buf[pos + 1] as u64) << 56) | ((buf[pos + 2] as u64) << 48) | ((buf[pos
                + 3] as u64) << 40) | ((buf[pos + 4] as u64) << 32) | ((buf[pos + 5] as u64) << 24)
                | ((buf[pos + 6] as u64) << 16) | ((buf[pos + 7] as u64) << 8) | (buf[pos
                + 8] as u64);
            if v > 0xffff_ffff {
                Some((major, v, pos + 9))
            } else {
                None
            }
        } else {
            None
        }
    } else {
        None
    }
}

/// Copy `buf[start..end]` out into a fresh vector.
pub fn copy_range(buf: &Vec<u8>, start: usize, end: usize) -> (r: Vec<u8>)
    requires
        start <= end <= buf.len(),
    ensures
        r@ == buf@.subrange(start as int, end as int),
{
    let mut r: Vec<u8> = Vec::new();
    let mut i: usize = start;
    while i < end
        invariant
            start <= i <= end <= buf.len(),
            r@ == buf@.subrange(start as int, i as int),
        decreases end - i,
    {
        r.push(buf[i]);
        i = i + 1;
        assert(r@ =~= buf@.subrange(start as int, i as int));
    }
    r
}

/// A fresh vector holding the same bytes.
pub fn copy_bytes(v: &Vec<u8>) -> (r: Vec<u8>)
    ensures
        r@ == v@,
{
    let r = copy_range(v, 0, v.len());
    assert(r@ =~= v@);
    r
}

fn dec_str_x(buf: &Vec<u8>, pos: usize, major: u8) -> (r: Option<(Vec<u8>, usize)>)
    ensures
        r matches Some((b, p)) ==> dec_str(buf@, pos as int, major) == Some((b@, p as int)),
        r is None ==> dec_str(buf@, pos as int, major) is None,
{
    match dec_head_x(buf, pos) {
        Some((m, len, p)) => {
            if m == major && len <= (buf.len() - p) as u64 {
                let end = p + (len as usize);
                let b = copy_range(buf, p, end);
                Some((b, end))
            } else {
                None
            }
        },
        None => None,
    }
}

pub fn dec_text_x(buf: &Vec<u8>, pos: usize) -> (r: Option<(Vec<u8>, usize)>)
    ensures
        r matches Some((b, p)) ==> dec_text(buf@, pos as int) == Some((b@, p as int)),
        r is None ==> dec_text(buf@, pos as int) is None,
{
    dec_str_x(buf, pos, MAJOR_TEXT)
}

pub fn dec_bytes_x(buf: &Vec<u8>, pos: usize) -> (r: Option<(Vec<u8>, usize)>)
    ensures
        r matches Some((b, p)) ==> dec_bytes(buf@, pos as int) == Some((b@, p as int)),
        r is None ==> dec_bytes(buf@, pos as int) is None,
{
    dec_str_x(buf, pos, MAJOR_BYTES)
}

pub fn dec_uint_x(buf: &Vec<u8>, pos: usize) -> (r: Option<(u64, usize)>)
    ensures
        r matches Some((v, p)) ==> dec_uint(buf@, pos as int) == Some((v, p as int)),
        r is None ==> dec_uint(buf@, pos as int) is None,
{
    match dec_head_x(buf, pos) {
        Some((m, v, p)) => if m == MAJOR_UINT {
            Some((v, p))
        } else {
            None
        },
        None => None,
    }
}

pub fn dec_maphead_x(buf: &Vec<u8>, pos: usize) -> (r: Option<(u64, usize)>)
    ensures
        r matches Some((v, p)) ==> dec_maphead(buf@, pos as int) == Some((v, p as int)),
        r is None ==> dec_maphead(buf@, pos as int) is None,
{
    match dec_head_x(buf, pos) {
        Some((m, v, p)) => if m == MAJOR_MAP {
            Some((v, p))
        } else {
            None
        },
        None => None,
    }
}

pub fn dec_f64_x(buf: &Vec<u8>, pos: usize) -> (r: Option<(u64, usize)>)
    ensures
        r matches Some((v, p)) ==> dec_f64(buf@, pos as int) == Some((v, p as int)),
        r is None ==> dec_f64(buf@, pos as int) is None,
{
    if pos < buf.len() && buf.len() - pos >= 9 && buf[pos] == 0xfb {
        let v = ((buf[pos + 1] as u64) << 56) | ((buf[pos + 2] as u64) << 48) | ((buf[pos
            + 3] as u64) << 40) | ((buf[pos + 4] as u64) << 32) | ((buf[pos + 5] as u64) << 24) | ((
        buf[pos + 6] as u64) << 16) | ((buf[pos + 7] as u64) << 8) | (buf[pos + 8] as u64);
        Some((v, pos + 9))
    } else {
        None
    }
}

/// Do the views of two byte vectors hold the same bytes?
pub fn eq_bytes(a: &Vec<u8>, b: &Vec<u8>) -> (r: bool)
    ensures
        r == (a@ == b@),
{
    if a.len() != b.len() {
        assert(a@ != b@) by {
            assert(a@.len() != b@.len());
        }
        return false;
    }
    let mut i: usize = 0;
    while i < a.len()
        invariant
            i <= a.len(),
            a@.len() == b@.len(),
            forall|j: int| 0 <= j < i ==> a@[j] == b@[j],
        decreases a.len() - i,
    {
        if a[i] != b[i] {
            return false;
        }
        i = i + 1;
    }
    assert(a@ =~= b@);
    true
}

/// Executable mirror of `dec_lit`.
pub fn match_lit(buf: &Vec<u8>, pos: usize, lit: &Vec<u8>) -> (r: Option<usize>)
    ensures
        r matches Some(p) ==> dec_lit(buf@, pos as int, lit@) == Some(p as int),
        r is None ==> dec_lit(buf@, pos as int, lit@) is None,
{
    if lit.len() > buf.len() || pos > buf.len() - lit.len() {
        return None;
    }
    let mut i: usize = 0;
    while i < lit.len()
        invariant
            i <= lit.len(),
            pos + lit.len() <= buf.len(),
            forall|j: int| 0 <= j < i ==> buf@[pos + j] == lit@[j],
        decreases lit.len() - i,
    {
        if buf[pos + i] != lit[i] {
            assert(buf@.subrange(pos as int, pos + lit@.len() as int) != lit@) by {
                assert(buf@.subrange(pos as int, pos + lit@.len() as int)[i as int] == buf@[pos
                    + i]);
            }
            return None;
        }
        i = i + 1;
    }
    assert(buf@.subrange(pos as int, pos + lit@.len() as int) =~= lit@);
    Some(pos + lit.len())
}

// ---------------------------------------------------------------- hex

/// The ASCII code of the lowercase hex digit for `n < 16`.
pub open spec fn hex_digit(n: u8) -> u8 {
    if n < 10 {
        (48 + n) as u8
    } else {
        (87 + n) as u8
    }
}

/// Lowercase hex rendering of a byte string: two digits per byte.
pub open spec fn hex_seq(b: Seq<u8>) -> Seq<u8> {
    Seq::new(
        2 * b.len(),
        |i: int|
            if i % 2 == 0 {
                hex_digit(b[i / 2] / 16)
            } else {
                hex_digit(b[i / 2] % 16)
            },
    )
}

fn hex_digit_x(n: u8) -> (r: u8)
    requires
        n < 16,
    ensures
        r == hex_digit(n),
{
    if n < 10 {
        48 + n
    } else {
        87 + n
    }
}

/// Render a byte string as its lowercase hex form.
pub fn to_hex(b: &Vec<u8>) -> (r: Vec<u8>)
    ensures
        r@ == hex_seq(b@),
{
    let mut r: Vec<u8> = Vec::new();
    let mut i: usize = 0;
    while i < b.len()
        invariant
            i <= b.len(),
            r@.len() == 2 * i,
            forall|j: int| 0 <= j < r@.len() ==> r@[j] == hex_seq(b@)[j],
        decreases b.len() - i,
    {
        let x = b[i];
        r.push(hex_digit_x(x / 16));
        r.push(hex_digit_x(x % 16));
        i = i + 1;
    }
    assert(r@ =~= hex_seq(b@));
    r
}

} // verus!
