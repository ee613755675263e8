//! Directory bootstrap: parsing the newline-delimited `host:port`
//! address list a directory response carries, the fixed rendezvous
//! target it is fetched from, and the bounded-retry policy around the
//! connection attempts.
use crate::keys::{lit_rendezvous_host, lit_rendezvous_port, n_rendezvous_host, n_rendezvous_port};
use crate::messages::{MakerAddress, MakerAddressV};
use crate::wire::copy_range;
use vstd::prelude::*;

verus! {

// ---------------------------------------------------------------- spec: line parsing

/// Index of the first newline at or after `pos`, or the end of `s`.
pub open spec fn find_nl(s: Seq<u8>, pos: int) -> int
    decreases s.len() - pos,
{
    if 0 <= pos < s.len() {
        if s[pos] == 10 {
            pos
        } else {
            find_nl(s, pos + 1)
        }
    } else {
        s.len() as int
    }
}

/// Index of the first colon in `l`, or the end of `l`.
pub open spec fn find_colon(l: Seq<u8>, pos: int) -> int
    decreases l.len() - pos,
{
    if 0 <= pos < l.len() {
        if l[pos] == 58 {
            pos
        } else {
            find_colon(l, pos + 1)
        }
    } else {
        l.len() as int
    }
}

/// One directory line: strip one trailing carriage return, then split
/// at the first colon into name and port. A line without a colon is
/// no address and is dropped.
pub open spec fn parse_line(line: Seq<u8>) -> Option<MakerAddressV> {
    let l = if line.len() > 0 && line[line.len() - 1] == 13 {
        line.take(line.len() - 1)
    } else {
        line
    };
    let c = find_colon(l, 0);
    if c < l.len() {
        Some(MakerAddressV { onion_addr: l.take(c), port: l.subrange(c + 1, l.len() as int) })
    } else {
        None
    }
}

/// All addresses in the newline-delimited text from `pos` on, in
/// order of appearance, malformed lines dropped.
pub open spec fn parse_addrs_from(s: Seq<u8>, pos: int) -> Seq<MakerAddressV>
    decreases s.len() + 1 - pos,
        via parse_addrs_from_decreases
{
    if 0 <= pos < s.len() {
        let j = find_nl(s, pos);
        let rest = parse_addrs_from(s, j + 1);
        match parse_line(s.subrange(pos, j)) {
            Some(a) => seq![a] + rest,
            None => rest,
        }
    } else {
        Seq::empty()
    }
}

pub proof fn lemma_find_nl_bounds(s: Seq<u8>, pos: int)
    requires
        0 <= pos <= s.len(),
    ensures
        pos <= find_nl(s, pos) <= s.len(),
    decreases s.len() - pos,
{
    if pos < s.len() && s[pos] != 10 {
        lemma_find_nl_bounds(s, pos + 1);
    }
}

#[via_fn]
proof fn parse_addrs_from_decreases(s: Seq<u8>, pos: int) {
    if 0 <= pos < s.len() {
        lemma_find_nl_bounds(s, pos);
    }
}

proof fn lemma_find_nl_step(s: Seq<u8>, pos: int, j: int)
    requires
        0 <= pos <= j <= s.len(),
        forall|k: int| pos <= k < j ==> s[k] != 10,
        j == s.len() || s[j] == 10,
    ensures
        find_nl(s, pos) == j,
    decreases j - pos,
{
    if pos < j {
        lemma_find_nl_step(s, pos + 1, j);
    }
}

proof fn lemma_find_colon_step(l: Seq<u8>, pos: int, c: int)
    requires
        0 <= pos <= c <= l.len(),
        forall|k: int| pos <= k < c ==> l[k] != 58,
        c == l.len() || l[c] == 58,
    ensures
        find_colon(l, pos) == c,
    decreases c - pos,
{
    if pos < c {
        lemma_find_colon_step(l, pos + 1, c);
    }
}

// ---------------------------------------------------------------- exec

/// Parse one line of the blob, `blob[start..end0]`, into an address.
fn parse_line_x(blob: &Vec<u8>, start: usize, end0: usize) -> (r: Option<MakerAddress>)
    requires
        start <= end0 <= blob@.len(),
    ensures
        r matches Some(a) ==> parse_line(blob@.subrange(start as int, end0 as int)) == Some(a@),
        r is None ==> parse_line(blob@.subrange(start as int, end0 as int)) is None,
{
    let ghost line = blob@.subrange(start as int, end0 as int);
    let end = if end0 > start && blob[end0 - 1] == 13 {
        end0 - 1
    } else {
        end0
    };
    let ghost l = blob@.subrange(start as int, end as int);
    proof {
        if line.len() > 0 && line[line.len() - 1] == 13 {
            assert(l =~= line.take(line.len() - 1));
        } else {
            assert(l =~= line);
        }
    }
    let mut c: usize = start;
    while c < end && blob[c] != 58
        invariant
            start <= c <= end <= blob@.len(),
            forall|k: int| start <= k < c ==> blob@[k] != 58,
        decreases end - c,
    {
        c = c + 1;
    }
    proof {
        assert forall|k: int| 0 <= k < c - start implies l[k] != 58 by {
            assert(l[k] == blob@[start + k]);
        }
        if c < end {
            assert(l[c - start] == blob@[c as int]);
        }
        lemma_find_colon_step(l, 0, c - start);
    }
    if c < end {
        let host = copy_range(blob, start, c);
        let port = copy_range(blob, c + 1, end);
        proof {
            assert(host@ =~= l.take(c - start));
            assert(port@ =~= l.subrange(c - start + 1, l.len() as int));
        }
        Some(MakerAddress { onion_addr: host, port })
    } else {
        None
    }
}

/// The views of the collected addresses, in order.
pub open spec fn views_of(rs: Seq<MakerAddress>) -> Seq<MakerAddressV> {
    rs.map_values(|a: MakerAddress| a@)
}

/// Parse a whole directory response blob into the addresses of its
/// well-formed `host:port` lines, in order, dropping the rest.
pub fn parse_addresses(blob: &Vec<u8>) -> (r: Vec<MakerAddress>)
    ensures
        views_of(r@) == parse_addrs_from(blob@, 0),
{
    let mut out: Vec<MakerAddress> = Vec::new();
    let mut pos: usize = 0;
    while pos < blob.len()
        invariant
            pos <= blob@.len(),
            parse_addrs_from(blob@, 0) == views_of(out@) + parse_addrs_from(blob@, pos as int),
        decreases blob@.len() - pos,
    {
        let mut j: usize = pos;
        while j < blob.len() && blob[j] != 10
            invariant
                pos <= j <= blob@.len(),
                forall|k: int| pos <= k < j ==> blob@[k] != 10,
            decreases blob@.len() - j,
        {
            j = j + 1;
        }
        proof {
            lemma_find_nl_step(blob@, pos as int, j as int);
        }
        let ghost prev = out@;
        match parse_line_x(blob, pos, j) {
            Some(a) => {
                out.push(a);
                assert(views_of(out@) =~= views_of(prev) + seq![a@]);
                assert(views_of(prev) + (seq![a@] + parse_addrs_from(blob@, j + 1)) =~= (views_of(
                    prev,
                ) + seq![a@]) + parse_addrs_from(blob@, j + 1));
            },
            None => {},
        }
        if j < blob.len() {
            pos = j + 1;
        } else {
            assert(parse_addrs_from(blob@, j + 1) =~= Seq::<MakerAddressV>::empty());
            assert(parse_addrs_from(blob@, j as int) =~= Seq::<MakerAddressV>::empty());
            pos = j;
        }
    }
    assert(parse_addrs_from(blob@, pos as int) =~= Seq::<MakerAddressV>::empty());
    assert(views_of(out@) =~= views_of(out@) + Seq::<MakerAddressV>::empty());
    out
}

// ---------------------------------------------------------------- rendezvous and retry

/// The fixed rendezvous target the address list is fetched from,
/// reachable only through the anonymizing transport.
pub fn rendezvous_target() -> (a: MakerAddress)
    ensures
        a@.onion_addr == n_rendezvous_host(),
        a@.port == n_rendezvous_port(),
{
    MakerAddress { onion_addr: lit_rendezvous_host(), port: lit_rendezvous_port() }
}

/// How many connection attempts one bootstrap cycle may make.
pub const MAX_BOOTSTRAP_ATTEMPTS: u32 = 3;

/// The fixed pause after a failed connection attempt, in seconds.
pub const BOOTSTRAP_BACKOFF_SECS: u64 = 5;

/// Progress of one bootstrap cycle: how many connection attempts have
/// failed so far.
#[derive(Clone, Copy, Debug, PartialEq, Eq, Structural)]
pub struct BootstrapState {
    pub attempts_failed: u32,
}

pub fn new_bootstrap() -> (s: BootstrapState)
    ensures
        s.attempts_failed == 0,
{
    BootstrapState { attempts_failed: 0 }
}

/// May another connection attempt be made, or is this cycle's retry
/// budget spent?
pub fn bootstrap_exhausted(s: &BootstrapState) -> (b: bool)
    ensures
        b == (s.attempts_failed >= MAX_BOOTSTRAP_ATTEMPTS),
{
    s.attempts_failed >= MAX_BOOTSTRAP_ATTEMPTS
}

/// Count one failed connection attempt and say how long to pause
/// before the next step: always the fixed backoff, never growing.
pub fn record_failure(s: &mut BootstrapState) -> (backoff: u64)
    requires
        old(s).attempts_failed < MAX_BOOTSTRAP_ATTEMPTS,
    ensures
        final(s).attempts_failed == old(s).attempts_failed + 1,
        backoff == BOOTSTRAP_BACKOFF_SECS,
{
    s.attempts_failed = s.attempts_failed + 1;
    BOOTSTRAP_BACKOFF_SECS
}

} // verus!
