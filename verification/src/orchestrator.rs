//! Fetch orchestration and the polling cycle's decisions: collecting
//! the successful per-peer results of one fan-out, the shape of one
//! whole cycle's outcome, and the fixed polling interval.
use crate::codec::dec_m2t;
use crate::messages::{
    MakerAddressV, MakerToTakerMessageV, OfferAndAddress, OfferAndAddressV, OfferV,
};
use vstd::prelude::*;

verus! {

/// The payloads of the `Some` entries of a batch, in batch order.
pub open spec fn successes(rs: Seq<Option<OfferAndAddressV>>) -> Seq<OfferAndAddressV>
    decreases rs.len(),
{
    if rs.len() == 0 {
        Seq::empty()
    } else {
        let rest = successes(rs.drop_first());
        match rs.first() {
            Some(a) => seq![a] + rest,
            None => rest,
        }
    }
}

pub open spec fn opt_views(rs: Seq<Option<OfferAndAddress>>) -> Seq<Option<OfferAndAddressV>> {
    rs.map_values(
        |o: Option<OfferAndAddress>|
            match o {
                Some(a) => Some(a@),
                None => None,
            },
    )
}

pub open spec fn offer_views(rs: Seq<OfferAndAddress>) -> Seq<OfferAndAddressV> {
    rs.map_values(|a: OfferAndAddress| a@)
}

pub proof fn lemma_successes_len(rs: Seq<Option<OfferAndAddressV>>)
    ensures
        successes(rs).len() <= rs.len(),
    decreases rs.len(),
{
    if rs.len() > 0 {
        lemma_successes_len(rs.drop_first());
    }
}

proof fn lemma_successes_snoc(rs: Seq<Option<OfferAndAddressV>>, x: Option<OfferAndAddressV>)
    ensures
        successes(rs.push(x)) == successes(rs) + (match x {
            Some(a) => seq![a],
            None => Seq::<OfferAndAddressV>::empty(),
        }),
    decreases rs.len(),
{
    let tail = (match x {
        Some(a) => seq![a],
        None => Seq::<OfferAndAddressV>::empty(),
    });
    if rs.len() == 0 {
        assert(rs.push(x).drop_first() =~= rs);
        assert(rs.push(x).first() == x);
        assert(successes(rs.push(x)) =~= successes(rs) + tail);
    } else {
        assert(rs.push(x).drop_first() =~= rs.drop_first().push(x));
        assert(rs.push(x).first() == rs.first());
        lemma_successes_snoc(rs.drop_first(), x);
        match rs.first() {
            Some(a) => {
                assert(seq![a] + (successes(rs.drop_first()) + tail) =~= (seq![a] + successes(
                    rs.drop_first(),
                )) + tail);
            },
            None => {},
        }
    }
}

/// Keep the successes of one fan-out, in the order the batch handed
/// them in: every `Some` entry's offer, nothing of the `None`
/// entries, never more entries than the batch had.
pub fn collect_successes(results: &Vec<Option<OfferAndAddress>>) -> (r: Vec<OfferAndAddress>)
    ensures
        offer_views(r@) == successes(opt_views(results@)),
        r@.len() <= results@.len(),
{
    let mut out: Vec<OfferAndAddress> = Vec::new();
    let mut i: usize = 0;
    while i < results.len()
        invariant
            i <= results@.len(),
            offer_views(out@) == successes(opt_views(results@).take(i as int)),
            out@.len() <= i,
        decreases results@.len() - i,
    {
        let ghost pre = opt_views(results@).take(i as int);
        let ghost cur = opt_views(results@)[i as int];
        proof {
            assert(opt_views(results@).take(i + 1) =~= pre.push(cur));
            lemma_successes_snoc(pre, cur);
        }
        let ghost prevout = out@;
        match &results[i] {
            Some(a) => {
                let d = a.duplicate();
                out.push(d);
                proof {
                    assert(cur == Some(a@));
                    assert(offer_views(out@) =~= offer_views(prevout) + seq![a@]);
                    assert(offer_views(out@) =~= successes(opt_views(results@).take(i + 1)));
                }
            },
            None => {
                proof {
                    assert(cur == Option::<OfferAndAddressV>::None);
                    assert(offer_views(out@) =~= successes(opt_views(results@).take(i + 1)));
                }
            },
        }
        i = i + 1;
    }
    proof {
        assert(opt_views(results@).take(results@.len() as int) =~= opt_views(results@));
        lemma_successes_len(opt_views(results@));
    }
    out
}

// ---------------------------------------------------------------- one cycle's shape

/// What one peer contributes to a cycle: nothing if it failed before
/// a reply payload was read; otherwise its decoded offer response,
/// stamped with the peer's address and the capture time — and
/// nothing for any reply that is not an offer response.
pub open spec fn peer_result(reply: Option<Seq<u8>>, addr: MakerAddressV, ts: u64) -> Option<
    OfferAndAddressV,
> {
    match reply {
        Some(payload) => match dec_m2t(payload) {
            Some(MakerToTakerMessageV::RespOffer(o)) => Some(
                OfferAndAddressV { offer: o, address: addr, timestamp: ts },
            ),
            _ => None,
        },
        None => None,
    }
}

/// The offers one whole cycle yields from the discovered addresses
/// and each peer's reply payload (`None` where connect, handshake or
/// request failed).
pub open spec fn cycle_offers(
    addrs: Seq<MakerAddressV>,
    replies: Seq<Option<Seq<u8>>>,
    ts: u64,
) -> Seq<OfferAndAddressV> {
    successes(Seq::new(addrs.len(), |i: int| peer_result(replies[i], addrs[i], ts)))
}

pub open spec fn strip_timestamp(r: OfferAndAddressV) -> (OfferV, MakerAddressV) {
    (r.offer, r.address)
}

pub open spec fn strip_timestamps(rs: Seq<OfferAndAddressV>) -> Seq<(OfferV, MakerAddressV)> {
    rs.map_values(|r: OfferAndAddressV| strip_timestamp(r))
}

pub open spec fn opt_strip(x: Option<OfferAndAddressV>) -> Option<(OfferV, MakerAddressV)> {
    match x {
        Some(a) => Some(strip_timestamp(a)),
        None => None,
    }
}

proof fn lemma_successes_strip(
    rs1: Seq<Option<OfferAndAddressV>>,
    rs2: Seq<Option<OfferAndAddressV>>,
)
    requires
        rs1.len() == rs2.len(),
        forall|i: int| 0 <= i < rs1.len() ==> opt_strip(rs1[i]) == opt_strip(rs2[i]),
    ensures
        strip_timestamps(successes(rs1)) == strip_timestamps(successes(rs2)),
    decreases rs1.len(),
{
    if rs1.len() > 0 {
        assert forall|i: int| 0 <= i < rs1.drop_first().len() implies opt_strip(
            rs1.drop_first()[i],
        ) == opt_strip(rs2.drop_first()[i]) by {
            assert(rs1.drop_first()[i] == rs1[i + 1]);
            assert(rs2.drop_first()[i] == rs2[i + 1]);
            assert(opt_strip(rs1[i + 1]) == opt_strip(rs2[i + 1]));
        }
        lemma_successes_strip(rs1.drop_first(), rs2.drop_first());
        assert(opt_strip(rs1[0]) == opt_strip(rs2[0]));
        match rs1.first() {
            Some(a1) => {
                let a2 = rs2.first()->Some_0;
                assert(strip_timestamps(seq![a1] + successes(rs1.drop_first())) =~= seq![
                    strip_timestamp(a1),
                ] + strip_timestamps(successes(rs1.drop_first())));
                assert(strip_timestamps(seq![a2] + successes(rs2.drop_first())) =~= seq![
                    strip_timestamp(a2),
                ] + strip_timestamps(successes(rs2.drop_first())));
            },
            None => {},
        }
    }
}

/// Two cycles over the same addresses with the same peer replies
/// yield the same offers, in the same order, whatever capture times
/// were stamped on them: only the timestamps differ between the runs.
pub proof fn lemma_cycle_timestamp_independent(
    addrs: Seq<MakerAddressV>,
    replies: Seq<Option<Seq<u8>>>,
    t1: u64,
    t2: u64,
)
    ensures
        strip_timestamps(cycle_offers(addrs, replies, t1)) == strip_timestamps(
            cycle_offers(addrs, replies, t2),
        ),
{
    let rs1 = Seq::new(addrs.len(), |i: int| peer_result(replies[i], addrs[i], t1));
    let rs2 = Seq::new(addrs.len(), |i: int| peer_result(replies[i], addrs[i], t2));
    assert forall|i: int| 0 <= i < rs1.len() implies opt_strip(rs1[i]) == opt_strip(rs2[i]) by {
        assert(rs1[i] == peer_result(replies[i], addrs[i], t1));
        assert(rs2[i] == peer_result(replies[i], addrs[i], t2));
    }
    lemma_successes_strip(rs1, rs2);
}

// ---------------------------------------------------------------- polling

/// The fixed pause between polling cycles, in seconds.
pub const POLL_INTERVAL_SECS: u64 = 120;

/// A cycle hands its offers to the snapshot writer only when it
/// fetched at least one.
pub fn should_publish(n_offers: usize) -> (b: bool)
    ensures
        b == (n_offers > 0),
{
    n_offers > 0
}

} // verus!
