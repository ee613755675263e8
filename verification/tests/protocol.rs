use offerbook::codec::{decode_m2t, encode_m2t, encode_t2m};
use offerbook::directory::{
    bootstrap_exhausted, new_bootstrap, parse_addresses, record_failure, rendezvous_target,
    BOOTSTRAP_BACKOFF_SECS, MAX_BOOTSTRAP_ATTEMPTS,
};
use offerbook::messages::{
    FidelityBond, FidelityProof, MakerAddress, MakerHello, MakerToTakerMessage, Offer,
    OfferAndAddress, OutPoint, TakerToMakerMessage,
};
use offerbook::orchestrator::{collect_successes, should_publish, POLL_INTERVAL_SECS};
use offerbook::session::{
    annotate_offer, client_hello, handshake_on_reply, offer_reply, HandshakeState,
};
use offerbook::ProtocolError;

fn addr(host: &str, port: &str) -> MakerAddress {
    MakerAddress { onion_addr: host.as_bytes().to_vec(), port: port.as_bytes().to_vec() }
}

fn small_offer(base_fee: u64) -> Offer {
    Offer {
        base_fee,
        amount_relative_fee_pct_bits: 0.1f64.to_bits(),
        time_relative_fee_pct_bits: 0.005f64.to_bits(),
        min_size: 1,
        max_size: 2,
        required_confirms: 1,
        minimum_locktime: 20,
        fidelity: FidelityProof {
            bond: FidelityBond {
                outpoint: OutPoint { txid: b"00ff".to_vec(), vout: 0 },
                amount: 1,
                lock_time: 2,
                pubkey: vec![2u8; 33],
                conf_height: 3,
                cert_expiry: 4,
            },
            cert_hash: vec![0xaa; 32],
            cert_sig: vec![0xbb; 64],
        },
        tweakable_point: vec![3u8; 33],
    }
}

#[test]
fn directory_parsing_drops_malformed_lines() {
    let blob = b"a.onion:1\nbad-line\nb.onion:2\n".to_vec();
    let addrs = parse_addresses(&blob);
    assert_eq!(addrs, vec![addr("a.onion", "1"), addr("b.onion", "2")]);
}

#[test]
fn directory_parsing_edge_cases() {
    assert_eq!(parse_addresses(&Vec::new()), Vec::<MakerAddress>::new());
    assert_eq!(parse_addresses(&b"\n\n\n".to_vec()), Vec::<MakerAddress>::new());
    // Carriage returns are stripped; an empty host or port still parses.
    let addrs = parse_addresses(&b"a.onion:1\r\n:8080\nhost:\n".to_vec());
    assert_eq!(addrs, vec![addr("a.onion", "1"), addr("", "8080"), addr("host", "")]);
    // Only the first colon splits.
    let addrs = parse_addresses(&b"h:1:2".to_vec());
    assert_eq!(addrs, vec![addr("h", "1:2")]);
}

#[test]
fn host_port_joins_with_a_colon() {
    assert_eq!(addr("a.onion", "8080").host_port(), b"a.onion:8080".to_vec());
}

#[test]
fn rendezvous_target_is_fixed() {
    let a = rendezvous_target();
    assert_eq!(
        a.host_port(),
        b"kizqnaslcb2r3mbk2vm77bdff3madcvddntmaaz2htmkyuw7sgh4ddqd.onion:8080".to_vec()
    );
}

#[test]
fn client_hello_announces_version_one_to_one() {
    match client_hello() {
        TakerToMakerMessage::TakerHello(h) => {
            assert_eq!(h.protocol_version_min, 1);
            assert_eq!(h.protocol_version_max, 1);
        }
        other => panic!("unexpected message: {:?}", other),
    }
}

#[test]
fn handshake_accepts_any_peer_hello() {
    for (mn, mx) in [(1u32, 1u32), (7, 9), (0, 0)] {
        let reply = MakerToTakerMessage::MakerHello(MakerHello {
            protocol_version_min: mn,
            protocol_version_max: mx,
        });
        let st = handshake_on_reply(HandshakeState::AwaitingHello, &reply);
        assert_eq!(st, Ok(HandshakeState::Ready));
    }
}

#[test]
fn handshake_fails_on_request_offer_reply() {
    // A stream that answers the hello with a request-offer message:
    // on the wire that tag is not a peer-to-client variant, so it
    // decodes to the catch-all, and the handshake rejects it.
    let wire = encode_t2m(&TakerToMakerMessage::ReqGiveOffer);
    let reply = decode_m2t(&wire).unwrap();
    assert_eq!(reply, MakerToTakerMessage::Unknown);
    assert_eq!(
        handshake_on_reply(HandshakeState::AwaitingHello, &reply),
        Err(ProtocolError::UnexpectedMessage)
    );
}

#[test]
fn offer_reply_takes_only_offer_responses() {
    let o = small_offer(9);
    assert_eq!(offer_reply(MakerToTakerMessage::RespOffer(o.clone())), Ok(o));
    let hello = MakerToTakerMessage::MakerHello(MakerHello {
        protocol_version_min: 1,
        protocol_version_max: 1,
    });
    assert_eq!(offer_reply(hello), Err(ProtocolError::UnexpectedMessage));
    assert_eq!(
        offer_reply(MakerToTakerMessage::Unknown),
        Err(ProtocolError::UnexpectedMessage)
    );
}

#[test]
fn fan_out_keeps_exactly_the_successes() {
    // Five peers: two fail at connect, one fails at handshake, two
    // succeed — the collected result holds exactly the two offers.
    let ok1 = annotate_offer(small_offer(1), addr("p1.onion", "1"), 100);
    let ok2 = annotate_offer(small_offer(2), addr("p4.onion", "4"), 100);
    let results = vec![None, Some(ok1.clone()), None, Some(ok2.clone()), None];
    let collected = collect_successes(&results);
    assert_eq!(collected, vec![ok1, ok2]);

    assert_eq!(collect_successes(&vec![None, None]), Vec::<OfferAndAddress>::new());
}

#[test]
fn bootstrap_two_failures_then_success() {
    let mut st = new_bootstrap();
    let mut total_backoff = 0u64;
    let mut attempts = 0u32;
    let outcomes = [false, false, true];
    let mut fetched = false;
    for connected in outcomes {
        assert!(!bootstrap_exhausted(&st));
        attempts += 1;
        if connected {
            fetched = true;
            break;
        }
        total_backoff += record_failure(&mut st);
    }
    assert!(fetched);
    assert_eq!(attempts, 3);
    assert!(total_backoff >= 10);
    assert_eq!(total_backoff, 2 * BOOTSTRAP_BACKOFF_SECS);
    // The budget would still have allowed the third attempt only.
    assert_eq!(st.attempts_failed, 2);
}

#[test]
fn bootstrap_gives_up_after_three_failures() {
    let mut st = new_bootstrap();
    let mut total_backoff = 0u64;
    let mut attempts = 0u32;
    while !bootstrap_exhausted(&st) {
        attempts += 1;
        total_backoff += record_failure(&mut st);
    }
    assert_eq!(attempts, MAX_BOOTSTRAP_ATTEMPTS);
    assert_eq!(total_backoff, 15);
}

#[test]
fn two_cycles_differ_only_in_timestamps() {
    // The same peer replies, fetched in two cycles at different
    // times, yield the same offers with only the timestamps changed.
    let replies = vec![
        Some(encode_m2t(&MakerToTakerMessage::RespOffer(small_offer(1)))),
        None,
        Some(encode_m2t(&MakerToTakerMessage::RespOffer(small_offer(2)))),
    ];
    let addrs = [addr("a.onion", "1"), addr("b.onion", "2"), addr("c.onion", "3")];
    let run = |ts: u64| -> Vec<OfferAndAddress> {
        let mut results: Vec<Option<OfferAndAddress>> = Vec::new();
        for (i, reply) in replies.iter().enumerate() {
            results.push(reply.as_ref().and_then(|payload| {
                let msg = decode_m2t(payload).ok()?;
                let offer = offer_reply(msg).ok()?;
                Some(annotate_offer(offer, addrs[i].clone(), ts))
            }));
        }
        collect_successes(&results)
    };
    let first = run(1000);
    let second = run(2000);
    assert_eq!(first.len(), 2);
    assert_eq!(second.len(), 2);
    for (a, b) in first.iter().zip(second.iter()) {
        assert_eq!(a.offer, b.offer);
        assert_eq!(a.address, b.address);
        assert_eq!(a.timestamp, 1000);
        assert_eq!(b.timestamp, 2000);
    }
}

#[test]
fn publish_only_non_empty_snapshots() {
    assert!(!should_publish(0));
    assert!(should_publish(1));
    assert!(should_publish(5));
    assert_eq!(POLL_INTERVAL_SECS, 120);
}
