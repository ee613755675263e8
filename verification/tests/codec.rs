use offerbook::codec::{
    decode_dir, decode_dns, decode_m2t, decode_t2m, encode_dns, encode_m2t, encode_t2m,
    frame_msg, payload_len, read_msg,
};
use offerbook::keys::{lit_get, lit_reqgiveoffer, lit_respoffer, lit_takerhello, lit_txid};
use offerbook::messages::{
    DnsRequest, FidelityBond, FidelityProof, MakerHello, MakerToTakerMessage, Offer, OutPoint,
    TakerHello, TakerToMakerMessage,
};
use offerbook::wire::{enc_bytes_x, enc_null_x, enc_text_x, map_head_x, to_hex};
use offerbook::ProtocolError;

fn sample_offer(txid: &str) -> Offer {
    Offer {
        base_fee: 250,
        amount_relative_fee_pct_bits: 0.1f64.to_bits(),
        time_relative_fee_pct_bits: 0.005f64.to_bits(),
        min_size: 10_000,
        max_size: 1_000_000,
        required_confirms: 1,
        minimum_locktime: 20,
        fidelity: FidelityProof {
            bond: FidelityBond {
                outpoint: OutPoint { txid: txid.as_bytes().to_vec(), vout: 7 },
                amount: 5_000_000,
                lock_time: 800_000,
                pubkey: vec![2u8; 33],
                conf_height: 790_123,
                cert_expiry: 60,
            },
            cert_hash: vec![0xaa; 32],
            cert_sig: vec![0xbb; 64],
        },
        tweakable_point: vec![3u8; 33],
    }
}

#[test]
fn roundtrip_taker_hello() {
    let m = TakerToMakerMessage::TakerHello(TakerHello {
        protocol_version_min: 1,
        protocol_version_max: 1,
    });
    let bytes = encode_t2m(&m);
    assert_eq!(decode_t2m(&bytes), Ok(m));
}

#[test]
fn roundtrip_req_give_offer() {
    let m = TakerToMakerMessage::ReqGiveOffer;
    let bytes = encode_t2m(&m);
    assert_eq!(decode_t2m(&bytes), Ok(m));
}

#[test]
fn roundtrip_maker_hello() {
    let m = MakerToTakerMessage::MakerHello(MakerHello {
        protocol_version_min: 1,
        protocol_version_max: 1,
    });
    let bytes = encode_m2t(&m);
    assert_eq!(decode_m2t(&bytes), Ok(m));
}

#[test]
fn roundtrip_resp_offer() {
    let m = MakerToTakerMessage::RespOffer(sample_offer("abcd1234"));
    let bytes = encode_m2t(&m);
    assert_eq!(decode_m2t(&bytes), Ok(m));
}

#[test]
fn roundtrip_unknown() {
    let m = MakerToTakerMessage::Unknown;
    let bytes = encode_m2t(&m);
    assert_eq!(decode_m2t(&bytes), Ok(m));
}

#[test]
fn roundtrip_dns_request() {
    let bytes = encode_dns(&DnsRequest::Get);
    assert_eq!(bytes, lit_get());
    assert_eq!(decode_dns(&bytes), Ok(DnsRequest::Get));
}

#[test]
fn taker_hello_exact_wire_bytes() {
    let m = TakerToMakerMessage::TakerHello(TakerHello {
        protocol_version_min: 1,
        protocol_version_max: 1,
    });
    let mut expected: Vec<u8> = vec![0xa1];
    expected.extend_from_slice(&lit_takerhello());
    expected.push(0xa2);
    expected.push(0x74);
    expected.extend_from_slice(b"protocol_version_min");
    expected.push(0x01);
    expected.push(0x74);
    expected.extend_from_slice(b"protocol_version_max");
    expected.push(0x01);
    assert_eq!(encode_t2m(&m), expected);
}

#[test]
fn req_give_offer_exact_wire_bytes() {
    let mut expected: Vec<u8> = vec![0xa1];
    expected.extend_from_slice(&lit_reqgiveoffer());
    expected.push(0xf6);
    assert_eq!(encode_t2m(&TakerToMakerMessage::ReqGiveOffer), expected);
}

#[test]
fn unknown_tag_in_map_decodes_to_catch_all() {
    let mut payload: Vec<u8> = Vec::new();
    map_head_x(&mut payload, 1);
    let tag = b"NewFancyMessage".to_vec();
    enc_text_x(&mut payload, &tag);
    payload.extend_from_slice(&[0x01, 0x02, 0x03]);
    assert_eq!(decode_m2t(&payload), Ok(MakerToTakerMessage::Unknown));
}

#[test]
fn unknown_bare_text_decodes_to_catch_all() {
    let mut payload: Vec<u8> = Vec::new();
    let tag = b"Ping".to_vec();
    enc_text_x(&mut payload, &tag);
    assert_eq!(decode_m2t(&payload), Ok(MakerToTakerMessage::Unknown));
}

#[test]
fn garbage_payload_is_a_decode_error() {
    let payload = vec![0x1f, 0x00, 0xff];
    assert_eq!(decode_m2t(&payload), Err(ProtocolError::Decode));
}

#[test]
fn truncated_offer_is_a_decode_error() {
    let m = MakerToTakerMessage::RespOffer(sample_offer("abcd"));
    let mut bytes = encode_m2t(&m);
    bytes.truncate(bytes.len() - 5);
    assert_eq!(decode_m2t(&bytes), Err(ProtocolError::Decode));
}

/// The transaction id sent as raw bytes `[0xAB, 0xCD]` decodes to the
/// hex text `abcd`; sent as the text `abcd` it decodes the same.
#[test]
fn txid_raw_bytes_and_text_converge() {
    // Build the canonical RespOffer payload for txid "abcd" ...
    let text_form = encode_m2t(&MakerToTakerMessage::RespOffer(sample_offer("abcd")));

    // ... and the variant where the outpoint's txid item is the raw
    // byte string [0xAB, 0xCD] instead of the 4-char hex text.
    let mut txid_as_text: Vec<u8> = Vec::new();
    enc_text_x(&mut txid_as_text, &b"abcd".to_vec());
    let mut txid_as_bytes: Vec<u8> = Vec::new();
    enc_bytes_x(&mut txid_as_bytes, &vec![0xab, 0xcd]);

    let mut marker: Vec<u8> = lit_txid();
    marker.extend_from_slice(&txid_as_text);
    let pos = text_form
        .windows(marker.len())
        .position(|w| w == &marker[..])
        .expect("txid item not found");
    let mut bytes_form = text_form[..pos + lit_txid().len()].to_vec();
    bytes_form.extend_from_slice(&txid_as_bytes);
    bytes_form.extend_from_slice(&text_form[pos + marker.len()..]);

    let decoded_text = decode_m2t(&text_form).unwrap();
    let decoded_bytes = decode_m2t(&bytes_form).unwrap();
    assert_eq!(decoded_text, decoded_bytes);
    match decoded_bytes {
        MakerToTakerMessage::RespOffer(o) => {
            assert_eq!(o.fidelity.bond.outpoint.txid, b"abcd".to_vec());
        }
        other => panic!("unexpected message: {:?}", other),
    }
}

#[test]
fn to_hex_lowercase() {
    assert_eq!(to_hex(&vec![0xab, 0xcd]), b"abcd".to_vec());
    assert_eq!(to_hex(&vec![0x00, 0x0f, 0x10, 0xff]), b"000f10ff".to_vec());
    assert_eq!(to_hex(&vec![]), Vec::<u8>::new());
}

#[test]
fn frame_roundtrip() {
    let payload = vec![1u8, 2, 3, 4, 5];
    let framed = frame_msg(&payload);
    assert_eq!(&framed[..4], &[0, 0, 0, 5]);
    assert_eq!(read_msg(&framed), Ok(payload));
}

#[test]
fn frame_prefix_length_is_big_endian() {
    let payload = vec![0u8; 300];
    let framed = frame_msg(&payload);
    assert_eq!(&framed[..4], &[0, 0, 0x01, 0x2c]);
    assert_eq!(payload_len(&framed[..4].to_vec()), 300);
}

#[test]
fn short_or_mismatched_frame_is_an_error() {
    assert_eq!(read_msg(&vec![0, 0, 0]), Err(ProtocolError::Decode));
    assert_eq!(read_msg(&vec![0, 0, 0, 9, 1, 2]), Err(ProtocolError::Decode));
}

#[test]
fn directory_response_roundtrip() {
    let blob = b"a.onion:1\nb.onion:2\n".to_vec();
    let mut payload: Vec<u8> = Vec::new();
    enc_text_x(&mut payload, &blob);
    assert_eq!(decode_dir(&payload), Ok(blob));
}

#[test]
fn directory_payload_with_trailing_junk_is_an_error() {
    let mut payload: Vec<u8> = Vec::new();
    enc_text_x(&mut payload, &b"x:1".to_vec());
    payload.push(0);
    assert_eq!(decode_dir(&payload), Err(ProtocolError::Decode));
}

#[test]
fn known_tag_with_wrong_shape_is_an_error() {
    // A recognized tag in bare-text position is not the catch-all:
    // the variant's payload is missing, so decoding fails.
    let mut payload: Vec<u8> = Vec::new();
    enc_text_x(&mut payload, &b"MakerHello".to_vec());
    assert_eq!(decode_m2t(&payload), Err(ProtocolError::Decode));
}

#[test]
fn resp_offer_tag_with_null_payload_is_an_error() {
    let mut payload: Vec<u8> = Vec::new();
    map_head_x(&mut payload, 1);
    let mut tag = lit_respoffer();
    payload.append(&mut tag);
    enc_null_x(&mut payload);
    assert_eq!(decode_m2t(&payload), Err(ProtocolError::Decode));
}
