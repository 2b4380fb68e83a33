use std::collections::HashMap;

use chainx::hex::{hex_digit_value, parse_h256};
use chainx::network::{
    ChainXProtocol, CurrentConsensus, CHAINX_PROTOCOL_ID, IncomingMessage, Message, ProtocolAction, ReportReason,
};
use chainx::pool::{
    import_outcome, import_result, pending_transactions, BlockId, Change, Choice, PoolApi,
    PoolError, Readiness, VerifiedExtrinsic,
};
use chainx::primitives::bytes32_eq;
use chainx::runtime::{
    inherent_extrinsics, runtime_version, AccountId, Address, Call, Extrinsic, InherentData,
    SessionKeyConversion, TimestampCall, UncheckedExtrinsic, NOTE_OFFLINE_POSITION,
    TIMESTAMP_SET_POSITION,
};

fn signed_by(signed: Address) -> UncheckedExtrinsic {
    UncheckedExtrinsic::new(
        Extrinsic { signed, function: Call::Timestamp(TimestampCall::set(1)), index: 4 },
        [0u8; 64],
    )
}

fn verify_by_id(account: u8, encoded: &[u8]) -> VerifiedExtrinsic {
    let uxt = signed_by(Address::Id(AccountId([account; 32])));
    PoolApi::default()
        .verify_transaction(&BlockId::Number(0), &uxt, encoded, None)
        .ok()
        .unwrap()
}

fn key(b: u8) -> [u8; 32] {
    [b; 32]
}

fn hex32(s: &str) -> [u8; 32] {
    let mut out = [0u8; 32];
    for i in 0..32 {
        out[i] = u8::from_str_radix(&s[2 * i..2 * i + 2], 16).unwrap();
    }
    out
}

// ---- messages ----

#[test]
fn message_encodes_tag_then_key() {
    let bytes = Message::SessionKey(key(9)).encode();
    assert_eq!(bytes.len(), 33);
    assert_eq!(bytes[0], 0);
    assert!(bytes[1..].iter().all(|b| *b == 9));
}

#[test]
fn message_round_trip_with_trailing_bytes() {
    let mut bytes = Message::SessionKey(key(3)).encode();
    bytes.extend_from_slice(&[1, 2, 3]);
    match Message::decode(&bytes) {
        Some(Message::SessionKey(k)) => assert_eq!(k, key(3)),
        None => panic!("message did not decode"),
    }
}

#[test]
fn message_decode_rejects_short_or_wrong_tag() {
    assert!(Message::decode(&[]).is_none());
    assert!(Message::decode(&[0u8; 32]).is_none());
    let mut wrong = vec![1u8];
    wrong.extend_from_slice(&key(4));
    assert!(Message::decode(&wrong).is_none());
}

// ---- protocol ----

#[test]
fn protocol_id_is_pcx() {
    assert_eq!(&CHAINX_PROTOCOL_ID, b"pcx");
}

#[test]
fn new_protocol_is_empty() {
    let p = ChainXProtocol::new();
    assert!(p.peer(0).is_none());
    assert!(p.validator(&key(1)).is_none());
    assert!(p.live_consensus().is_none());
    assert_eq!(p.status(), vec![0u8, 0u8]);
}

#[test]
fn connect_records_role() {
    let mut p = ChainXProtocol::new();
    p.on_connect(1, true);
    p.on_connect(2, false);
    let a = p.peer(1).unwrap();
    assert!(a.claimed_validator);
    assert!(a.validator_key.is_none());
    assert!(!p.peer(2).unwrap().claimed_validator);
}

#[test]
fn authority_session_key_is_indexed() {
    let mut p = ChainXProtocol::new();
    p.on_connect(7, true);
    assert_eq!(p.on_session_key(7, key(5)), ProtocolAction::Nothing);
    assert_eq!(p.validator(&key(5)), Some(7));
    assert_eq!(p.peer(7).unwrap().validator_key, Some(key(5)));
}

#[test]
fn second_session_key_replaces_first() {
    let mut p = ChainXProtocol::new();
    p.on_connect(7, true);
    p.on_session_key(7, key(5));
    p.on_session_key(7, key(6));
    assert_eq!(p.validator(&key(5)), None);
    assert_eq!(p.validator(&key(6)), Some(7));
}

#[test]
fn same_session_key_twice_is_kept() {
    let mut p = ChainXProtocol::new();
    p.on_connect(7, true);
    p.on_session_key(7, key(5));
    p.on_session_key(7, key(5));
    assert_eq!(p.validator(&key(5)), Some(7));
}

#[test]
fn non_authority_session_key_is_reported() {
    let mut p = ChainXProtocol::new();
    p.on_connect(3, false);
    assert_eq!(
        p.on_session_key(3, key(1)),
        ProtocolAction::ReportPeer(3, ReportReason::SessionKeyWithoutAuthority)
    );
    assert!(p.validator(&key(1)).is_none());
    assert!(p.peer(3).unwrap().validator_key.is_none());
}

#[test]
fn unknown_peer_session_key_is_ignored() {
    let mut p = ChainXProtocol::new();
    assert_eq!(p.on_session_key(4, key(1)), ProtocolAction::Nothing);
    assert!(p.validator(&key(1)).is_none());
    assert!(p.peer(4).is_none());
}

#[test]
fn disconnect_forgets_peer_and_key() {
    let mut p = ChainXProtocol::new();
    p.on_connect(1, true);
    p.on_session_key(1, key(8));
    assert!(p.on_disconnect(1));
    assert!(p.peer(1).is_none());
    assert!(p.validator(&key(8)).is_none());
    assert!(!p.on_disconnect(1));
}

#[test]
fn connect_then_disconnect_keeps_other_keys() {
    let mut p = ChainXProtocol::new();
    p.on_connect(1, true);
    p.on_session_key(1, key(8));
    p.on_connect(2, true);
    assert!(p.on_disconnect(2));
    assert_eq!(p.validator(&key(8)), Some(1));
    assert!(p.peer(2).is_none());
}

#[test]
fn chain_specific_session_key_message() {
    let mut p = ChainXProtocol::new();
    p.on_connect(9, true);
    let raw = Message::SessionKey(key(2)).encode();
    assert_eq!(p.on_message(9, IncomingMessage::ChainSpecific(raw)), ProtocolAction::Nothing);
    assert_eq!(p.validator(&key(2)), Some(9));
}

#[test]
fn invalid_chain_specific_message_is_reported() {
    let mut p = ChainXProtocol::new();
    p.on_connect(9, true);
    assert_eq!(
        p.on_message(9, IncomingMessage::ChainSpecific(vec![5, 6])),
        ProtocolAction::ReportPeer(9, ReportReason::InvalidMessageFormat)
    );
}

#[test]
fn bft_and_other_messages() {
    let mut p = ChainXProtocol::new();
    assert_eq!(p.on_message(1, IncomingMessage::Bft), ProtocolAction::ForwardBft);
    assert_eq!(p.on_message(1, IncomingMessage::Other), ProtocolAction::Nothing);
}

#[test]
fn new_consensus_returns_previous_parent() {
    let mut p = ChainXProtocol::new();
    let first = CurrentConsensus { parent_hash: key(1), local_session_key: key(2) };
    let second = CurrentConsensus { parent_hash: key(3), local_session_key: key(4) };
    assert_eq!(p.new_consensus(first), None);
    assert_eq!(p.new_consensus(second), Some(key(1)));
    assert_eq!(p.live_consensus().unwrap().parent_hash, key(3));
}

#[test]
fn report_reason_texts() {
    assert_eq!(
        ReportReason::SessionKeyWithoutAuthority.description(),
        "Session key broadcasted without setting authority role"
    );
    assert_eq!(
        ReportReason::InvalidMessageFormat.description(),
        "Invalid chainx protocol message format"
    );
}

// ---- pool ----

#[test]
fn verify_transaction_hashes_encoding() {
    let v = verify_by_id(0x11, b"abc");
    let expected = hex32("bddd813c634239723171ef3fee98579b94964e3bb1cb3e427262c8c068d52319");
    assert_eq!(*v.hash(), expected);
    assert_eq!(v.encoded_size(), 3);
    assert_eq!(v.mem_usage(), 3);
}

#[test]
fn verify_transaction_sender_is_signing_account() {
    let v = verify_by_id(0x11, b"abc");
    assert_eq!(v.sender(), Some(key(0x11)));
}

#[test]
fn verify_transaction_index_signer_uses_looked_up_account() {
    let uxt = signed_by(Address::Index(5));
    let v = PoolApi::default()
        .verify_transaction(&BlockId::Number(0), &uxt, b"abc", Some(AccountId(key(0x22))))
        .ok()
        .unwrap();
    assert_eq!(v.sender(), Some(key(0x22)));
}

#[test]
fn verify_transaction_unknown_index_signer_is_taken_without_sender() {
    let uxt = signed_by(Address::Index(5));
    let v = PoolApi::default()
        .verify_transaction(&BlockId::Number(0), &uxt, b"abc", None)
        .ok()
        .unwrap();
    assert_eq!(v.sender(), None);
    let expected = hex32("bddd813c634239723171ef3fee98579b94964e3bb1cb3e427262c8c068d52319");
    assert_eq!(*v.hash(), expected);
    assert_eq!(v.encoded_size(), 3);
}

#[test]
fn verify_transaction_of_empty_encoding() {
    let v = verify_by_id(0, &[]);
    let expected = hex32("0e5751c026e543b2e8ab2eb06099daa1d1e5df47778f7787faab45cdf12fe3a8");
    assert_eq!(*v.hash(), expected);
    assert_eq!(v.encoded_size(), 0);
}

#[test]
fn scoring_is_neutral() {
    let a = verify_by_id(1, b"a");
    let b = verify_by_id(2, b"b");
    assert_eq!(PoolApi::compare(&a, &b), std::cmp::Ordering::Equal);
    assert_eq!(PoolApi::choose_between(&a, &b), Choice::InsertNew);
    assert_eq!(PoolApi::should_replace(&a, &b), Choice::InsertNew);
    let mut scores = vec![4u64, 5, 6];
    PoolApi::update_scores(&[a, b], &mut scores, Change::InsertedAt(1));
    assert_eq!(scores, vec![4u64, 5, 6]);
}

#[test]
fn readiness_is_always_ready() {
    let api = PoolApi::default();
    let mut cache = api.ready();
    assert!(cache.is_empty());
    cache.insert(key(1), 3);
    let x = verify_by_id(3, b"x");
    assert_eq!(api.is_ready(&BlockId::Number(0), &mut cache, &x), Readiness::Ready);
    let mut expected = HashMap::new();
    expected.insert(key(1), 3u64);
    assert_eq!(cache, expected);
}

// ---- import ----

#[test]
fn import_result_of_new_extrinsic() {
    assert_eq!(import_result(Ok(key(6))), Some(key(6)));
}

#[test]
fn import_result_of_known_extrinsic() {
    let text = "0x0e5751c026e543b2e8ab2eb06099daa1d1e5df47778f7787faab45cdf12fe3a8".to_string();
    let expected = hex32("0e5751c026e543b2e8ab2eb06099daa1d1e5df47778f7787faab45cdf12fe3a8");
    assert_eq!(import_result(Err(PoolError::AlreadyImported(text))), Some(expected));
}

#[test]
fn import_result_of_rejected_extrinsic() {
    assert_eq!(import_result(Err(PoolError::Other)), None);
}

#[test]
fn import_outcome_when_not_submitted() {
    assert_eq!(import_outcome(None), None);
    assert_eq!(import_outcome(Some(Ok(key(2)))), Some(key(2)));
    assert_eq!(import_outcome(Some(Err(PoolError::Other))), None);
}

#[test]
fn pending_transactions_cases() {
    let listed = vec![(key(1), 10u32), (key(2), 20u32)];
    assert_eq!(pending_transactions(Some(Ok(listed.clone()))), listed);
    assert_eq!(pending_transactions::<u32>(Some(Err(PoolError::Other))), vec![]);
    assert_eq!(pending_transactions::<u32>(None), vec![]);
}

// ---- hash text ----

#[test]
fn parse_hash_with_and_without_prefix() {
    let body = "BDDD813C634239723171EF3FEE98579B94964E3BB1CB3E427262C8C068D52319";
    let expected = hex32("bddd813c634239723171ef3fee98579b94964e3bb1cb3e427262c8c068d52319");
    assert_eq!(parse_h256(body), Some(expected));
    assert_eq!(parse_h256(&format!("0x{}", body.to_lowercase())), Some(expected));
}

#[test]
fn parse_hash_rejects_bad_text() {
    assert_eq!(parse_h256(""), None);
    assert_eq!(parse_h256("0x12"), None);
    let bad = "zz5751c026e543b2e8ab2eb06099daa1d1e5df47778f7787faab45cdf12fe3a8";
    assert_eq!(parse_h256(bad), None);
    let long = "0e5751c026e543b2e8ab2eb06099daa1d1e5df47778f7787faab45cdf12fe3a800";
    assert_eq!(parse_h256(long), None);
}

#[test]
fn hex_digit_values() {
    assert_eq!(hex_digit_value('0'), Some(0));
    assert_eq!(hex_digit_value('9'), Some(9));
    assert_eq!(hex_digit_value('a'), Some(10));
    assert_eq!(hex_digit_value('F'), Some(15));
    assert_eq!(hex_digit_value('g'), None);
    assert_eq!(hex_digit_value('x'), None);
}

#[test]
fn bytes32_equality() {
    assert!(bytes32_eq(&key(1), &key(1)));
    let mut other = key(1);
    other[31] = 2;
    assert!(!bytes32_eq(&key(1), &other));
}

// ---- runtime ----

#[test]
fn inherent_extrinsics_set_timestamp() {
    let xts = inherent_extrinsics(InherentData { timestamp: 1_540_000_000 });
    assert_eq!(xts.len(), 1);
    let xt = &xts[TIMESTAMP_SET_POSITION as usize];
    assert_eq!(xt.extrinsic.function, Call::Timestamp(TimestampCall::set(1_540_000_000)));
    assert_eq!(xt.extrinsic.index, 0);
    match xt.extrinsic.signed {
        Address::Id(a) => assert_eq!(a.0, [0u8; 32]),
        Address::Index(_) => panic!("inherent signed by an index"),
    }
    assert!(xt.signature.iter().all(|b| *b == 0));
}

#[test]
fn positions_and_version() {
    assert_eq!(TIMESTAMP_SET_POSITION, 0);
    assert_eq!(NOTE_OFFLINE_POSITION, 2);
    let v = runtime_version();
    assert_eq!(v.spec_name, "chainx");
    assert_eq!(v.impl_name, "chainpool-chainx");
    assert_eq!((v.authoring_version, v.spec_version, v.impl_version), (1, 1, 0));
}

#[test]
fn session_key_of_account_is_its_key() {
    assert_eq!(SessionKeyConversion::convert(AccountId(key(0xab))), key(0xab));
}
