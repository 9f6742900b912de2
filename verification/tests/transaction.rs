use libp2p::identity::Keypair;
use peer_node::block::{Transaction, TransactionError};
use peer_node::comms::message::Message;

#[test]
fn build_signs_and_binds_the_signature() {
    let kp = Keypair::generate_ed25519();
    let payload = Message::Comms("a chat line".to_string());
    let t = Transaction::build(kp, payload.clone()).expect("an ed25519 keypair signs");
    let sig = t.signature().clone().expect("the resulting signature is bound");
    assert!(!sig.is_empty());
    // the bound signature is the hexadecimal form of the signer's bytes
    assert!(sig.len() % 2 == 0);
    assert!(sig.chars().all(|c| c.is_ascii_hexdigit()));
    assert!(t.timestamp() >= 0);
    assert_eq!(t.envelope().transaction_id().chars().count(), 36);
    assert_eq!(t.envelope().payload(), &payload);
}

#[test]
fn hash_is_deterministic_across_calls() {
    let kp = Keypair::generate_ed25519();
    let t = Transaction::build(kp, Message::Comms("same content".to_string()))
        .expect("an ed25519 keypair signs");
    let h1 = t.to_hash().expect("hashing cannot fail");
    let h2 = t.to_hash().expect("hashing cannot fail");
    assert_eq!(h1, h2);
    let h3 = t.clone().to_hash().expect("hashing cannot fail");
    assert_eq!(h1, h3);
    assert_eq!(h1.len(), 64);
}

#[test]
fn hash_depends_on_the_content() {
    let kp1 = Keypair::generate_ed25519();
    let kp2 = Keypair::generate_ed25519();
    let t1 = Transaction::build(kp1, Message::Comms("one".to_string())).unwrap();
    let t2 = Transaction::build(kp2, Message::Comms("two".to_string())).unwrap();
    let h1 = t1.to_hash().unwrap();
    let h2 = t2.to_hash().unwrap();
    assert_ne!(h1, h2);
}

#[test]
fn signing_twice_does_not_change_the_payload() {
    let kp = Keypair::generate_ed25519();
    let payload = Message::Comms("sign me".to_string());
    let s1 = payload.sign(&kp).expect("an ed25519 keypair signs");
    let s2 = payload.sign(&kp).expect("signing again also succeeds");
    assert!(!s1.is_empty());
    assert!(!s2.is_empty());
    assert_eq!(payload.to_display_string(), "sign me");
    assert_eq!(payload, Message::Comms("sign me".to_string()));
}

/// An unsigned transaction assembled from fixed canonical bytes:
/// timestamp 7, envelope id "ab", payload "ok".
fn unsigned_transaction() -> Transaction {
    let mut bytes: Vec<u8> = Vec::new();
    bytes.push(0); // no signature yet
    bytes.extend_from_slice(&[7, 0, 0, 0, 0, 0, 0, 0]); // timestamp 7
    bytes.extend_from_slice(&[2, 0, 0, 0, 0, 0, 0, 0]); // id length
    bytes.extend_from_slice(b"ab");
    bytes.push(0); // payload: a plain chat line
    bytes.extend_from_slice(&[2, 0, 0, 0, 0, 0, 0, 0]); // text length
    bytes.extend_from_slice(b"ok");
    Transaction::decode(&bytes).expect("the fixed bytes are one canonical transaction")
}

#[test]
fn attaching_a_signature_preserves_the_envelope() {
    let t = unsigned_transaction();
    assert!(t.signature().is_none());
    let signed = t.with_signature("0011aabb".to_string());
    assert_eq!(signed.signature().as_deref(), Some("0011aabb"));
    assert_eq!(signed.timestamp(), 7);
    assert_eq!(signed.envelope().transaction_id().as_str(), "ab");
    assert_eq!(signed.envelope().payload(), &Message::Comms("ok".to_string()));
}

#[test]
fn a_built_transaction_roundtrips_signed() {
    let kp = Keypair::generate_ed25519();
    let t = Transaction::build(kp, Message::Comms("wire me".to_string())).unwrap();
    let hex = t.to_hex().unwrap();
    let back = Transaction::from_hex(&hex).unwrap();
    assert_eq!(back, t);
    assert!(back.signature().is_some());
    assert_eq!(
        back.envelope().payload(),
        &Message::Comms("wire me".to_string())
    );
}

#[test]
fn display_text_descends_through_nesting() {
    let m = Message::Transaction(Box::new(Message::Comms("inner".to_string())));
    assert_eq!(m.to_display_string(), "inner");
}

#[test]
fn submit_fails_explicitly() {
    let m = Message::Comms("anything".to_string());
    match m._submit() {
        Err(TransactionError::SubmissionUnimplemented) => {}
        other => panic!("submission must fail explicitly, got {:?}", other),
    }
}

#[test]
fn from_string_wraps_as_comms() {
    let m = Message::from("typed line".to_string());
    assert_eq!(m, Message::Comms("typed line".to_string()));
}
