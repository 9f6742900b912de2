use peer_node::block::{Transaction, TransactionData, TransactionError};
use peer_node::comms::message::Message;

#[test]
fn message_encoding_has_the_documented_shape() {
    let m = Message::Comms("A".to_string());
    let bytes = m.encode();
    // tag 0, then the byte length 1 as eight little-endian bytes, then 'A'
    assert_eq!(bytes, vec![0u8, 1, 0, 0, 0, 0, 0, 0, 0, 65]);
}

#[test]
fn nested_message_encoding_prefixes_a_tag() {
    let m = Message::Transaction(Box::new(Message::Comms("A".to_string())));
    let bytes = m.encode();
    assert_eq!(bytes, vec![1u8, 0, 1, 0, 0, 0, 0, 0, 0, 0, 65]);
}

#[test]
fn message_roundtrip_plain() {
    let m = Message::Comms("hello world".to_string());
    let bytes = m.encode();
    let back = Message::decode(&bytes).expect("a canonical encoding must decode");
    assert_eq!(back, m);
}

#[test]
fn message_roundtrip_nested() {
    let m = Message::Transaction(Box::new(Message::Comms("payload".to_string())));
    let bytes = m.encode();
    let back = Message::decode(&bytes).expect("a canonical encoding must decode");
    assert_eq!(back, m);
}

#[test]
fn message_roundtrip_unicode() {
    let m = Message::Comms("héllo ✓ мир".to_string());
    let bytes = m.encode();
    let back = Message::decode(&bytes).expect("a canonical encoding must decode");
    assert_eq!(back, m);
}

#[test]
fn message_decode_rejects_trailing_bytes() {
    let m = Message::Comms("x".to_string());
    let mut bytes = m.encode();
    bytes.push(0);
    assert!(Message::decode(&bytes).is_none());
}

#[test]
fn message_decode_rejects_empty_and_bad_tag() {
    assert!(Message::decode(&Vec::new()).is_none());
    assert!(Message::decode(&vec![9u8, 0, 0]).is_none());
}

#[test]
fn envelope_roundtrip() {
    let env = TransactionData::new(
        "01234567-89ab-cdef-0123-456789abcdef".to_string(),
        Message::Comms("chat line".to_string()),
    );
    let bytes = env.encode();
    let back = TransactionData::decode(&bytes).expect("a canonical encoding must decode");
    assert_eq!(back.transaction_id(), env.transaction_id());
    assert_eq!(back.payload(), env.payload());
}

/// A transaction assembled from fixed canonical bytes: no signature,
/// timestamp 5, envelope id "id", payload "hi".
fn fixed_transaction() -> Transaction {
    let mut bytes: Vec<u8> = Vec::new();
    bytes.push(0); // no signature
    bytes.extend_from_slice(&[5, 0, 0, 0, 0, 0, 0, 0]); // timestamp 5
    bytes.extend_from_slice(&[2, 0, 0, 0, 0, 0, 0, 0]); // id length
    bytes.extend_from_slice(b"id");
    bytes.push(0); // payload: a plain chat line
    bytes.extend_from_slice(&[2, 0, 0, 0, 0, 0, 0, 0]); // text length
    bytes.extend_from_slice(b"hi");
    Transaction::decode(&bytes).expect("the fixed bytes are one canonical transaction")
}

#[test]
fn transaction_decode_reads_the_fixed_bytes() {
    let t = fixed_transaction();
    assert!(t.signature().is_none());
    assert_eq!(t.timestamp(), 5);
    assert_eq!(t.envelope().transaction_id().as_str(), "id");
    assert_eq!(t.envelope().payload(), &Message::Comms("hi".to_string()));
}

#[test]
fn transaction_to_hex_is_the_hex_of_the_canonical_bytes() {
    let t = fixed_transaction();
    let hex = t.to_hex().expect("encoding cannot fail");
    assert_eq!(
        hex,
        "000500000000000000020000000000000069640002000000000000006869"
    );
}

#[test]
fn transaction_hex_roundtrip() {
    let t = fixed_transaction();
    let hex = t.to_hex().expect("encoding cannot fail");
    let back = Transaction::from_hex(&hex).expect("the hex form must decode");
    assert_eq!(back, t);
}

#[test]
fn from_hex_rejects_odd_length_and_bad_digits() {
    match Transaction::from_hex("abc") {
        Err(TransactionError::UnableToDeserializeTransaction(_)) => {}
        other => panic!("expected a deserialization error, got {:?}", other),
    }
    match Transaction::from_hex("zz") {
        Err(TransactionError::UnableToDeserializeTransaction(_)) => {}
        other => panic!("expected a deserialization error, got {:?}", other),
    }
}

#[test]
fn from_hex_rejects_bytes_that_are_no_transaction() {
    match Transaction::from_hex("ff00") {
        Err(TransactionError::UnableToDeserializeTransaction(_)) => {}
        other => panic!("expected a deserialization error, got {:?}", other),
    }
}

#[test]
fn from_hex_accepts_uppercase_digits() {
    let t = fixed_transaction();
    let hex = t.to_hex().expect("encoding cannot fail").to_uppercase();
    let back = Transaction::from_hex(&hex).expect("either case decodes");
    assert_eq!(back, t);
}
