use vstd::prelude::*;
use crate::codec::{
    dec_str, dec_u64, enc_str_into, enc_u64_into, hex_decode, hex_encode, spec_dec_str,
    spec_dec_u64, spec_enc_str, spec_enc_u64, spec_hex_decode, spec_hex_of, str_fits,
};
use crate::comms::message::{
    lemma_dec_enc_message, msg_fits, spec_dec_message, spec_enc_message, Message, MessageView,
};
use crate::utils::UnixTimestamp;
use vstd::string::StringSliceAdditionalSpecFns;

verus! {

/// The digest of a transaction's canonical serialization.
pub type TransactionHash = String;

/// The digest of a block's canonical serialization.
pub type BlockHash = String;

/// What can go wrong around a transaction: serialization and signing
/// failures are distinct and must never be conflated, and submission to
/// the network is reserved and fails explicitly.
#[derive(Debug, Clone)]
pub enum TransactionError {
    UnableToSerializeTransaction(String),
    UnableToDeserializeTransaction(String),
    SigningError(String),
    SubmissionUnimplemented,
}

/// Represents a block.
pub struct Block {
    pub header: BlockHeader,
    pub transactions: Vec<Transaction>,
}

/// Represents the header of a block.
#[derive(Debug, Clone)]
pub struct BlockHeader {
    pub previous_block_hash: BlockHash,
    pub timestamp: UnixTimestamp,
    pub nonce: String,
    pub transaction_hash: TransactionHash,
}

/// A payload envelope: a globally unique identifier and the payload it
/// wraps.
#[derive(Debug)]
pub struct TransactionData {
    transaction_id: String,
    payload: Message,
}

impl PartialEq for TransactionData {
    /// Two envelopes are equal when their mathematical shapes are.
    fn eq(&self, other: &Self) -> (r: bool)
    {
        let r = self.transaction_id == other.transaction_id && self.payload == other.payload;
        proof {
            if self@.transaction_id == other@.transaction_id && self@.payload == other@.payload {
                assert(self@ == other@);
            }
        }
        r
    }
}

impl vstd::std_specs::cmp::PartialEqSpecImpl for TransactionData {
    open spec fn obeys_eq_spec() -> bool {
        true
    }

    open spec fn eq_spec(&self, other: &Self) -> bool {
        self@ == other@
    }
}

impl Clone for TransactionData {
    /// A clone has the same mathematical shape as the original.
    fn clone(&self) -> (r: Self)
        ensures
            r@ == self@,
    {
        TransactionData {
            transaction_id: self.transaction_id.clone(),
            payload: self.payload.clone(),
        }
    }
}

/// The mathematical shape of a payload envelope.
pub struct TransactionDataView {
    pub transaction_id: Seq<char>,
    pub payload: MessageView,
}

impl View for TransactionData {
    type V = TransactionDataView;

    closed spec fn view(&self) -> TransactionDataView {
        TransactionDataView { transaction_id: self.transaction_id@, payload: self.payload@ }
    }
}

/// A transaction: an optional signature, a creation timestamp in
/// milliseconds since the Unix epoch, and the payload envelope. Immutable
/// after construction except for the one-time attachment of a signature.
#[derive(Debug)]
pub struct Transaction {
    signature: Option<String>,
    timestamp: UnixTimestamp,
    transaction: TransactionData,
}

impl PartialEq for Transaction {
    /// Two transactions are equal when their mathematical shapes are.
    fn eq(&self, other: &Self) -> (r: bool)
    {
        let sig_eq = match (&self.signature, &other.signature) {
            (None, None) => true,
            (Some(a), Some(b)) => a.eq(b),
            _ => false,
        };
        let r = sig_eq && self.timestamp == other.timestamp && self.transaction
            == other.transaction;
        proof {
            if self@.signature == other@.signature && self@.timestamp == other@.timestamp
                && self@.transaction == other@.transaction {
                assert(self@ =~= other@);
            }
        }
        r
    }
}

impl vstd::std_specs::cmp::PartialEqSpecImpl for Transaction {
    open spec fn obeys_eq_spec() -> bool {
        true
    }

    open spec fn eq_spec(&self, other: &Self) -> bool {
        self@ == other@
    }
}

impl Clone for Transaction {
    /// A clone has the same mathematical shape as the original.
    fn clone(&self) -> (r: Self)
        ensures
            r@ == self@,
    {
        proof {
            use_type_invariant(self);
        }
        let r = Transaction {
            signature: match &self.signature {
                None => None,
                Some(s) => Some(s.clone()),
            },
            timestamp: self.timestamp,
            transaction: self.transaction.clone(),
        };
        proof {
            assert(r@ =~= self@);
        }
        r
    }
}

/// The mathematical shape of a transaction.
pub struct TransactionView {
    pub signature: Option<Seq<char>>,
    pub timestamp: UnixTimestamp,
    pub transaction: TransactionDataView,
}

impl View for Transaction {
    type V = TransactionView;

    closed spec fn view(&self) -> TransactionView {
        TransactionView {
            signature: match self.signature {
                None => None,
                Some(ref s) => Some(s@),
            },
            timestamp: self.timestamp,
            transaction: self.transaction@,
        }
    }
}

// === canonical serialization of envelopes and transactions ===

/// The canonical encoding of a payload envelope: the identifier, then the
/// payload.
pub open spec fn spec_enc_envelope(v: TransactionDataView) -> Seq<u8> {
    spec_enc_str(v.transaction_id) + spec_enc_message(v.payload)
}

/// Whether every string in the envelope fits its length prefix; true of
/// every envelope that fits in memory.
pub open spec fn envelope_fits(v: TransactionDataView) -> bool {
    str_fits(v.transaction_id) && msg_fits(v.payload)
}

/// Reading a payload envelope back from the front of `b`.
pub open spec fn spec_dec_envelope(b: Seq<u8>) -> Option<(TransactionDataView, int)> {
    match spec_dec_str(b) {
        None => None,
        Some((id, c1)) => match spec_dec_message(b.skip(c1)) {
            None => None,
            Some((m, c2)) => Some(
                (TransactionDataView { transaction_id: id, payload: m }, c1 + c2),
            ),
        },
    }
}

/// The canonical encoding of the optional signature: an absence tag, or a
/// presence tag and the signature text.
pub open spec fn spec_enc_sig(sig: Option<Seq<char>>) -> Seq<u8> {
    match sig {
        None => seq![0u8],
        Some(s) => seq![1u8] + spec_enc_str(s),
    }
}

/// Reading the optional signature back from the front of `b`.
pub open spec fn spec_dec_sig(b: Seq<u8>) -> Option<(Option<Seq<char>>, int)> {
    if b.len() < 1 {
        None
    } else if b[0] == 0u8 {
        Some((None, 1int))
    } else if b[0] == 1u8 {
        match spec_dec_str(b.skip(1)) {
            None => None,
            Some((s, c)) => Some((Some(s), 1 + c)),
        }
    } else {
        None
    }
}

/// The canonical encoding of a transaction: signature, timestamp,
/// envelope, in that fixed order regardless of how the value sits in
/// memory.
pub open spec fn spec_enc_transaction(t: TransactionView) -> Seq<u8> {
    spec_enc_sig(t.signature) + spec_enc_u64(t.timestamp as u64) + spec_enc_envelope(t.transaction)
}

/// Whether the transaction's content is encodable: a non-negative
/// timestamp and strings that fit their length prefixes.
pub open spec fn tx_fits(t: TransactionView) -> bool {
    &&& 0 <= t.timestamp
    &&& (t.signature matches Some(s) ==> str_fits(s))
    &&& envelope_fits(t.transaction)
}

/// Reading a transaction back from the front of `b`.
pub open spec fn spec_dec_transaction(b: Seq<u8>) -> Option<(TransactionView, int)> {
    match spec_dec_sig(b) {
        None => None,
        Some((sig, c0)) => match spec_dec_u64(b.skip(c0)) {
            None => None,
            Some((n, c1)) => {
                if n > i64::MAX as u64 {
                    None
                } else {
                    match spec_dec_envelope(b.skip(c0 + c1)) {
                        None => None,
                        Some((env, c2)) => Some(
                            (
                                TransactionView {
                                    signature: sig,
                                    timestamp: n as i64,
                                    transaction: env,
                                },
                                c0 + c1 + c2,
                            ),
                        ),
                    }
                }
            },
        },
    }
}

/// For every payload envelope, decoding its canonical encoding returns
/// the same envelope: the round trip of canonical serialization, with
/// anything that follows the encoding left in place.
pub proof fn lemma_dec_enc_envelope(v: TransactionDataView, rest: Seq<u8>)
    requires
        envelope_fits(v),
    ensures
        spec_dec_envelope(spec_enc_envelope(v) + rest) == Some(
            (v, spec_enc_envelope(v).len() as int),
        ),
{
    let e1 = spec_enc_str(v.transaction_id);
    let e2 = spec_enc_message(v.payload);
    let all = spec_enc_envelope(v) + rest;
    assert(all =~= e1 + (e2 + rest));
    crate::codec::lemma_dec_enc_str(v.transaction_id, e2 + rest);
    assert(all.skip(e1.len() as int) =~= e2 + rest);
    lemma_dec_enc_message(v.payload, rest);
    let got = spec_dec_envelope(all)->Some_0;
    assert(got.0 =~= v);
}

/// Decoding a transaction's canonical encoding returns the same
/// transaction, with anything that follows the encoding left in place.
pub proof fn lemma_dec_enc_transaction(t: TransactionView, rest: Seq<u8>)
    requires
        tx_fits(t),
    ensures
        spec_dec_transaction(spec_enc_transaction(t) + rest) == Some(
            (t, spec_enc_transaction(t).len() as int),
        ),
{
    vstd::bytes::lemma_auto_spec_u64_to_from_le_bytes();
    let e0 = spec_enc_sig(t.signature);
    let e1 = spec_enc_u64(t.timestamp as u64);
    let e2 = spec_enc_envelope(t.transaction);
    let all = spec_enc_transaction(t) + rest;
    // the signature part
    match t.signature {
        None => {
            assert(all[0] == 0u8);
            assert(spec_dec_sig(all) == Some((None::<Seq<char>>, 1int)));
        },
        Some(s) => {
            assert(all[0] == 1u8);
            assert(all.skip(1) =~= spec_enc_str(s) + (e1 + e2 + rest));
            crate::codec::lemma_dec_enc_str(s, e1 + e2 + rest);
            assert(spec_dec_sig(all) == Some((Some(s), e0.len() as int)));
        },
    }
    // the timestamp part
    assert(all.skip(e0.len() as int) =~= e1 + (e2 + rest));
    crate::codec::lemma_dec_enc_u64(t.timestamp as u64, e2 + rest);
    assert((t.timestamp as u64) <= i64::MAX as u64);
    assert((t.timestamp as u64) as i64 == t.timestamp);
    // the envelope part
    assert(all.skip(e0.len() as int + 8) =~= e2 + rest);
    lemma_dec_enc_envelope(t.transaction, rest);
    let got = spec_dec_transaction(all)->Some_0;
    assert(got.0 =~= t);
}

// === trusted digest and identifier generation ===

/// What sha256::digest returns: a function of the bytes alone.
pub uninterp spec fn sha256_hex_of(b: Seq<u8>) -> Seq<char>;

/// Relies on sha256::digest: the lowercase hexadecimal SHA-256 digest of
/// the bytes, 64 characters, a function of the bytes alone.
#[verifier::external_body]
fn sha256_digest(b: &Vec<u8>) -> (r: String)
    ensures
        r@ == sha256_hex_of(b@),
        r@.len() == 64,
{
    sha256::digest(b.as_slice())
}

/// Relies on uuid::Uuid::new_v4 and its Display form: a fresh random
/// identifier rendered as the 36-character hyphenated form. Nothing is
/// assumed about which identifier comes out.
#[verifier::external_body]
fn new_envelope_id() -> (r: String)
    ensures
        r@.len() == 36,
{
    uuid::Uuid::new_v4().to_string()
}

/// The digest of a transaction's canonical serialization: the key under
/// which the transaction would be stored.
pub open spec fn spec_hash(t: TransactionView) -> Seq<char> {
    sha256_hex_of(spec_enc_transaction(t))
}

/// The signature attached to a transaction, as a change of its shape.
pub open spec fn spec_with_signature(t: TransactionView, s: Seq<char>) -> TransactionView {
    TransactionView { signature: Some(s), ..t }
}

impl TransactionData {
    /// Wraps a payload with the given envelope identifier.
    pub fn new(transaction_id: String, payload: Message) -> (r: TransactionData)
        ensures
            r@.transaction_id == transaction_id@,
            r@.payload == payload@,
    {
        TransactionData { transaction_id, payload }
    }

    /// The envelope's globally unique identifier.
    pub fn transaction_id(&self) -> (r: &String)
        ensures
            r@ == self@.transaction_id,
    {
        &self.transaction_id
    }

    /// The wrapped payload.
    pub fn payload(&self) -> (r: &Message)
        ensures
            r@ == self@.payload,
    {
        &self.payload
    }

    /// Appends the canonical encoding of this envelope to `out`.
    pub fn encode_into(&self, out: &mut Vec<u8>)
        ensures
            final(out)@ == old(out)@ + spec_enc_envelope(self@),
            envelope_fits(self@),
    {
        enc_str_into(out, &self.transaction_id);
        self.payload.encode_into(out);
        proof {
            assert(out@ =~= old(out)@ + spec_enc_envelope(self@));
        }
    }

    /// The canonical encoding of this envelope.
    pub fn encode(&self) -> (r: Vec<u8>)
        ensures
            r@ == spec_enc_envelope(self@),
            envelope_fits(self@),
    {
        let mut out: Vec<u8> = Vec::new();
        self.encode_into(&mut out);
        out
    }

    /// Decodes a full canonical encoding of an envelope: succeeds exactly
    /// when the bytes are one envelope with nothing left over.
    pub fn decode(b: &Vec<u8>) -> (r: Option<TransactionData>)
        ensures
            (r is Some) == (spec_dec_envelope(b@) matches Some(q) && q.1 == b@.len()),
            r matches Some(v) ==> spec_dec_envelope(b@) == Some((v@, b@.len() as int)),
    {
        proof {
            assert(b@.skip(0) =~= b@);
        }
        match dec_str(b, 0) {
            None => None,
            Some((id, p1)) => {
                match Message::decode_from(b, p1) {
                    None => None,
                    Some((m, p2)) => {
                        if p2 == b.len() {
                            Some(TransactionData { transaction_id: id, payload: m })
                        } else {
                            None
                        }
                    },
                }
            },
        }
    }
}

impl Transaction {
    #[verifier::type_invariant]
    spec fn wf(self) -> bool {
        0 <= self.timestamp
    }

    /// The attached signature, if one has been attached.
    pub fn signature(&self) -> (r: &Option<String>)
        ensures
            (r is Some) == (self@.signature is Some),
            r matches Some(s) ==> self@.signature == Some(s@),
    {
        &self.signature
    }

    /// The creation timestamp: milliseconds since the Unix epoch.
    pub fn timestamp(&self) -> (r: UnixTimestamp)
        ensures
            r == self@.timestamp,
            0 <= r,
    {
        proof {
            use_type_invariant(self);
        }
        self.timestamp
    }

    /// The payload envelope the transaction carries.
    pub fn envelope(&self) -> (r: &TransactionData)
        ensures
            r@ == self@.transaction,
    {
        &self.transaction
    }

    /// Builds a transaction around a payload: the payload's sign
    /// operation is invoked with the node's private key material and the
    /// resulting signature is bound, rendered as hexadecimal; the current
    /// time is stamped and a fresh envelope identifier is generated.
    /// Signing failures surface as SigningError, never as a
    /// serialization failure.
    pub fn build(keypair: libp2p::identity::Keypair, payload: Message) -> (r: Result<
        Transaction,
        TransactionError,
    >)
        ensures
            r matches Ok(t) ==> {
                &&& t@.signature is Some
                &&& (exists|b: Seq<u8>| t@.signature == Some(spec_hex_of(b)))
                &&& t@.transaction.payload == payload@
                &&& 0 <= t@.timestamp
                &&& t@.transaction.transaction_id.len() == 36
            },
            r matches Err(e) ==> e is SigningError,
    {
        match payload.sign(&keypair) {
            Err(e) => Err(e),
            Ok(sig) => {
                let sig_hex = hex_encode(&sig);
                let t = Transaction {
                    signature: Some(sig_hex),
                    timestamp: crate::utils::unix_epoch_time(),
                    transaction: TransactionData {
                        transaction_id: new_envelope_id(),
                        payload,
                    },
                };
                proof {
                    assert(t@.signature == Some(spec_hex_of(sig@)));
                }
                Ok(t)
            },
        }
    }

    /// Attaches a signature, the one change a transaction admits after
    /// construction: everything else is left exactly as it was.
    pub fn with_signature(self, sig: String) -> (r: Transaction)
        requires
            self@.signature is None,
        ensures
            r@ == spec_with_signature(self@, sig@),
    {
        proof {
            use_type_invariant(&self);
        }
        let r = Transaction {
            signature: Some(sig),
            timestamp: self.timestamp,
            transaction: self.transaction,
        };
        proof {
            assert(r@ =~= spec_with_signature(self@, sig@));
        }
        r
    }

    /// Appends the canonical encoding of this transaction to `out`.
    pub fn encode_into(&self, out: &mut Vec<u8>)
        ensures
            final(out)@ == old(out)@ + spec_enc_transaction(self@),
            tx_fits(self@),
    {
        proof {
            use_type_invariant(self);
        }
        match &self.signature {
            None => out.push(0u8),
            Some(s) => {
                out.push(1u8);
                enc_str_into(out, s);
            },
        }
        enc_u64_into(out, self.timestamp as u64);
        self.transaction.encode_into(out);
        proof {
            assert(out@ =~= old(out)@ + spec_enc_transaction(self@));
        }
    }

    /// The canonical encoding of this transaction.
    pub fn encode(&self) -> (r: Vec<u8>)
        ensures
            r@ == spec_enc_transaction(self@),
            tx_fits(self@),
    {
        let mut out: Vec<u8> = Vec::new();
        self.encode_into(&mut out);
        out
    }

    /// Decodes a full canonical encoding of a transaction: succeeds
    /// exactly when the bytes are one transaction with nothing left over.
    pub fn decode(b: &Vec<u8>) -> (r: Option<Transaction>)
        ensures
            (r is Some) == (spec_dec_transaction(b@) matches Some(q) && q.1 == b@.len()),
            r matches Some(t) ==> spec_dec_transaction(b@) == Some((t@, b@.len() as int)),
    {
        if b.len() < 1 {
            return None;
        }
        let tag = b[0];
        let (sig, p0): (Option<String>, usize) = if tag == 0u8 {
            (None, 1)
        } else if tag == 1u8 {
            match dec_str(b, 1) {
                None => {
                    return None;
                },
                Some((s, p)) => (Some(s), p),
            }
        } else {
            return None;
        };
        match dec_u64(b, p0) {
            None => None,
            Some((n, p1)) => {
                if n > (i64::MAX as u64) {
                    None
                } else {
                    match dec_str(b, p1) {
                        None => None,
                        Some((id, p2)) => {
                            proof {
                                assert(b@.skip(p1 as int).skip((p2 - p1) as int) =~= b@.skip(
                                    p2 as int,
                                ));
                            }
                            match Message::decode_from(b, p2) {
                                None => None,
                                Some((m, p3)) => {
                                    if p3 == b.len() {
                                        Some(
                                            Transaction {
                                                signature: sig,
                                                timestamp: n as i64,
                                                transaction: TransactionData {
                                                    transaction_id: id,
                                                    payload: m,
                                                },
                                            },
                                        )
                                    } else {
                                        None
                                    }
                                },
                            }
                        },
                    }
                }
            },
        }
    }

    /// The deterministic digest of the canonical serialization: a
    /// fixed-width digest of 64 hexadecimal characters, identical for
    /// identical logical content, whatever the field order in memory.
    pub fn to_hash(&self) -> (r: Result<TransactionHash, TransactionError>)
        ensures
            r matches Ok(h) && h@ == spec_hash(self@) && h@.len() == 64,
            tx_fits(self@),
    {
        let bytes = self.encode();
        Ok(sha256_digest(&bytes))
    }

    /// The lossless hexadecimal form of the canonical serialization: the
    /// wire body handed to the gossip channel.
    pub fn to_hex(&self) -> (r: Result<String, TransactionError>)
        ensures
            r matches Ok(s) && s@ == spec_hex_of(spec_enc_transaction(self@)),
            tx_fits(self@),
    {
        let bytes = self.encode();
        Ok(hex_encode(&bytes))
    }

    /// Decodes a transaction from the hexadecimal form `to_hex` emits:
    /// succeeds exactly when the text is even-length hexadecimal whose
    /// bytes are one canonical transaction.
    pub fn from_hex(s: &str) -> (r: Result<Transaction, TransactionError>)
        ensures
            (r is Ok) == (spec_hex_decode(s.spec_bytes()) matches Some(bytes)
                && spec_dec_transaction(bytes) matches Some(p) && p.1 == bytes.len()),
            r matches Ok(t) ==> spec_hex_decode(s.spec_bytes()) matches Some(bytes)
                && spec_dec_transaction(bytes) == Some((t@, bytes.len() as int)),
            r matches Err(e) ==> e is UnableToDeserializeTransaction,
    {
        match hex_decode(s) {
            None => Err(
                TransactionError::UnableToDeserializeTransaction(
                    "the text is not even-length hexadecimal".to_owned(),
                ),
            ),
            Some(bytes) => match Transaction::decode(&bytes) {
                None => Err(
                    TransactionError::UnableToDeserializeTransaction(
                        "the bytes are not one canonical transaction".to_owned(),
                    ),
                ),
                Some(t) => Ok(t),
            },
        }
    }
}

// === the stated laws of the transaction model ===

/// The full round trip of the wire form: a transaction's hexadecimal
/// encoding decodes back to the very same transaction.
pub proof fn lemma_hex_transaction_roundtrip(t: TransactionView)
    requires
        tx_fits(t),
    ensures
        spec_hex_decode(vstd::utf8::encode_utf8(spec_hex_of(spec_enc_transaction(t)))) == Some(
            spec_enc_transaction(t),
        ),
        spec_dec_transaction(spec_enc_transaction(t)) == Some(
            (t, spec_enc_transaction(t).len() as int),
        ),
{
    crate::codec::lemma_hex_roundtrip(spec_enc_transaction(t));
    lemma_dec_enc_transaction(t, Seq::empty());
    assert(spec_enc_transaction(t) + Seq::<u8>::empty() =~= spec_enc_transaction(t));
}

/// The round trip of canonical serialization at the envelope level:
/// decoding an envelope's canonical encoding returns the same envelope.
pub proof fn lemma_envelope_roundtrip(v: TransactionDataView)
    requires
        envelope_fits(v),
    ensures
        spec_dec_envelope(spec_enc_envelope(v)) == Some((v, spec_enc_envelope(v).len() as int)),
{
    lemma_dec_enc_envelope(v, Seq::empty());
    assert(spec_enc_envelope(v) + Seq::<u8>::empty() =~= spec_enc_envelope(v));
}

/// Hashing is deterministic: transactions of identical logical content
/// have the same digest, whatever the field order in memory and across
/// repeated calls and process restarts.
pub proof fn lemma_hash_deterministic(t1: TransactionView, t2: TransactionView)
    requires
        t1.signature == t2.signature,
        t1.timestamp == t2.timestamp,
        t1.transaction.transaction_id == t2.transaction.transaction_id,
        t1.transaction.payload == t2.transaction.payload,
    ensures
        spec_hash(t1) == spec_hash(t2),
{
    assert(t1.transaction =~= t2.transaction);
    assert(t1 =~= t2);
}

/// A signature is additive metadata: attaching one, and then another,
/// leaves the payload envelope and the timestamp untouched, and the
/// payload recovered from the canonical encoding is still the original.
pub proof fn lemma_signature_additive(t: TransactionView, s1: Seq<char>, s2: Seq<char>)
    requires
        tx_fits(t),
        str_fits(s2),
    ensures
        spec_with_signature(spec_with_signature(t, s1), s2).transaction == t.transaction,
        spec_with_signature(spec_with_signature(t, s1), s2).timestamp == t.timestamp,
        spec_dec_transaction(
            spec_enc_transaction(spec_with_signature(spec_with_signature(t, s1), s2)),
        ) matches Some(p) && p.0.transaction == t.transaction,
{
    let t2 = spec_with_signature(spec_with_signature(t, s1), s2);
    assert(tx_fits(t2));
    lemma_dec_enc_transaction(t2, Seq::empty());
    assert(spec_enc_transaction(t2) + Seq::<u8>::empty() =~= spec_enc_transaction(t2));
}

} // verus!
