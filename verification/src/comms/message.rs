use vstd::prelude::*;
use crate::block::TransactionError;
use crate::codec::{
    bytes_to_string_lossy, dec_str, enc_str_into, spec_dec_str, spec_enc_str, str_fits,
    utf8_lossy_of,
};
use vstd::string::StrSliceExecFns;

verus! {

/// The discriminator tag of a plain chat payload.
pub const TAG_COMMS: u8 = 0;

/// The discriminator tag of a transaction-submission payload.
pub const TAG_TRANSACTION: u8 = 1;

/// The gossip body that marks a transaction-submission payload rather
/// than an arbitrary chat line.
pub const SUBMISSION_MARKER: &'static str = "RememberMe";

/// A payload carried over the gossip channel and inside a transaction:
/// either a plain chat line, or a transaction-submission payload wrapping
/// another payload.
#[derive(Debug)]
pub enum Message {
    Comms(String),
    Transaction(Box<Message>),
}

/// The mathematical shape of a Message.
pub enum MessageView {
    Comms(Seq<char>),
    Transaction(Box<MessageView>),
}

impl View for Message {
    type V = MessageView;

    open spec fn view(&self) -> MessageView
        decreases self,
    {
        match self {
            Message::Comms(s) => MessageView::Comms(s@),
            Message::Transaction(b) => MessageView::Transaction(Box::new((**b)@)),
        }
    }
}

/// The text a payload displays as and signs over: the chat line at the
/// bottom of the nesting.
pub open spec fn spec_display(m: MessageView) -> Seq<char>
    decreases m,
{
    match m {
        MessageView::Comms(s) => s,
        MessageView::Transaction(b) => spec_display(*b),
    }
}

/// Whether every string in the payload fits its 64-bit length prefix;
/// true of every payload that fits in memory.
pub open spec fn msg_fits(m: MessageView) -> bool
    decreases m,
{
    match m {
        MessageView::Comms(s) => str_fits(s),
        MessageView::Transaction(b) => msg_fits(*b),
    }
}

/// The canonical encoding of a payload: a discriminator tag, then the
/// variant's content.
pub open spec fn spec_enc_message(m: MessageView) -> Seq<u8>
    decreases m,
{
    match m {
        MessageView::Comms(s) => seq![TAG_COMMS] + spec_enc_str(s),
        MessageView::Transaction(b) => seq![TAG_TRANSACTION] + spec_enc_message(*b),
    }
}

/// Reading a payload back from the front of `b`; the second component is
/// how many bytes were consumed.
pub open spec fn spec_dec_message(b: Seq<u8>) -> Option<(MessageView, int)>
    decreases b.len(),
{
    if b.len() < 1 {
        None
    } else if b[0] == TAG_COMMS {
        match spec_dec_str(b.skip(1)) {
            None => None,
            Some((s, c)) => Some((MessageView::Comms(s), 1 + c)),
        }
    } else if b[0] == TAG_TRANSACTION {
        match spec_dec_message(b.skip(1)) {
            None => None,
            Some((m, c)) => Some((MessageView::Transaction(Box::new(m)), 1 + c)),
        }
    } else {
        None
    }
}

/// Decoding starts over again from a canonical encoding: the round trip
/// of canonical serialization at the payload level, with anything that
/// follows the encoding left in place.
pub proof fn lemma_dec_enc_message(m: MessageView, rest: Seq<u8>)
    requires
        msg_fits(m),
    ensures
        spec_dec_message(spec_enc_message(m) + rest) == Some(
            (m, spec_enc_message(m).len() as int),
        ),
    decreases m,
{
    let all = spec_enc_message(m) + rest;
    match m {
        MessageView::Comms(s) => {
            assert(all.skip(1) =~= spec_enc_str(s) + rest);
            crate::codec::lemma_dec_enc_str(s, rest);
        },
        MessageView::Transaction(b) => {
            assert(all.skip(1) =~= spec_enc_message(*b) + rest);
            lemma_dec_enc_message(*b, rest);
        },
    }
}

impl Message {
    /// Appends the canonical encoding of this payload to `out`.
    pub fn encode_into(&self, out: &mut Vec<u8>)
        ensures
            final(out)@ == old(out)@ + spec_enc_message(self@),
            msg_fits(self@),
        decreases self,
    {
        match self {
            Message::Comms(s) => {
                out.push(TAG_COMMS);
                enc_str_into(out, s);
                proof {
                    assert(out@ =~= old(out)@ + spec_enc_message(self@));
                }
            },
            Message::Transaction(b) => {
                out.push(TAG_TRANSACTION);
                (&**b).encode_into(out);
                proof {
                    assert(out@ =~= old(out)@ + spec_enc_message(self@));
                }
            },
        }
    }

    /// The canonical encoding of this payload.
    pub fn encode(&self) -> (r: Vec<u8>)
        ensures
            r@ == spec_enc_message(self@),
            msg_fits(self@),
    {
        let mut out: Vec<u8> = Vec::new();
        self.encode_into(&mut out);
        out
    }

    /// Reads one payload at `pos`, returning it with the position just
    /// past it.
    pub fn decode_from(b: &Vec<u8>, pos: usize) -> (r: Option<(Message, usize)>)
        requires
            pos <= b@.len(),
        ensures
            (r is Some) == (spec_dec_message(b@.skip(pos as int)) is Some),
            r matches Some(p) ==> {
                &&& spec_dec_message(b@.skip(pos as int)) matches Some(q)
                    && p.0@ == q.0
                    && p.1 - pos == q.1
                &&& pos < p.1 <= b@.len()
            },
        decreases b@.len() - pos,
    {
        if pos >= b.len() {
            return None;
        }
        let tag = b[pos];
        proof {
            assert(b@.skip(pos as int)[0] == b@[pos as int]);
            assert(b@.skip(pos as int).skip(1) =~= b@.skip(pos as int + 1));
        }
        if tag == TAG_COMMS {
            match dec_str(b, pos + 1) {
                None => None,
                Some((s, next)) => Some((Message::Comms(s), next)),
            }
        } else if tag == TAG_TRANSACTION {
            match Self::decode_from(b, pos + 1) {
                None => None,
                Some((m, next)) => Some((Message::Transaction(Box::new(m)), next)),
            }
        } else {
            None
        }
    }

    /// Decodes a full canonical encoding: succeeds exactly when the bytes
    /// are one payload with nothing left over.
    pub fn decode(b: &Vec<u8>) -> (r: Option<Message>)
        ensures
            (r is Some) == (spec_dec_message(b@) matches Some(q) && q.1 == b@.len()),
            r matches Some(m) ==> spec_dec_message(b@) == Some((m@, b@.len() as int)),
    {
        proof {
            assert(b@.skip(0) =~= b@);
        }
        match Self::decode_from(b, 0) {
            None => None,
            Some((m, next)) => {
                if next == b.len() {
                    Some(m)
                } else {
                    None
                }
            },
        }
    }

    /// The text this payload displays as, in place of a Display impl.
    pub fn to_display_string(&self) -> (r: String)
        ensures
            r@ == spec_display(self@),
        decreases self,
    {
        match self {
            Message::Comms(chat) => chat.clone(),
            Message::Transaction(action) => (&**action).to_display_string(),
        }
    }

    /// Reserved for a future network-submission path, which was never
    /// specified: invoking it fails explicitly rather than silently
    /// succeeding.
    pub fn _submit(&self) -> (r: Result<(), TransactionError>)
        ensures
            r matches Err(e) && e is SubmissionUnimplemented,
    {
        Err(TransactionError::SubmissionUnimplemented)
    }

    /// Signs the payload's display text with the node's keypair,
    /// returning the resulting signature bytes. Signing failures surface
    /// as SigningError, never as a serialization failure.
    pub fn sign(&self, keypair: &libp2p::identity::Keypair) -> (r: Result<
        Vec<u8>,
        TransactionError,
    >)
        ensures
            r matches Err(e) ==> e is SigningError,
    {
        let text = self.to_display_string();
        match crate::identity::sign_with_keypair(keypair, text.as_str().as_bytes()) {
            Ok(sig) => Ok(sig),
            Err(m) => Err(TransactionError::SigningError(m)),
        }
    }

    /// Wraps a delivered gossip body: the bytes are decoded as text,
    /// losing nothing on valid UTF-8 and never failing, and the literal
    /// submission marker is classified as a transaction-submission
    /// payload, distinct from an arbitrary chat line.
    pub fn from_wire(body: &Vec<u8>) -> (r: Message)
        ensures
            (r is Transaction) == (utf8_lossy_of(body@) == SUBMISSION_MARKER@),
            r matches Message::Comms(s) ==> s@ == utf8_lossy_of(body@),
            r matches Message::Transaction(inner) ==> (*inner) matches Message::Comms(s)
                && s@ == utf8_lossy_of(body@),
    {
        let text = bytes_to_string_lossy(body);
        let marker: String = SUBMISSION_MARKER.to_owned();
        if text == marker {
            Message::Transaction(Box::new(Message::Comms(text)))
        } else {
            Message::Comms(text)
        }
    }
}

impl PartialEq for Message {
    /// Two payloads are equal when their mathematical shapes are.
    fn eq(&self, other: &Self) -> (r: bool)
        decreases self,
    {
        match (self, other) {
            (Message::Comms(a), Message::Comms(b)) => {
                let r = a.eq(b);
                proof {
                    if a@ == b@ {
                        assert(self@ == other@);
                    }
                }
                r
            },
            (Message::Transaction(a), Message::Transaction(b)) => {
                let r = (&**a).eq(&**b);
                proof {
                    if (**a)@ == (**b)@ {
                        assert(self@ == other@);
                    }
                    if self@ == other@ {
                        assert(self@->Transaction_0 == other@->Transaction_0);
                        assert((**a)@ == (**b)@);
                    }
                }
                r
            },
            _ => false,
        }
    }
}

impl vstd::std_specs::cmp::PartialEqSpecImpl for Message {
    open spec fn obeys_eq_spec() -> bool {
        true
    }

    open spec fn eq_spec(&self, other: &Self) -> bool {
        self@ == other@
    }
}

impl Clone for Message {
    /// A clone has the same mathematical shape as the original.
    fn clone(&self) -> (r: Self)
        ensures
            r@ == self@,
        decreases self,
    {
        match self {
            Message::Comms(s) => Message::Comms(s.clone()),
            Message::Transaction(b) => Message::Transaction(Box::new((&**b).clone())),
        }
    }
}

impl From<String> for Message {
    /// An operator input line becomes a plain chat payload.
    fn from(s: String) -> (r: Message)
        ensures
            r matches Message::Comms(c) && c@ == s@,
    {
        Message::Comms(s)
    }
}

impl vstd::std_specs::convert::FromSpecImpl<String> for Message {
    open spec fn obeys_from_spec() -> bool {
        true
    }

    open spec fn from_spec(s: String) -> Message {
        Message::Comms(s)
    }
}

} // verus!
