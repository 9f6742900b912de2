use vstd::prelude::*;

verus! {

/// The node's cryptographic keypair, owned by the peer-to-peer identity
/// layer and opaque to this library.
#[verifier::external_type_specification]
#[verifier::external_body]
pub struct ExKeypair(libp2p::identity::Keypair);

/// Relies on libp2p::identity::Keypair::sign: the private key signs the
/// message bytes, or the cryptographic backend reports why it cannot.
/// Nothing is assumed of the signature bytes themselves.
#[verifier::external_body]
pub fn sign_with_keypair(keypair: &libp2p::identity::Keypair, msg: &[u8]) -> Result<
    Vec<u8>,
    String,
> {
    keypair.sign(msg).map_err(|e| e.to_string())
}

/// Whether the peer-identifier grammar accepts the string: what parsing a
/// libp2p::PeerId decides, a function of the string alone.
pub uninterp spec fn is_valid_peer_id(s: Seq<char>) -> bool;

/// Relies on str::parse::<libp2p::PeerId>: acceptance is a function of the
/// string alone. None means the string parsed; Some carries the parser's
/// message.
#[verifier::external_body]
pub fn check_peer_id(s: &str) -> (r: Option<String>)
    ensures
        (r is None) == is_valid_peer_id(s@),
{
    match s.parse::<libp2p::PeerId>() {
        Ok(_) => None,
        Err(e) => Some(e.to_string()),
    }
}

/// Whether the multiaddress grammar accepts the string: what parsing a
/// libp2p::Multiaddr decides, a function of the string alone.
pub uninterp spec fn is_valid_multiaddr(s: Seq<char>) -> bool;

/// Relies on str::parse::<libp2p::Multiaddr>: acceptance is a function of
/// the string alone. None means the string parsed; Some carries the
/// parser's message.
#[verifier::external_body]
pub fn check_multiaddr(s: &str) -> (r: Option<String>)
    ensures
        (r is None) == is_valid_multiaddr(s@),
{
    match s.parse::<libp2p::Multiaddr>() {
        Ok(_) => None,
        Err(e) => Some(e.to_string()),
    }
}

} // verus!
