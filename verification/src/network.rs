use vstd::prelude::*;
use crate::identity::{check_multiaddr, check_peer_id, is_valid_multiaddr, is_valid_peer_id};
use crate::utils::error::Error;

pub mod event;

verus! {

/// Nodes Peer: a validated peer identifier and address, as supplied by
/// the operator for bootstrapping the routing table.
#[derive(Debug)]
pub struct Peer {
    pub id: String,
    pub addr: String,
    pub setup: bool,
}

impl Peer {
    /// A peer is well formed when both of its strings pass their
    /// grammars.
    pub open spec fn wf(&self) -> bool {
        is_valid_peer_id(self.id@) && is_valid_multiaddr(self.addr@)
    }

    /// Validates an operator-supplied identifier and address. The
    /// identifier is checked first; each failure carries the parser's
    /// message, and the two failures are never conflated.
    pub fn new(id: String, addr: String) -> (r: Result<Peer, Error>)
        ensures
            (r is Ok) == (is_valid_peer_id(id@) && is_valid_multiaddr(addr@)),
            r matches Ok(p) ==> p.id@ == id@ && p.addr@ == addr@ && !p.setup && p.wf(),
            r matches Err(e) ==> {
                ||| (e is InvalidPeerId && !is_valid_peer_id(id@))
                ||| (e is InvalidMultiaddr && is_valid_peer_id(id@) && !is_valid_multiaddr(
                    addr@,
                ))
            },
    {
        match check_peer_id(id.as_str()) {
            Some(msg) => Err(Error::InvalidPeerId(msg)),
            None => match check_multiaddr(addr.as_str()) {
                Some(msg) => Err(Error::InvalidMultiaddr(msg)),
                None => Ok(Peer { id, addr, setup: false }),
            },
        }
    }
}

} // verus!
