use vstd::prelude::*;
use crate::identity::{is_valid_multiaddr, is_valid_peer_id};
use crate::network::Peer;
use crate::utils::error::Error;

verus! {

/// The operator's startup choices: the node's role, and optionally a
/// bootstrap peer's address and identifier.
pub struct Args {
    /// Node's role
    pub role: Role,
    /// Peer's MultiAddress
    pub peer_mutli_address: Option<String>,
    /// Bootstrap Nodes
    pub bootstrap_peer_id: Option<String>,
}

/// The node's role, fixed for the process lifetime: a long-lived
/// bootstrap/directory node that answers queries and relays, or a sender
/// that dials out, publishes and reads local input.
#[derive(Clone, Copy, Debug, PartialEq, Eq, Structural)]
pub enum Role {
    BootstapNode,
    Sender,
}

impl Role {
    /// The role's display name, in place of a Display impl.
    pub fn display_name(&self) -> (r: String)
        ensures
            self is BootstapNode ==> r@ == "Receiver"@,
            self is Sender ==> r@ == "Sender"@,
    {
        match self {
            Role::BootstapNode => "Receiver".to_owned(),
            Role::Sender => "Sender".to_owned(),
        }
    }
}

impl Args {
    /// Checks the optional bootstrap parameters before anything
    /// network-facing starts: a malformed peer identifier, and then a
    /// malformed address, is fatal at startup. On success the validated
    /// bootstrap peer is returned when both parameters were supplied.
    pub fn bootstrap_peer(&self) -> (r: Result<Option<Peer>, Error>)
        ensures
            (r is Ok) == ({
                &&& (self.bootstrap_peer_id matches Some(s) ==> is_valid_peer_id(s@))
                &&& (self.peer_mutli_address matches Some(a) ==> is_valid_multiaddr(a@))
            }),
            r matches Ok(Some(p)) ==> {
                &&& self.bootstrap_peer_id matches Some(s) && p.id@ == s@
                &&& self.peer_mutli_address matches Some(a) && p.addr@ == a@
                &&& p.wf()
                &&& !p.setup
            },
            r matches Ok(None) ==> self.bootstrap_peer_id is None
                || self.peer_mutli_address is None,
            r matches Err(e) ==> {
                ||| (self.bootstrap_peer_id matches Some(s) && e is InvalidPeerId
                    && !is_valid_peer_id(s@))
                ||| (self.peer_mutli_address matches Some(a) && e is InvalidMultiaddr
                    && !is_valid_multiaddr(a@) && (self.bootstrap_peer_id matches Some(s)
                    ==> is_valid_peer_id(s@)))
            },
    {
        match (&self.bootstrap_peer_id, &self.peer_mutli_address) {
            (Some(id), Some(addr)) => match Peer::new(id.clone(), addr.clone()) {
                Ok(p) => Ok(Some(p)),
                Err(e) => Err(e),
            },
            (Some(id), None) => match crate::identity::check_peer_id(id.as_str()) {
                Some(msg) => Err(Error::InvalidPeerId(msg)),
                None => Ok(None),
            },
            (None, Some(addr)) => match crate::identity::check_multiaddr(addr.as_str()) {
                Some(msg) => Err(Error::InvalidMultiaddr(msg)),
                None => Ok(None),
            },
            (None, None) => Ok(None),
        }
    }
}

} // verus!
