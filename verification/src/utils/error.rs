use vstd::prelude::*;

verus! {

/// Startup-time configuration errors: a malformed bootstrap peer identifier
/// or a malformed peer address supplied by the operator. Both are fatal at
/// startup, before the event loop begins.
#[derive(Debug, Clone)]
pub enum Error {
    InvalidPeerId(String),
    InvalidMultiaddr(String),
}

impl Error {
    /// A short description of the error kind, in place of a Display impl.
    pub fn kind_message(&self) -> (m: String)
        ensures
            self is InvalidPeerId ==> m@ == "Invalid peer ID"@,
            self is InvalidMultiaddr ==> m@ == "Invalid multiaddr"@,
    {
        match self {
            Error::InvalidPeerId(_) => "Invalid peer ID".to_owned(),
            Error::InvalidMultiaddr(_) => "Invalid multiaddr".to_owned(),
        }
    }

    /// The detail carried with the error: what the underlying parser said.
    pub fn detail(&self) -> (d: &String)
        ensures
            self matches Error::InvalidPeerId(s) ==> d == s,
            self matches Error::InvalidMultiaddr(s) ==> d == s,
    {
        match self {
            Error::InvalidPeerId(s) => s,
            Error::InvalidMultiaddr(s) => s,
        }
    }
}

} // verus!
