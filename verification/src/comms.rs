use vstd::prelude::*;

pub mod message;

verus! {

/// A peer as the comms layer names one: the textual identifier and
/// address it was configured with.
pub struct Peer {
    _id: String,
    _addr: String,
}

} // verus!
