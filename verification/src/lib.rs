//! A peer-to-peer node core: the transaction/record data model used to
//! construct, hash, sign and serialize payload envelopes, and the
//! event-driven coordination layer that reacts to connection, discovery,
//! query and gossip events for the node's two roles.

pub mod block;
pub mod cli;
pub mod codec;
pub mod comms;
pub mod identity;
pub mod network;
pub mod utils;
