//! Identity, signing and message-integrity core of a heterogeneous Paxos
//! implementation: value fingerprints, the total orders over fingerprints and
//! ballots, and self-signed keypairs that sign and verify byte payloads.

pub mod messages;
pub mod crypto;
pub mod utils;
