//! A claim registry: ownership of opaque byte-string proofs, with a
//! bearer-secret hand-over of that ownership and a companion table of
//! pay-to-script-hash addresses.
//!
//! Every operation is a total, deterministic function of the tables, the
//! request and the current ledger height. Each has a contract that equates
//! its effect with a transition written over mathematical maps.

pub mod bytes;
pub mod laws;
pub mod model;
pub mod registry;
pub mod table;
pub mod types;

pub use crate::registry::Pallet;
pub use crate::types::{AccountId, BlockNumber, Call, ClaimRecord, Error, Event, LockRecord};
