//! The inviter's side of the connection protocol between two agents: the
//! protocol states, the transitions that events drive between them, the
//! filter that admits inbound messages, and the data they carry.
use vstd::prelude::*;

pub mod agent;
pub mod error;
pub mod events;
pub mod inviter;
pub mod laws;
pub mod messages;
pub mod protocol;
pub mod registry;
pub mod states;
pub mod wallet;

verus! {

} // verus!
