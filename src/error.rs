//! What can go wrong when the connection is driven or queried.
use vstd::prelude::*;

verus! {

#[derive(Debug, Clone, Copy, PartialEq, Eq, Structural)]
pub enum ConnectionError {
    /// The peer's identity was asked for before a DID Document was recorded.
    NotReady,
    /// A transition that needs a freshly provisioned identity was given none.
    ProvisioningFailure,
    /// The event belongs to the invitee's side of the protocol.
    InvalidForRole,
}

pub open spec fn error_text(e: ConnectionError) -> Seq<char> {
    match e {
        ConnectionError::NotReady => "the peer's DID Document is not known yet"@,
        ConnectionError::ProvisioningFailure => "no fresh pairwise identity was provided"@,
        ConnectionError::InvalidForRole => "the event is not valid for the inviter"@,
    }
}

impl ConnectionError {
    /// A short description of the error.
    pub fn message(&self) -> (r: &'static str)
        ensures
            r@ == error_text(*self),
            r@.len() > 0,
    {
        match self {
            ConnectionError::NotReady => {
                proof { reveal_strlit("the peer's DID Document is not known yet"); }
                "the peer's DID Document is not known yet"
            },
            ConnectionError::ProvisioningFailure => {
                proof { reveal_strlit("no fresh pairwise identity was provided"); }
                "no fresh pairwise identity was provided"
            },
            ConnectionError::InvalidForRole => {
                proof { reveal_strlit("the event is not valid for the inviter"); }
                "the event is not valid for the inviter"
            },
        }
    }
}

} // verus!
