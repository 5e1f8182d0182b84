use vstd::prelude::*;

use crate::principal::Principal;
use crate::status::IdentityStatus;

verus! {

/// The identity record kept for one user: the hash of the user's personal data,
/// never the data itself, and the record's current status.
#[derive(Clone, Copy, Debug, PartialEq, Eq)]
pub struct Identity {
    pub data_hash: [u8; 32],
    pub status: IdentityStatus,
}

impl Identity {
    /// A freshly registered record: the given hash, status `Pending`.
    pub fn pending(data_hash: [u8; 32]) -> (r: Identity)
        ensures
            r == (Identity { data_hash, status: IdentityStatus::Pending }),
    {
        Identity { data_hash, status: IdentityStatus::Pending }
    }
}

/// Why an operation was refused. A refused operation changes nothing.
#[derive(Clone, Copy, Debug, PartialEq, Eq, Structural)]
pub enum Error {
    /// The operation needs an administrator and none has been recorded.
    NotInitialized,
    /// An administrator is already recorded.
    AlreadyInitialized,
    /// The caller lacks the role that the operation requires.
    Unauthorized,
    /// The target user has no identity record.
    IdentityNotFound,
    /// The status code is not one of the four defined codes.
    InvalidStatus,
}

/// A notification for outside observers, produced by a successful operation.
#[derive(Debug)]
pub enum Event {
    /// `user` registered (or re-registered) a claim.
    Register { user: Principal },
    /// `verifier` set the status of `user`'s record to the status with code `status`.
    Verify { verifier: Principal, user: Principal, status: u32 },
}

impl Event {
    pub open spec fn is_register_of(self, user: Seq<u8>) -> bool {
        match self {
            Event::Register { user: u } => u@ == user,
            _ => false,
        }
    }

    pub open spec fn is_verify_of(self, verifier: Seq<u8>, user: Seq<u8>, status: u32) -> bool {
        match self {
            Event::Verify { verifier: v, user: u, status: s } => v@ == verifier && u@ == user && s == status,
            _ => false,
        }
    }
}

} // verus!
