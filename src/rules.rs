use vstd::prelude::*;

use crate::identity::{Error, Identity};
use crate::principal::Principal;
use crate::status::IdentityStatus;

verus! {

/// The view of a stored administrator slot.
pub open spec fn admin_view(admin: Option<Principal>) -> Option<Seq<u8>> {
    match admin {
        Some(a) => Some(a@),
        None => None,
    }
}

/// Whether `caller` is the administrator recorded in `admin`; an empty slot is
/// an error.
pub open spec fn admin_check(admin: Option<Seq<u8>>, caller: Seq<u8>) -> Result<bool, Error> {
    match admin {
        Some(a) => Ok(a == caller),
        None => Err(Error::NotInitialized),
    }
}

/// Outcome of a verifier setting status code `code` on the record `record`:
/// the record must exist, the caller must be a verifier, and the code must
/// decode; only the status changes.
pub open spec fn verify_outcome(record: Option<Identity>, caller_is_verifier: bool, code: u32) -> Result<Identity, Error> {
    match record {
        None => Err(Error::IdentityNotFound),
        Some(id) => if !caller_is_verifier {
            Err(Error::Unauthorized)
        } else {
            match IdentityStatus::decode(code) {
                Some(s) => Ok(Identity { data_hash: id.data_hash, status: s }),
                None => Err(Error::InvalidStatus),
            }
        },
    }
}

/// Whether `caller` is the recorded administrator; `NotInitialized` when no
/// administrator is recorded.
pub fn is_admin_of(admin: &Option<Principal>, caller: &Principal) -> (r: Result<bool, Error>)
    ensures
        r == admin_check(admin_view(*admin), caller@),
{
    match admin {
        Some(a) => Ok(a.same(caller)),
        None => Err(Error::NotInitialized),
    }
}

/// Passes only when `caller` is the recorded administrator: `NotInitialized`
/// when none is recorded, `Unauthorized` when it is someone else.
pub fn require_admin(admin: &Option<Principal>, caller: &Principal) -> (r: Result<(), Error>)
    ensures
        r is Ok <==> admin_view(*admin) == Some(caller@),
        admin is None ==> r == Err::<(), Error>(Error::NotInitialized),
        admin matches Some(a) && a@ != caller@ ==> r == Err::<(), Error>(Error::Unauthorized),
{
    match is_admin_of(admin, caller) {
        Ok(true) => Ok(()),
        Ok(false) => Err(Error::Unauthorized),
        Err(e) => Err(e),
    }
}

/// Passes only when no administrator is recorded yet.
pub fn require_uninitialized(admin: &Option<Principal>) -> (r: Result<(), Error>)
    ensures
        r is Ok <==> admin is None,
        admin is Some ==> r == Err::<(), Error>(Error::AlreadyInitialized),
{
    match admin {
        Some(_) => Err(Error::AlreadyInitialized),
        None => Ok(()),
    }
}

/// The record that results from a verifier setting status code `code` on
/// `record`, or why the change is refused.
pub fn apply_verify(record: Option<Identity>, caller_is_verifier: bool, code: u32) -> (r: Result<Identity, Error>)
    ensures
        r == verify_outcome(record, caller_is_verifier, code),
{
    match record {
        None => Err(Error::IdentityNotFound),
        Some(id) => {
            if !caller_is_verifier {
                return Err(Error::Unauthorized);
            }
            match IdentityStatus::try_from(code) {
                Ok(s) => Ok(Identity { data_hash: id.data_hash, status: s }),
                Err(()) => Err(Error::InvalidStatus),
            }
        },
    }
}

} // verus!
