use vstd::prelude::*;

use crate::identity::{Error, Identity};
use crate::rules::{admin_check, verify_outcome};
use crate::status::IdentityStatus;

verus! {

/// The whole state of a registry, over principals seen as byte strings: the
/// administrator (once recorded), the set of verifiers, and one record per
/// registered user.
pub struct RegistryModel {
    pub admin: Option<Seq<u8>>,
    pub verifiers: Set<Seq<u8>>,
    pub identities: Map<Seq<u8>, Identity>,
}

impl RegistryModel {
    /// A registry before any call: no administrator, no verifier, no record.
    pub open spec fn empty() -> RegistryModel {
        RegistryModel { admin: None, verifiers: Set::empty(), identities: Map::empty() }
    }

    /// The record of `user`, absent when `user` never registered.
    pub open spec fn identity_of(self, user: Seq<u8>) -> Option<Identity> {
        if self.identities.contains_key(user) {
            Some(self.identities[user])
        } else {
            None
        }
    }

    pub open spec fn is_admin(self, caller: Seq<u8>) -> Result<bool, Error> {
        admin_check(self.admin, caller)
    }

    pub open spec fn is_verifier(self, candidate: Seq<u8>) -> bool {
        self.verifiers.contains(candidate)
    }

    /// Records `admin` as the administrator, once.
    pub open spec fn initialize(self, admin: Seq<u8>) -> Result<RegistryModel, Error> {
        if self.admin is Some {
            Err(Error::AlreadyInitialized)
        } else {
            Ok(RegistryModel { admin: Some(admin), ..self })
        }
    }

    /// The administrator `caller` adds `verifier` to the verifier set.
    pub open spec fn add_verifier(self, caller: Seq<u8>, verifier: Seq<u8>) -> Result<RegistryModel, Error> {
        match self.is_admin(caller) {
            Err(e) => Err(e),
            Ok(false) => Err(Error::Unauthorized),
            Ok(true) => Ok(RegistryModel { verifiers: self.verifiers.insert(verifier), ..self }),
        }
    }

    /// `user` (re-)registers the claim hash `data_hash`, replacing any earlier record.
    pub open spec fn register(self, user: Seq<u8>, data_hash: [u8; 32]) -> RegistryModel {
        RegistryModel {
            identities: self.identities.insert(user, Identity { data_hash, status: IdentityStatus::Pending }),
            ..self
        }
    }

    /// `verifier` sets the status with code `code` on `user`'s record.
    pub open spec fn verify(self, verifier: Seq<u8>, user: Seq<u8>, code: u32) -> Result<RegistryModel, Error> {
        match verify_outcome(self.identity_of(user), self.is_verifier(verifier), code) {
            Ok(id) => Ok(RegistryModel { identities: self.identities.insert(user, id), ..self }),
            Err(e) => Err(e),
        }
    }
}

/// An operation whose outcome is `outcome` went from `before` to `after` and
/// answered `r`: on success the new state is the outcome's, on failure the
/// same error is answered and nothing changed.
pub open spec fn committed<T>(
    outcome: Result<RegistryModel, Error>,
    before: RegistryModel,
    after: RegistryModel,
    r: Result<T, Error>,
) -> bool {
    match outcome {
        Ok(m) => r is Ok && after == m,
        Err(e) => r == Err::<T, Error>(e) && after == before,
    }
}

} // verus!
