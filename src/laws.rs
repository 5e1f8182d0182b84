use vstd::prelude::*;

use crate::identity::{Error, Identity};
use crate::model::RegistryModel;
use crate::status::IdentityStatus;

verus! {

/// Initialization succeeds on a registry that has no administrator, and from
/// then on every further initialization fails with `AlreadyInitialized`,
/// whatever administrator it names; one that already has an administrator
/// refuses it likewise.
pub proof fn lemma_initialize_once(m: RegistryModel, first: Seq<u8>, second: Seq<u8>)
    ensures
        m.initialize(first) is Ok <==> m.admin is None,
        m.initialize(first) matches Ok(next) ==> next.initialize(second) == Err::<RegistryModel, Error>(
            Error::AlreadyInitialized,
        ),
        m.admin is Some ==> m.initialize(second) == Err::<RegistryModel, Error>(Error::AlreadyInitialized),
{
}

/// Once recorded, the administrator stays: adding verifiers, registering and
/// verifying never change it, so initialization stays refused.
pub proof fn lemma_admin_is_kept(m: RegistryModel, a: Seq<u8>, b: Seq<u8>, h: [u8; 32], code: u32)
    ensures
        m.add_verifier(a, b) matches Ok(next) ==> next.admin == m.admin,
        m.register(a, h).admin == m.admin,
        m.verify(a, b, code) matches Ok(next) ==> next.admin == m.admin,
{
}

/// A caller other than the recorded administrator cannot add a verifier: the
/// call fails with `Unauthorized` (and a failed call changes nothing).
pub proof fn lemma_add_verifier_needs_admin(m: RegistryModel, caller: Seq<u8>, verifier: Seq<u8>)
    requires
        m.admin is Some,
        m.admin != Some(caller),
    ensures
        m.add_verifier(caller, verifier) == Err::<RegistryModel, Error>(Error::Unauthorized),
{
}

/// After the administrator adds `verifier`, it is a verifier, and adding it
/// again succeeds without changing anything.
pub proof fn lemma_add_verifier_idempotent(m: RegistryModel, admin: Seq<u8>, verifier: Seq<u8>)
    requires
        m.admin == Some(admin),
    ensures
        m.add_verifier(admin, verifier) is Ok,
        m.add_verifier(admin, verifier)->Ok_0.is_verifier(verifier),
        m.add_verifier(admin, verifier)->Ok_0.add_verifier(admin, verifier) == Ok::<RegistryModel, Error>(
            m.add_verifier(admin, verifier)->Ok_0,
        ),
{
    let next = m.add_verifier(admin, verifier)->Ok_0;
    assert(next.verifiers.insert(verifier) =~= next.verifiers);
}

/// Registering replaces the user's record whole: afterwards the record holds
/// the new hash and status `Pending`, whatever record came before.
pub proof fn lemma_register_then_get(m: RegistryModel, user: Seq<u8>, data_hash: [u8; 32])
    ensures
        m.register(user, data_hash).identity_of(user) == Some(
            Identity { data_hash, status: IdentityStatus::Pending },
        ),
{
}

/// Verifying a user who has no record fails with `IdentityNotFound`, whether
/// or not the caller is a verifier, and whatever the code.
pub proof fn lemma_verify_unregistered(m: RegistryModel, verifier: Seq<u8>, user: Seq<u8>, code: u32)
    requires
        m.identity_of(user) is None,
    ensures
        m.verify(verifier, user, code) == Err::<RegistryModel, Error>(Error::IdentityNotFound),
{
}

/// A caller outside the verifier set cannot verify, even a user with a
/// record: the call fails with `Unauthorized`.
pub proof fn lemma_verify_needs_verifier(m: RegistryModel, verifier: Seq<u8>, user: Seq<u8>, code: u32)
    requires
        m.identity_of(user) is Some,
        !m.is_verifier(verifier),
    ensures
        m.verify(verifier, user, code) == Err::<RegistryModel, Error>(Error::Unauthorized),
{
}

/// A verifier may set `Verified` on a record, keeping its hash, and then set
/// `Pending` again: no order is imposed on statuses.
pub proof fn lemma_verify_then_reset(m: RegistryModel, verifier: Seq<u8>, user: Seq<u8>, record: Identity)
    requires
        m.is_verifier(verifier),
        m.identity_of(user) == Some(record),
    ensures
        m.verify(verifier, user, 2) is Ok,
        m.verify(verifier, user, 2)->Ok_0.identity_of(user) == Some(
            Identity { data_hash: record.data_hash, status: IdentityStatus::Verified },
        ),
        m.verify(verifier, user, 2)->Ok_0.verify(verifier, user, 1) is Ok,
        m.verify(verifier, user, 2)->Ok_0.verify(verifier, user, 1)->Ok_0.identity_of(user) == Some(
            Identity { data_hash: record.data_hash, status: IdentityStatus::Pending },
        ),
{
}

/// A verifier's call with a code outside 0 to 3 on an existing record fails
/// with `InvalidStatus` (and a failed call leaves the record as it was).
pub proof fn lemma_verify_rejects_bad_code(m: RegistryModel, verifier: Seq<u8>, user: Seq<u8>, code: u32)
    requires
        m.is_verifier(verifier),
        m.identity_of(user) is Some,
        code > 3,
    ensures
        m.verify(verifier, user, code) == Err::<RegistryModel, Error>(Error::InvalidStatus),
{
}

/// A fresh registry holds no record, and registering one user creates no
/// record for another.
pub proof fn lemma_unregistered_is_absent(m: RegistryModel, user: Seq<u8>, other: Seq<u8>, data_hash: [u8; 32])
    requires
        m.identity_of(user) is None,
        other != user,
    ensures
        RegistryModel::empty().identity_of(user) is None,
        m.register(other, data_hash).identity_of(user) is None,
{
}

} // verus!
