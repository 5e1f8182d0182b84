use vstd::prelude::*;

use crate::identity::{Error, Event, Identity};
use crate::model::{committed, RegistryModel};
use crate::principal::Principal;
use crate::rules::{admin_view, apply_verify, is_admin_of, require_admin, require_uninitialized};

verus! {

/// Whether no principal holds two records in `entries`.
pub open spec fn keys_unique(entries: Seq<(Principal, Identity)>) -> bool {
    forall|i: int, j: int|
        0 <= i < entries.len() && 0 <= j < entries.len() && i != j ==> #[trigger] entries[i].0@
            != #[trigger] entries[j].0@
}

/// Whether some entry of `entries` belongs to `user`.
pub open spec fn has_entry(entries: Seq<(Principal, Identity)>, user: Seq<u8>) -> bool {
    exists|i: int| 0 <= i < entries.len() && #[trigger] entries[i].0@ == user
}

/// The records of `entries`, keyed by principal.
pub open spec fn entries_map(entries: Seq<(Principal, Identity)>) -> Map<Seq<u8>, Identity> {
    Map::new(
        |user: Seq<u8>| has_entry(entries, user),
        |user: Seq<u8>| entries[choose|i: int| 0 <= i < entries.len() && #[trigger] entries[i].0@ == user].1,
    )
}

/// The set of principals in `list`.
pub open spec fn principal_set(list: Seq<Principal>) -> Set<Seq<u8>> {
    Set::new(|p: Seq<u8>| exists|i: int| 0 <= i < list.len() && #[trigger] list[i]@ == p)
}

proof fn lemma_entry_at(entries: Seq<(Principal, Identity)>, i: int)
    requires
        keys_unique(entries),
        0 <= i < entries.len(),
    ensures
        entries_map(entries).contains_key(entries[i].0@),
        entries_map(entries)[entries[i].0@] == entries[i].1,
{
    let k = entries[i].0@;
    assert(has_entry(entries, k));
    let j = choose|j: int| 0 <= j < entries.len() && #[trigger] entries[j].0@ == k;
    assert(i == j);
}

proof fn lemma_map_after_update(entries: Seq<(Principal, Identity)>, i: int, entry: (Principal, Identity))
    requires
        keys_unique(entries),
        0 <= i < entries.len(),
        entry.0@ == entries[i].0@,
    ensures
        keys_unique(entries.update(i, entry)),
        entries_map(entries.update(i, entry)) == entries_map(entries).insert(entry.0@, entry.1),
{
    let next = entries.update(i, entry);
    assert forall|a: int, b: int|
        0 <= a < next.len() && 0 <= b < next.len() && a != b implies #[trigger] next[a].0@
            != #[trigger] next[b].0@ by {
        assert(next[a].0@ == entries[a].0@);
        assert(next[b].0@ == entries[b].0@);
    }
    lemma_entry_at(next, i);
    assert forall|k: Seq<u8>| k != entry.0@ implies (has_entry(next, k) == has_entry(entries, k)) && (
    has_entry(entries, k) ==> entries_map(next)[k] == entries_map(entries)[k]) by {
        if has_entry(entries, k) {
            let j = choose|j: int| 0 <= j < entries.len() && #[trigger] entries[j].0@ == k;
            assert(next[j].0@ == k);
            lemma_entry_at(next, j);
            lemma_entry_at(entries, j);
        }
        if has_entry(next, k) {
            let j = choose|j: int| 0 <= j < next.len() && #[trigger] next[j].0@ == k;
            assert(entries[j].0@ == k);
        }
    }
    assert(entries_map(next) =~= entries_map(entries).insert(entry.0@, entry.1));
}

proof fn lemma_map_after_push(entries: Seq<(Principal, Identity)>, entry: (Principal, Identity))
    requires
        keys_unique(entries),
        !has_entry(entries, entry.0@),
    ensures
        keys_unique(entries.push(entry)),
        entries_map(entries.push(entry)) == entries_map(entries).insert(entry.0@, entry.1),
{
    let next = entries.push(entry);
    let n = entries.len() as int;
    assert forall|a: int, b: int|
        0 <= a < next.len() && 0 <= b < next.len() && a != b implies #[trigger] next[a].0@
            != #[trigger] next[b].0@ by {
        if a < n && b < n {
            assert(next[a] == entries[a] && next[b] == entries[b]);
        } else if a < n {
            assert(next[a] == entries[a]);
        } else if b < n {
            assert(next[b] == entries[b]);
        }
    }
    lemma_entry_at(next, n);
    assert forall|k: Seq<u8>| k != entry.0@ implies (has_entry(next, k) == has_entry(entries, k)) && (
    has_entry(entries, k) ==> entries_map(next)[k] == entries_map(entries)[k]) by {
        if has_entry(entries, k) {
            let j = choose|j: int| 0 <= j < entries.len() && #[trigger] entries[j].0@ == k;
            assert(next[j] == entries[j]);
            lemma_entry_at(next, j);
            lemma_entry_at(entries, j);
        }
        if has_entry(next, k) {
            let j = choose|j: int| 0 <= j < next.len() && #[trigger] next[j].0@ == k;
            assert(j < n);
            assert(entries[j] == next[j]);
        }
    }
    assert(entries_map(next) =~= entries_map(entries).insert(entry.0@, entry.1));
}

/// The state of one registry instance: the administrator slot, the verifier
/// set and the identity records, owned by the caller and passed explicitly to
/// every operation.
pub struct DigitalIdentityContract {
    admin: Option<Principal>,
    verifiers: Vec<Principal>,
    identities: Vec<(Principal, Identity)>,
}

impl View for DigitalIdentityContract {
    type V = RegistryModel;

    closed spec fn view(&self) -> RegistryModel {
        RegistryModel {
            admin: admin_view(self.admin),
            verifiers: principal_set(self.verifiers@),
            identities: entries_map(self.identities@),
        }
    }
}

impl DigitalIdentityContract {
    /// The internal invariant: one record per principal.
    pub closed spec fn wf(&self) -> bool {
        keys_unique(self.identities@)
    }

    /// A registry with no administrator, no verifier and no record.
    pub fn new() -> (r: DigitalIdentityContract)
        ensures
            r.wf(),
            r@ == RegistryModel::empty(),
    {
        let r = DigitalIdentityContract { admin: None, verifiers: Vec::new(), identities: Vec::new() };
        assert(r@.verifiers =~= Set::empty());
        assert(r@.identities =~= Map::empty());
        r
    }

    fn find_identity(&self, user: &Principal) -> (r: Option<usize>)
        ensures
            match r {
                Some(i) => i < self.identities@.len() && self.identities@[i as int].0@ == user@,
                None => !has_entry(self.identities@, user@),
            },
    {
        let mut i: usize = 0;
        while i < self.identities.len()
            invariant
                0 <= i <= self.identities@.len(),
                forall|j: int| 0 <= j < i ==> #[trigger] self.identities@[j].0@ != user@,
            decreases self.identities@.len() - i,
        {
            if self.identities[i].0.same(user) {
                return Some(i);
            }
            i = i + 1;
        }
        None
    }

    /// Records `admin` as the administrator. Succeeds only on the first call;
    /// later calls fail with `AlreadyInitialized`, whatever `admin` is.
    pub fn initialize(&mut self, admin: Principal) -> (r: Result<(), Error>)
        requires
            old(self).wf(),
        ensures
            final(self).wf(),
            committed(old(self)@.initialize(admin@), old(self)@, final(self)@, r),
            r is Ok <==> old(self)@.admin is None,
    {
        match require_uninitialized(&self.admin) {
            Err(e) => Err(e),
            Ok(()) => {
                self.admin = Some(admin);
                Ok(())
            },
        }
    }

    /// Whether `caller` is the administrator; `NotInitialized` when no
    /// administrator has been recorded.
    pub fn is_admin(&self, caller: &Principal) -> (r: Result<bool, Error>)
        ensures
            r == self@.is_admin(caller@),
    {
        is_admin_of(&self.admin, caller)
    }

    /// Whether `candidate` is in the verifier set.
    pub fn is_verifier(&self, candidate: &Principal) -> (r: bool)
        ensures
            r == self@.is_verifier(candidate@),
    {
        let mut i: usize = 0;
        while i < self.verifiers.len()
            invariant
                0 <= i <= self.verifiers@.len(),
                forall|j: int| 0 <= j < i ==> #[trigger] self.verifiers@[j]@ != candidate@,
            decreases self.verifiers@.len() - i,
        {
            if self.verifiers[i].same(candidate) {
                assert(principal_set(self.verifiers@).contains(candidate@));
                return true;
            }
            i = i + 1;
        }
        false
    }

    /// The administrator `caller` adds `verifier` to the verifier set; adding
    /// a verifier already present changes nothing. `NotInitialized` without an
    /// administrator, `Unauthorized` for any other caller.
    pub fn add_verifier(&mut self, caller: &Principal, verifier: Principal) -> (r: Result<(), Error>)
        requires
            old(self).wf(),
        ensures
            final(self).wf(),
            committed(old(self)@.add_verifier(caller@, verifier@), old(self)@, final(self)@, r),
    {
        match require_admin(&self.admin, caller) {
            Err(e) => Err(e),
            Ok(()) => {
                if !self.is_verifier(&verifier) {
                    let ghost before = self.verifiers@;
                    self.verifiers.push(verifier);
                    assert(principal_set(self.verifiers@) =~= principal_set(before).insert(
                        self.verifiers@.last()@,
                    )) by {
                        assert forall|p: Seq<u8>| #[trigger]
                            principal_set(before).contains(p) implies principal_set(
                            self.verifiers@,
                        ).contains(p) by {
                            let j = choose|j: int| 0 <= j < before.len() && #[trigger] before[j]@ == p;
                            assert(self.verifiers@[j] == before[j]);
                        }
                        assert forall|p: Seq<u8>| #[trigger]
                            principal_set(self.verifiers@).contains(p) && p != self.verifiers@.last()@ implies principal_set(
                            before,
                        ).contains(p) by {
                            let j = choose|j: int|
                                0 <= j < self.verifiers@.len() && #[trigger] self.verifiers@[j]@ == p;
                            assert(before[j] == self.verifiers@[j]);
                        }
                        assert(principal_set(self.verifiers@).contains(
                            self.verifiers@[before.len() as int]@,
                        ));
                    }
                } else {
                    assert(self@.verifiers.insert(verifier@) =~= self@.verifiers);
                }
                Ok(())
            },
        }
    }

    /// `user` registers the claim hash `data_hash`: the record becomes that
    /// hash with status `Pending`, replacing any earlier record of `user`.
    /// Always succeeds, and yields the `Register` notification.
    pub fn register(&mut self, user: Principal, data_hash: [u8; 32]) -> (r: Event)
        requires
            old(self).wf(),
        ensures
            final(self).wf(),
            final(self)@ == old(self)@.register(user@, data_hash),
            r.is_register_of(user@),
    {
        let record = Identity::pending(data_hash);
        let key = user.clone();
        match self.find_identity(&user) {
            Some(i) => {
                proof {
                    lemma_map_after_update(self.identities@, i as int, (key, record));
                }
                self.identities.set(i, (key, record));
            },
            None => {
                proof {
                    lemma_map_after_push(self.identities@, (key, record));
                }
                self.identities.push((key, record));
            },
        }
        Event::Register { user }
    }

    /// The verifier `verifier` sets the status with code `code` on `user`'s
    /// record, keeping its claim hash. Fails with `IdentityNotFound` when
    /// `user` has no record, else with `Unauthorized` when `verifier` is not a
    /// verifier, else with `InvalidStatus` when `code` is not 0 to 3. Any status
    /// may follow any other. On success yields the `Verify` notification.
    pub fn verify(&mut self, verifier: Principal, user: Principal, code: u32) -> (r: Result<Event, Error>)
        requires
            old(self).wf(),
        ensures
            final(self).wf(),
            committed(old(self)@.verify(verifier@, user@, code), old(self)@, final(self)@, r),
            r matches Ok(ev) ==> ev.is_verify_of(verifier@, user@, code),
    {
        let found = self.find_identity(&user);
        let record = match found {
            Some(i) => {
                proof {
                    lemma_entry_at(self.identities@, i as int);
                }
                Some(self.identities[i].1)
            },
            None => None,
        };
        assert(record == self@.identity_of(user@));
        let caller_is_verifier = self.is_verifier(&verifier);
        match apply_verify(record, caller_is_verifier, code) {
            Err(e) => Err(e),
            Ok(updated) => {
                let i = found.unwrap();
                let key = user.clone();
                proof {
                    lemma_map_after_update(self.identities@, i as int, (key, updated));
                }
                self.identities.set(i, (key, updated));
                Ok(Event::Verify { verifier, user, status: code })
            },
        }
    }

    /// The record of `user`, or nothing when `user` never registered; never
    /// an error.
    pub fn get_identity(&self, user: &Principal) -> (r: Option<Identity>)
        requires
            self.wf(),
        ensures
            r == self@.identity_of(user@),
    {
        match self.find_identity(user) {
            Some(i) => {
                proof {
                    lemma_entry_at(self.identities@, i as int);
                }
                Some(self.identities[i].1)
            },
            None => None,
        }
    }
}

} // verus!
