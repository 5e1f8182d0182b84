use dinh_danh_so::{
    apply_verify, is_admin_of, require_admin, require_uninitialized, DigitalIdentityContract, Error,
    Event, Identity, IdentityStatus, Principal,
};

fn p(name: &str) -> Principal {
    Principal::new(name.as_bytes().to_vec())
}

fn hash_of(byte: u8) -> [u8; 32] {
    [byte; 32]
}

fn setup(admin: &str, verifier: &str) -> DigitalIdentityContract {
    let mut c = DigitalIdentityContract::new();
    assert_eq!(c.initialize(p(admin)), Ok(()));
    assert_eq!(c.add_verifier(&p(admin), p(verifier)), Ok(()));
    c
}

#[test]
fn status_codes_round_trip() {
    assert_eq!(IdentityStatus::try_from(0u32), Ok(IdentityStatus::Unregistered));
    assert_eq!(IdentityStatus::try_from(1u32), Ok(IdentityStatus::Pending));
    assert_eq!(IdentityStatus::try_from(2u32), Ok(IdentityStatus::Verified));
    assert_eq!(IdentityStatus::try_from(3u32), Ok(IdentityStatus::Revoked));
    assert_eq!(IdentityStatus::try_from(4u32), Err(()));
    assert_eq!(IdentityStatus::try_from(u32::MAX), Err(()));
    assert_eq!(IdentityStatus::Revoked.to_code(), 3);
    assert_eq!(IdentityStatus::Unregistered.to_code(), 0);
}

#[test]
fn principal_equality_is_by_bytes() {
    assert!(p("alice").same(&p("alice")));
    assert!(!p("alice").same(&p("alicf")));
    assert!(!p("alice").same(&p("alic")));
    assert!(p("").same(&p("")));
    assert_eq!(p("bob").clone().as_bytes(), b"bob");
}

#[test]
fn initialize_only_once() {
    let mut c = DigitalIdentityContract::new();
    assert_eq!(c.is_admin(&p("a")), Err(Error::NotInitialized));
    assert_eq!(c.initialize(p("a")), Ok(()));
    assert_eq!(c.initialize(p("a")), Err(Error::AlreadyInitialized));
    assert_eq!(c.initialize(p("b")), Err(Error::AlreadyInitialized));
    assert_eq!(c.is_admin(&p("a")), Ok(true));
    assert_eq!(c.is_admin(&p("b")), Ok(false));
}

#[test]
fn add_verifier_before_initialize_fails() {
    let mut c = DigitalIdentityContract::new();
    assert_eq!(c.add_verifier(&p("a"), p("v")), Err(Error::NotInitialized));
    assert!(!c.is_verifier(&p("v")));
}

#[test]
fn add_verifier_by_non_admin_is_unauthorized() {
    let mut c = DigitalIdentityContract::new();
    c.initialize(p("a")).unwrap();
    assert_eq!(c.add_verifier(&p("mallory"), p("v")), Err(Error::Unauthorized));
    assert!(!c.is_verifier(&p("v")));
    assert_eq!(c.add_verifier(&p("mallory"), p("mallory")), Err(Error::Unauthorized));
    assert!(!c.is_verifier(&p("mallory")));
}

#[test]
fn add_verifier_is_idempotent() {
    let mut c = setup("a", "v");
    assert!(c.is_verifier(&p("v")));
    assert_eq!(c.add_verifier(&p("a"), p("v")), Ok(()));
    assert!(c.is_verifier(&p("v")));
    assert!(!c.is_verifier(&p("w")));
    assert!(!c.is_verifier(&p("a")));
}

#[test]
fn register_creates_pending_record() {
    let mut c = DigitalIdentityContract::new();
    let ev = c.register(p("u"), hash_of(0x11));
    match ev {
        Event::Register { user } => assert!(user.same(&p("u"))),
        _ => panic!("wrong event"),
    }
    assert_eq!(
        c.get_identity(&p("u")),
        Some(Identity { data_hash: hash_of(0x11), status: IdentityStatus::Pending })
    );
}

#[test]
fn register_overwrites_verified_record() {
    let mut c = setup("a", "v");
    c.register(p("u"), hash_of(1));
    assert!(c.verify(p("v"), p("u"), 2).is_ok());
    assert_eq!(c.get_identity(&p("u")).unwrap().status, IdentityStatus::Verified);
    c.register(p("u"), hash_of(2));
    assert_eq!(
        c.get_identity(&p("u")),
        Some(Identity { data_hash: hash_of(2), status: IdentityStatus::Pending })
    );
}

#[test]
fn verify_unregistered_user_not_found() {
    let mut c = setup("a", "v");
    assert_eq!(c.verify(p("v"), p("u"), 2).err(), Some(Error::IdentityNotFound));
    assert_eq!(c.verify(p("stranger"), p("u"), 2).err(), Some(Error::IdentityNotFound));
    assert_eq!(c.verify(p("v"), p("u"), 9).err(), Some(Error::IdentityNotFound));
    assert_eq!(c.get_identity(&p("u")), None);
}

#[test]
fn verify_by_non_verifier_unauthorized() {
    let mut c = setup("a", "v");
    c.register(p("u"), hash_of(5));
    assert_eq!(c.verify(p("stranger"), p("u"), 2).err(), Some(Error::Unauthorized));
    assert_eq!(c.verify(p("a"), p("u"), 2).err(), Some(Error::Unauthorized));
    assert_eq!(c.verify(p("stranger"), p("u"), 7).err(), Some(Error::Unauthorized));
    assert_eq!(
        c.get_identity(&p("u")),
        Some(Identity { data_hash: hash_of(5), status: IdentityStatus::Pending })
    );
}

#[test]
fn verify_then_reset_to_pending() {
    let mut c = setup("a", "v");
    c.register(p("u"), hash_of(7));
    let ev = c.verify(p("v"), p("u"), 2).unwrap();
    match ev {
        Event::Verify { verifier, user, status } => {
            assert!(verifier.same(&p("v")));
            assert!(user.same(&p("u")));
            assert_eq!(status, 2);
        }
        _ => panic!("wrong event"),
    }
    assert_eq!(
        c.get_identity(&p("u")),
        Some(Identity { data_hash: hash_of(7), status: IdentityStatus::Verified })
    );
    assert!(c.verify(p("v"), p("u"), 1).is_ok());
    assert_eq!(
        c.get_identity(&p("u")),
        Some(Identity { data_hash: hash_of(7), status: IdentityStatus::Pending })
    );
    assert!(c.verify(p("v"), p("u"), 0).is_ok());
    assert_eq!(c.get_identity(&p("u")).unwrap().status, IdentityStatus::Unregistered);
}

#[test]
fn verify_invalid_status_keeps_record() {
    let mut c = setup("a", "v");
    c.register(p("u"), hash_of(3));
    assert!(c.verify(p("v"), p("u"), 2).is_ok());
    assert_eq!(c.verify(p("v"), p("u"), 7).err(), Some(Error::InvalidStatus));
    assert_eq!(c.verify(p("v"), p("u"), 4).err(), Some(Error::InvalidStatus));
    assert_eq!(
        c.get_identity(&p("u")),
        Some(Identity { data_hash: hash_of(3), status: IdentityStatus::Verified })
    );
}

#[test]
fn get_identity_absent_is_none() {
    let mut c = DigitalIdentityContract::new();
    assert_eq!(c.get_identity(&p("nobody")), None);
    c.register(p("someone"), hash_of(9));
    assert_eq!(c.get_identity(&p("nobody")), None);
}

#[test]
fn records_are_kept_per_user() {
    let mut c = setup("a", "v");
    c.register(p("u1"), hash_of(1));
    c.register(p("u2"), hash_of(2));
    assert!(c.verify(p("v"), p("u2"), 3).is_ok());
    assert_eq!(
        c.get_identity(&p("u1")),
        Some(Identity { data_hash: hash_of(1), status: IdentityStatus::Pending })
    );
    assert_eq!(
        c.get_identity(&p("u2")),
        Some(Identity { data_hash: hash_of(2), status: IdentityStatus::Revoked })
    );
}

#[test]
fn end_to_end_register_verify_revoke() {
    let mut c = DigitalIdentityContract::new();
    assert_eq!(c.initialize(p("A")), Ok(()));
    assert_eq!(c.add_verifier(&p("A"), p("V")), Ok(()));
    c.register(p("U"), [0xAB; 32]);
    assert_eq!(c.get_identity(&p("U")).unwrap().status, IdentityStatus::Pending);
    assert!(c.verify(p("V"), p("U"), 2).is_ok());
    assert_eq!(
        c.get_identity(&p("U")),
        Some(Identity { data_hash: [0xAB; 32], status: IdentityStatus::Verified })
    );
    assert!(c.verify(p("V"), p("U"), 3).is_ok());
    assert_eq!(
        c.get_identity(&p("U")),
        Some(Identity { data_hash: [0xAB; 32], status: IdentityStatus::Revoked })
    );
}

#[test]
fn admin_gate_on_stored_slot() {
    assert_eq!(require_admin(&None, &p("a")), Err(Error::NotInitialized));
    assert_eq!(require_admin(&Some(p("a")), &p("b")), Err(Error::Unauthorized));
    assert_eq!(require_admin(&Some(p("a")), &p("a")), Ok(()));
    assert_eq!(is_admin_of(&Some(p("a")), &p("b")), Ok(false));
    assert_eq!(require_uninitialized(&None), Ok(()));
    assert_eq!(require_uninitialized(&Some(p("a"))), Err(Error::AlreadyInitialized));
}

#[test]
fn verify_rule_on_single_record() {
    let rec = Identity { data_hash: hash_of(4), status: IdentityStatus::Pending };
    assert_eq!(apply_verify(None, true, 2), Err(Error::IdentityNotFound));
    assert_eq!(apply_verify(None, false, 9), Err(Error::IdentityNotFound));
    assert_eq!(apply_verify(Some(rec), false, 2), Err(Error::Unauthorized));
    assert_eq!(apply_verify(Some(rec), true, 7), Err(Error::InvalidStatus));
    assert_eq!(
        apply_verify(Some(rec), true, 3),
        Ok(Identity { data_hash: hash_of(4), status: IdentityStatus::Revoked })
    );
    assert_eq!(Identity::pending(hash_of(4)), rec);
}
