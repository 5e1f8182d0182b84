use vstd::prelude::*;

verus! {

/// Lifecycle stage of an identity record. `Unregistered` stands for "no record" and is
/// never stored by the registry itself.
#[derive(Clone, Copy, Debug, PartialEq, Eq, Structural)]
pub enum IdentityStatus {
    Unregistered,
    Pending,
    Verified,
    Revoked,
}

impl IdentityStatus {
    /// The fixed integer encoding: 0 = Unregistered, 1 = Pending, 2 = Verified, 3 = Revoked.
    pub open spec fn code(self) -> u32 {
        match self {
            IdentityStatus::Unregistered => 0,
            IdentityStatus::Pending => 1,
            IdentityStatus::Verified => 2,
            IdentityStatus::Revoked => 3,
        }
    }

    /// The status encoded by `value`, if `value` is one of the four codes.
    pub open spec fn decode(value: u32) -> Option<IdentityStatus> {
        if value == 0 {
            Some(IdentityStatus::Unregistered)
        } else if value == 1 {
            Some(IdentityStatus::Pending)
        } else if value == 2 {
            Some(IdentityStatus::Verified)
        } else if value == 3 {
            Some(IdentityStatus::Revoked)
        } else {
            None
        }
    }

    /// The integer code of this status.
    pub fn to_code(self) -> (r: u32)
        ensures
            r == self.code(),
            IdentityStatus::decode(r) == Some(self),
    {
        match self {
            IdentityStatus::Unregistered => 0,
            IdentityStatus::Pending => 1,
            IdentityStatus::Verified => 2,
            IdentityStatus::Revoked => 3,
        }
    }
}

impl TryFrom<u32> for IdentityStatus {
    type Error = ();

    fn try_from(value: u32) -> (r: Result<IdentityStatus, ()>)
        ensures
            r matches Ok(s) ==> IdentityStatus::decode(value) == Some(s),
            r is Err <==> IdentityStatus::decode(value) is None,
    {
        match value {
            0 => Ok(IdentityStatus::Unregistered),
            1 => Ok(IdentityStatus::Pending),
            2 => Ok(IdentityStatus::Verified),
            3 => Ok(IdentityStatus::Revoked),
            _ => Err(()),
        }
    }
}

impl vstd::std_specs::convert::TryFromSpecImpl<u32> for IdentityStatus {
    open spec fn obeys_try_from_spec() -> bool {
        true
    }

    open spec fn try_from_spec(value: u32) -> Result<IdentityStatus, ()> {
        match IdentityStatus::decode(value) {
            Some(s) => Ok(s),
            None => Err(()),
        }
    }
}

/// Every status round-trips through its code, and exactly the codes 0 to 3 decode.
pub proof fn lemma_code_round_trip(s: IdentityStatus, value: u32)
    ensures
        IdentityStatus::decode(s.code()) == Some(s),
        IdentityStatus::decode(value) is Some <==> value <= 3,
        IdentityStatus::decode(value) matches Some(t) ==> t.code() == value,
{
}

} // verus!
