//! A registry of privacy-preserving identity claims: an administrator, the
//! verifiers it appoints, and one hashed claim with a lifecycle status per user.

pub mod contract;
pub mod identity;
pub mod laws;
pub mod model;
pub mod principal;
pub mod rules;
pub mod status;

pub use contract::DigitalIdentityContract;
pub use identity::{Error, Event, Identity};
pub use principal::Principal;
pub use rules::{apply_verify, is_admin_of, require_admin, require_uninitialized};
pub use status::IdentityStatus;
