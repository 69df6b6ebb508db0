//! A namespace registry: short human-readable handles, each mapped to the
//! identity that controls it and to a payment destination.
//!
//! A handle is registered once, by whoever proves control of the identity
//! that becomes its authority. From then on only the entry's current authority
//! can hand the entry to another identity or route its payments elsewhere.
//! The entry of a handle lives at a location derived from the handle alone,
//! so two registrations of one handle meet at the same place and the first
//! one wins.

pub mod entry;
pub mod error;
pub mod handle;
pub mod identity;
pub mod laws;
pub mod model;
pub mod registry;
pub mod slot;

pub use crate::entry::{Claim, Register, RegistryEntry, UpdateAuthority};
pub use crate::error::StealthError;
pub use crate::handle::{validate_handle, MAX_HANDLE_LEN};
pub use crate::identity::Identity;
pub use crate::registry::{register, update_authority, update_destination, Registry};
pub use crate::slot::{derive_slot, Slot};
