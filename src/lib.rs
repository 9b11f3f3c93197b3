//! A registry that maps usernames to 32-byte encryption keys.
//!
//! Each entry lives at an address derived from its username alone, is
//! created exactly once, can be read by anyone, and its key can be changed
//! only by the identity that created it.
pub mod address;
pub mod error;
pub mod laws;
pub mod registry;
pub mod store;
