use vstd::prelude::*;

verus! {

/// The ways a registry operation can fail. Each is terminal and leaves the
/// registry unchanged.
#[derive(Debug, Clone, Copy, PartialEq, Eq, Structural)]
pub enum RegistryError {
    /// The username is empty, too long, or holds a byte outside the allowed set.
    InvalidUsername,
    /// An entry already exists for the username.
    UsernameTaken,
    /// No entry exists for the username.
    UsernameNotFound,
    /// The caller is not the owner recorded in the entry.
    Unauthorized,
}

} // verus!
