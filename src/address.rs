//! Deterministic addressing of registry entries.
//!
//! An address is the namespace tag, then one byte holding the username's
//! length, then the username's bytes. The length prefix makes the encoding
//! canonical: two different valid usernames never share an address.
use vstd::prelude::*;

use vstd::string::StringSliceAdditionalSpecFns;

use crate::error::RegistryError;

verus! {

/// The largest number of bytes a username may have.
pub const MAX_USERNAME_LEN: usize = 32;

/// The domain tag that every address starts with: the ASCII bytes of `username`.
pub open spec fn namespace_tag() -> Seq<u8> {
    seq![0x75u8, 0x73u8, 0x65u8, 0x72u8, 0x6eu8, 0x61u8, 0x6du8, 0x65u8]
}

/// Bytes allowed in a username: ASCII letters, digits, `_`, `-` and `.`.
pub open spec fn allowed_byte(b: u8) -> bool {
    (0x61 <= b && b <= 0x7a) || (0x41 <= b && b <= 0x5a) || (0x30 <= b && b <= 0x39)
        || b == 0x5f || b == 0x2d || b == 0x2e
}

/// A valid username is non-empty, at most `MAX_USERNAME_LEN` bytes long,
/// and made of allowed bytes only.
pub open spec fn valid_username(u: Seq<u8>) -> bool {
    &&& 0 < u.len() <= MAX_USERNAME_LEN
    &&& forall|i: int| 0 <= i < u.len() ==> #[trigger] allowed_byte(u[i])
}

/// The address of the entry for username `u`.
pub open spec fn address_of(u: Seq<u8>) -> Seq<u8> {
    namespace_tag() + seq![u.len() as u8] + u
}

/// Whether `b` may appear in a username.
pub fn is_allowed_byte(b: u8) -> (r: bool)
    ensures
        r == allowed_byte(b),
{
    (0x61 <= b && b <= 0x7a) || (0x41 <= b && b <= 0x5a) || (0x30 <= b && b <= 0x39) || b == 0x5f
        || b == 0x2d || b == 0x2e
}

/// Checks a username, given as its bytes, against the length and charset rules.
pub fn is_valid_username(u: &[u8]) -> (r: bool)
    ensures
        r == valid_username(u@),
{
    if u.len() == 0 || u.len() > MAX_USERNAME_LEN {
        return false;
    }
    let mut i: usize = 0;
    while i < u.len()
        invariant
            i <= u@.len(),
            forall|j: int| 0 <= j < i ==> #[trigger] allowed_byte(u@[j]),
        decreases u@.len() - i,
    {
        if !is_allowed_byte(u[i]) {
            return false;
        }
        i = i + 1;
    }
    true
}

/// The address of the entry for a valid username, given as its bytes.
pub fn address_for(u: &[u8]) -> (r: Vec<u8>)
    requires
        valid_username(u@),
    ensures
        r@ == address_of(u@),
{
    let mut r: Vec<u8> = vec![0x75u8, 0x73u8, 0x65u8, 0x72u8, 0x6eu8, 0x61u8, 0x6du8, 0x65u8];
    r.push(u.len() as u8);
    let mut i: usize = 0;
    while i < u.len()
        invariant
            i <= u@.len(),
            r@ == namespace_tag() + seq![u@.len() as u8] + u@.subrange(0, i as int),
        decreases u@.len() - i,
    {
        r.push(u[i]);
        proof {
            assert(u@.subrange(0, i + 1) == u@.subrange(0, i as int).push(u@[i as int]));
        }
        i = i + 1;
    }
    assert(u@.subrange(0, u@.len() as int) == u@);
    r
}

/// A copy of `u` that the caller owns.
pub fn copy_bytes(u: &[u8]) -> (r: Vec<u8>)
    ensures
        r@ == u@,
{
    let mut r: Vec<u8> = Vec::new();
    let mut i: usize = 0;
    while i < u.len()
        invariant
            i <= u@.len(),
            r@ == u@.subrange(0, i as int),
        decreases u@.len() - i,
    {
        r.push(u[i]);
        proof {
            assert(u@.subrange(0, i + 1) == u@.subrange(0, i as int).push(u@[i as int]));
        }
        i = i + 1;
    }
    assert(u@.subrange(0, u@.len() as int) == u@);
    r
}

/// Derives the address of the entry for `username`, or rejects the
/// username before deriving anything.
pub fn derive_address(username: &str) -> (r: Result<Vec<u8>, RegistryError>)
    ensures
        match r {
            Ok(a) => valid_username(username.spec_bytes()) && a@ == address_of(
                username.spec_bytes(),
            ),
            Err(e) => !valid_username(username.spec_bytes()) && e == RegistryError::InvalidUsername,
        },
{
    let bytes = username.as_bytes();
    if is_valid_username(bytes) {
        Ok(address_for(bytes))
    } else {
        Err(RegistryError::InvalidUsername)
    }
}

/// The same username always has the same address, and two different valid
/// usernames never share one.
pub proof fn lemma_address_injective(a: Seq<u8>, b: Seq<u8>)
    requires
        valid_username(a),
        valid_username(b),
    ensures
        address_of(a) == address_of(b) <==> a == b,
{
    if address_of(a) == address_of(b) {
        let n = namespace_tag().len() + 1;
        assert(address_of(a)[n - 1] == a.len() as u8);
        assert(address_of(b)[n - 1] == b.len() as u8);
        assert(a.len() == b.len());
        assert forall|i: int| 0 <= i < a.len() implies a[i] == b[i] by {
            assert(address_of(a)[n + i] == a[i]);
            assert(address_of(b)[n + i] == b[i]);
        }
        assert(a =~= b);
    }
}

} // verus!
