//! Properties of the registry operations, proved over their spec functions.
use vstd::prelude::*;

use crate::address::{address_of, valid_username};
use crate::error::RegistryError;
use crate::registry::{lookup_spec, register_spec, update_spec, RegistryMap};

verus! {

/// Registering the same username twice succeeds at most once. When the first
/// call succeeds, the second fails with `UsernameTaken`, changes nothing, and
/// the stored entry is the first caller's. On a free valid username the first
/// call does succeed.
pub proof fn law_register_at_most_once(
    m: RegistryMap,
    u: Seq<u8>,
    s1: Seq<u8>,
    k1: Seq<u8>,
    s2: Seq<u8>,
    k2: Seq<u8>,
)
    ensures
        !(register_spec(m, u, s1, k1).1 is Ok && register_spec(
            register_spec(m, u, s1, k1).0,
            u,
            s2,
            k2,
        ).1 is Ok),
        register_spec(m, u, s1, k1).1 is Ok ==> register_spec(
            register_spec(m, u, s1, k1).0,
            u,
            s2,
            k2,
        ) == (register_spec(m, u, s1, k1).0, Err::<(), RegistryError>(RegistryError::UsernameTaken)),
        register_spec(m, u, s1, k1).1 is Ok ==> lookup_spec(
            register_spec(register_spec(m, u, s1, k1).0, u, s2, k2).0,
            u,
        ) == Ok::<(Seq<u8>, Seq<u8>), RegistryError>((s1, k1)),
        valid_username(u) && !m.contains_key(address_of(u)) ==> register_spec(m, u, s1, k1).1
            == Ok::<(), RegistryError>(()),
{
}

/// Right after a successful registration, a lookup of the username returns
/// the registering signer as owner and the submitted key.
pub proof fn law_read_after_write(m: RegistryMap, u: Seq<u8>, signer: Seq<u8>, key: Seq<u8>)
    requires
        register_spec(m, u, signer, key).1 is Ok,
    ensures
        lookup_spec(register_spec(m, u, signer, key).0, u) == Ok::<(Seq<u8>, Seq<u8>), RegistryError>(
            (signer, key),
        ),
{
}

/// An update by anyone but the owner fails with `Unauthorized` and leaves the
/// entry as it was; the same update by the owner succeeds, and a lookup then
/// returns the new key.
pub proof fn law_update_authorization(
    m: RegistryMap,
    u: Seq<u8>,
    owner: Seq<u8>,
    other: Seq<u8>,
    key: Seq<u8>,
    new_key: Seq<u8>,
)
    requires
        lookup_spec(m, u) == Ok::<(Seq<u8>, Seq<u8>), RegistryError>((owner, key)),
        other != owner,
    ensures
        update_spec(m, u, other, new_key) == (m, Err::<(), RegistryError>(RegistryError::Unauthorized)),
        lookup_spec(update_spec(m, u, other, new_key).0, u) == Ok::<
            (Seq<u8>, Seq<u8>),
            RegistryError,
        >((owner, key)),
        update_spec(m, u, owner, new_key).1 == Ok::<(), RegistryError>(()),
        lookup_spec(update_spec(m, u, owner, new_key).0, u) == Ok::<
            (Seq<u8>, Seq<u8>),
            RegistryError,
        >((owner, new_key)),
{
}

/// For a username that was never registered, lookup and update both fail
/// with `UsernameNotFound`, and the update changes nothing.
pub proof fn law_not_found(m: RegistryMap, u: Seq<u8>, signer: Seq<u8>, key: Seq<u8>)
    requires
        !valid_username(u) || !m.contains_key(address_of(u)),
    ensures
        lookup_spec(m, u) == Err::<(Seq<u8>, Seq<u8>), RegistryError>(RegistryError::UsernameNotFound),
        update_spec(m, u, signer, key) == (m, Err::<(), RegistryError>(RegistryError::UsernameNotFound)),
{
}

/// Registering an invalid username fails with `InvalidUsername`, changes
/// nothing, and a lookup of it still reports `UsernameNotFound`.
pub proof fn law_invalid_username_rejected(m: RegistryMap, u: Seq<u8>, signer: Seq<u8>, key: Seq<u8>)
    requires
        !valid_username(u),
    ensures
        register_spec(m, u, signer, key) == (m, Err::<(), RegistryError>(RegistryError::InvalidUsername)),
        lookup_spec(register_spec(m, u, signer, key).0, u) == Err::<
            (Seq<u8>, Seq<u8>),
            RegistryError,
        >(RegistryError::UsernameNotFound),
{
}

/// Two registrations of one free username race: whichever is applied first
/// wins, the other fails with `UsernameTaken`, and the lookup afterwards
/// returns exactly the winner's owner and key.
pub proof fn law_register_race(
    m: RegistryMap,
    u: Seq<u8>,
    s1: Seq<u8>,
    k1: Seq<u8>,
    s2: Seq<u8>,
    k2: Seq<u8>,
)
    requires
        valid_username(u),
        !m.contains_key(address_of(u)),
    ensures
        register_spec(m, u, s1, k1).1 == Ok::<(), RegistryError>(()),
        register_spec(register_spec(m, u, s1, k1).0, u, s2, k2).1 == Err::<(), RegistryError>(
            RegistryError::UsernameTaken,
        ),
        lookup_spec(register_spec(register_spec(m, u, s1, k1).0, u, s2, k2).0, u) == Ok::<
            (Seq<u8>, Seq<u8>),
            RegistryError,
        >((s1, k1)),
        register_spec(m, u, s2, k2).1 == Ok::<(), RegistryError>(()),
        register_spec(register_spec(m, u, s2, k2).0, u, s1, k1).1 == Err::<(), RegistryError>(
            RegistryError::UsernameTaken,
        ),
        lookup_spec(register_spec(register_spec(m, u, s2, k2).0, u, s1, k1).0, u) == Ok::<
            (Seq<u8>, Seq<u8>),
            RegistryError,
        >((s2, k2)),
{
}

} // verus!
