//! The three registry operations: register, lookup and key update.
//!
//! Each operation is described by a spec function from the registry's state
//! (a map from address to entry) and the call's inputs to the next state and
//! the result; the executable operations follow these exactly.
use vstd::prelude::*;

use vstd::string::StringSliceAdditionalSpecFns;

use crate::address::{address_for, address_of, copy_bytes, is_valid_username, valid_username};
use crate::error::RegistryError;
use crate::store::{Bytes32, Entry, EntryModel, Store};

verus! {

/// The registry's state: the entry stored at each occupied address.
pub type RegistryMap = Map<Seq<u8>, EntryModel>;

/// Every entry sits at the address of its own valid username.
pub open spec fn registry_wf(m: RegistryMap) -> bool {
    forall|a: Seq<u8>|
        #[trigger] m.contains_key(a) ==> valid_username(m[a].username) && a == address_of(
            m[a].username,
        )
}

/// Registering username `u` for `signer` with key `key`.
pub open spec fn register_spec(m: RegistryMap, u: Seq<u8>, signer: Seq<u8>, key: Seq<u8>) -> (
    RegistryMap,
    Result<(), RegistryError>,
) {
    if !valid_username(u) {
        (m, Err(RegistryError::InvalidUsername))
    } else if m.contains_key(address_of(u)) {
        (m, Err(RegistryError::UsernameTaken))
    } else {
        (
            m.insert(address_of(u), EntryModel { username: u, owner: signer, encryption_key: key }),
            Ok(()),
        )
    }
}

/// Looking up username `u`: its owner and its current key. A username that
/// is not valid can have no entry, so it is reported as not found.
pub open spec fn lookup_spec(m: RegistryMap, u: Seq<u8>) -> Result<(Seq<u8>, Seq<u8>), RegistryError> {
    if valid_username(u) && m.contains_key(address_of(u)) {
        Ok((m[address_of(u)].owner, m[address_of(u)].encryption_key))
    } else {
        Err(RegistryError::UsernameNotFound)
    }
}

/// Replacing the key of username `u` with `key` on behalf of `signer`.
pub open spec fn update_spec(m: RegistryMap, u: Seq<u8>, signer: Seq<u8>, key: Seq<u8>) -> (
    RegistryMap,
    Result<(), RegistryError>,
) {
    if !valid_username(u) || !m.contains_key(address_of(u)) {
        (m, Err(RegistryError::UsernameNotFound))
    } else if m[address_of(u)].owner != signer {
        (m, Err(RegistryError::Unauthorized))
    } else {
        (
            m.insert(address_of(u), EntryModel { encryption_key: key, ..m[address_of(u)] }),
            Ok(()),
        )
    }
}

/// What a lookup returns: the entry's owner and its current key.
#[derive(Debug, Clone, Copy, PartialEq, Eq)]
pub struct KeyRecord {
    pub owner: Bytes32,
    pub encryption_key: Bytes32,
}

/// The username registry.
pub struct Registry {
    store: Store,
}

impl View for Registry {
    type V = RegistryMap;

    closed spec fn view(&self) -> RegistryMap {
        self.store@
    }
}

impl Registry {
    /// The store is well formed and every entry sits at its username's address.
    pub closed spec fn wf(&self) -> bool {
        self.store.wf() && registry_wf(self.store@)
    }

    /// A registry with no entries.
    pub fn new() -> (r: Registry)
        ensures
            r.wf(),
            r@ == Map::<Seq<u8>, EntryModel>::empty(),
    {
        Registry { store: Store::new() }
    }

    /// Claims `username` for `signer`, storing `encryption_key` as its key.
    pub fn register_username(&mut self, signer: Bytes32, username: &str, encryption_key: Bytes32)
        -> (r: Result<(), RegistryError>)
        requires
            old(self).wf(),
        ensures
            final(self).wf(),
            (final(self)@, r) == register_spec(
                old(self)@,
                username.spec_bytes(),
                signer@,
                encryption_key@,
            ),
    {
        let bytes = username.as_bytes();
        if !is_valid_username(bytes) {
            return Err(RegistryError::InvalidUsername);
        }
        let address = address_for(bytes);
        let entry = Entry { username: copy_bytes(bytes), owner: signer, encryption_key };
        let r = self.store.create(address, entry);
        proof {
            let m = final(self)@;
            assert forall|a: Seq<u8>| #[trigger] m.contains_key(a) implies valid_username(
                m[a].username,
            ) && a == address_of(m[a].username) by {
                if a != address_of(bytes@) {
                    assert(old(self)@.contains_key(a));
                }
            }
        }
        r
    }

    /// The owner and current key of `username`.
    pub fn lookup_username(&self, username: &str) -> (r: Result<KeyRecord, RegistryError>)
        requires
            self.wf(),
        ensures
            match r {
                Ok(k) => lookup_spec(self@, username.spec_bytes()) == Ok::<
                    (Seq<u8>, Seq<u8>),
                    RegistryError,
                >((k.owner@, k.encryption_key@)),
                Err(e) => lookup_spec(self@, username.spec_bytes()) == Err::<
                    (Seq<u8>, Seq<u8>),
                    RegistryError,
                >(e),
            },
    {
        let bytes = username.as_bytes();
        if !is_valid_username(bytes) {
            return Err(RegistryError::UsernameNotFound);
        }
        let address = address_for(bytes);
        match self.store.get(address.as_slice()) {
            Some(e) => Ok(KeyRecord { owner: e.owner, encryption_key: e.encryption_key }),
            None => Err(RegistryError::UsernameNotFound),
        }
    }

    /// Replaces the key of `username` with `new_key`, if `signer` owns it.
    pub fn update_encryption_key(&mut self, signer: Bytes32, username: &str, new_key: Bytes32)
        -> (r: Result<(), RegistryError>)
        requires
            old(self).wf(),
        ensures
            final(self).wf(),
            (final(self)@, r) == update_spec(old(self)@, username.spec_bytes(), signer@, new_key@),
    {
        let bytes = username.as_bytes();
        if !is_valid_username(bytes) {
            return Err(RegistryError::UsernameNotFound);
        }
        let address = address_for(bytes);
        let r = self.store.set_key_if_owner(address.as_slice(), &signer, new_key);
        proof {
            let m = final(self)@;
            assert forall|a: Seq<u8>| #[trigger] m.contains_key(a) implies valid_username(
                m[a].username,
            ) && a == address_of(m[a].username) by {
                assert(old(self)@.contains_key(a));
            }
        }
        r
    }
}

} // verus!
