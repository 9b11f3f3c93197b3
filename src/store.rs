//! The persistent entry store, keyed by address.
//!
//! `create` claims a free address and `set_key_if_owner` performs the owner
//! check and the key write as one step on `&mut self`, so no caller can see
//! a half-written entry or slip a write between the check and the update.
use vstd::prelude::*;

use crate::error::RegistryError;

verus! {

/// An identity or a key: 32 opaque bytes.
pub type Bytes32 = [u8; 32];

/// What an entry holds, as mathematical values.
pub struct EntryModel {
    pub username: Seq<u8>,
    pub owner: Seq<u8>,
    pub encryption_key: Seq<u8>,
}

/// A registry entry: the username's bytes, the identity that created the
/// entry, and its current encryption key.
pub struct Entry {
    pub username: Vec<u8>,
    pub owner: Bytes32,
    pub encryption_key: Bytes32,
}

impl View for Entry {
    type V = EntryModel;

    open spec fn view(&self) -> EntryModel {
        EntryModel {
            username: self.username@,
            owner: self.owner@,
            encryption_key: self.encryption_key@,
        }
    }
}

struct Slot {
    address: Vec<u8>,
    entry: Entry,
}

/// Entries keyed by address; an address holds at most one entry.
pub struct Store {
    slots: Vec<Slot>,
    model: Ghost<Map<Seq<u8>, EntryModel>>,
}

/// Whether two byte strings are equal.
pub fn same_bytes(a: &[u8], b: &[u8]) -> (r: bool)
    ensures
        r == (a@ == b@),
{
    if a.len() != b.len() {
        return false;
    }
    let mut i: usize = 0;
    while i < a.len()
        invariant
            a@.len() == b@.len(),
            i <= a@.len(),
            forall|j: int| 0 <= j < i ==> a@[j] == b@[j],
        decreases a@.len() - i,
    {
        if a[i] != b[i] {
            return false;
        }
        i = i + 1;
    }
    assert(a@ =~= b@);
    true
}

impl View for Store {
    type V = Map<Seq<u8>, EntryModel>;

    closed spec fn view(&self) -> Map<Seq<u8>, EntryModel> {
        self.model@
    }
}

impl Store {
    /// The slots hold exactly the entries of the model, one slot per address.
    pub closed spec fn wf(&self) -> bool {
        &&& forall|i: int|
            0 <= i < self.slots@.len() ==> {
                &&& self.model@.contains_key(#[trigger] self.slots@[i].address@)
                &&& self.model@[self.slots@[i].address@] == self.slots@[i].entry@
            }
        &&& forall|a: Seq<u8>|
            #[trigger] self.model@.contains_key(a) ==> exists|i: int|
                0 <= i < self.slots@.len() && #[trigger] self.slots@[i].address@ == a
        &&& forall|i: int, j: int|
            0 <= i < self.slots@.len() && 0 <= j < self.slots@.len() && i != j
                ==> #[trigger] self.slots@[i].address@ != #[trigger] self.slots@[j].address@
    }

    /// An empty store.
    pub fn new() -> (r: Store)
        ensures
            r.wf(),
            r@ == Map::<Seq<u8>, EntryModel>::empty(),
    {
        Store { slots: Vec::new(), model: Ghost(Map::empty()) }
    }

    fn find(&self, address: &[u8]) -> (r: Option<usize>)
        requires
            self.wf(),
        ensures
            match r {
                Some(i) => i < self.slots@.len() && self.slots@[i as int].address@ == address@,
                None => !self@.contains_key(address@),
            },
    {
        let mut i: usize = 0;
        while i < self.slots.len()
            invariant
                self.wf(),
                i <= self.slots@.len(),
                forall|j: int| 0 <= j < i ==> #[trigger] self.slots@[j].address@ != address@,
            decreases self.slots@.len() - i,
        {
            if same_bytes(self.slots[i].address.as_slice(), address) {
                return Some(i);
            }
            i = i + 1;
        }
        None
    }

    /// Whether an entry occupies `address`.
    pub fn is_occupied(&self, address: &[u8]) -> (r: bool)
        requires
            self.wf(),
        ensures
            r == self@.contains_key(address@),
    {
        self.find(address).is_some()
    }

    /// The entry at `address`, if any.
    pub fn get(&self, address: &[u8]) -> (r: Option<&Entry>)
        requires
            self.wf(),
        ensures
            match r {
                Some(e) => self@.contains_key(address@) && e@ == self@[address@],
                None => !self@.contains_key(address@),
            },
    {
        match self.find(address) {
            Some(i) => Some(&self.slots[i].entry),
            None => None,
        }
    }

    /// Puts `entry` at a free `address`; fails with `UsernameTaken`, and
    /// changes nothing, when the address is occupied.
    pub fn create(&mut self, address: Vec<u8>, entry: Entry) -> (r: Result<(), RegistryError>)
        requires
            old(self).wf(),
        ensures
            final(self).wf(),
            old(self)@.contains_key(address@) ==> r == Err::<(), RegistryError>(RegistryError::UsernameTaken),
            old(self)@.contains_key(address@) ==> final(self)@ == old(self)@,
            !old(self)@.contains_key(address@) ==> r == Ok::<(), RegistryError>(()),
            !old(self)@.contains_key(address@) ==> final(self)@ == old(self)@.insert(address@, entry@),
    {
        if self.is_occupied(address.as_slice()) {
            return Err(RegistryError::UsernameTaken);
        }
        let ghost a = address@;
        let ghost e = entry@;
        let ghost old_slots = self.slots@;
        self.slots.push(Slot { address, entry });
        self.model = Ghost(self.model@.insert(a, e));
        proof {
            let n = old_slots.len() as int;
            assert(self.slots@[n].address@ == a);
            assert forall|b: Seq<u8>| #[trigger] self.model@.contains_key(b) implies exists|i: int|
                0 <= i < self.slots@.len() && #[trigger] self.slots@[i].address@ == b by {
                if b != a {
                    let i = choose|i: int|
                        0 <= i < old_slots.len() && #[trigger] old_slots[i].address@ == b;
                    assert(self.slots@[i].address@ == b);
                }
            }
            assert forall|i: int|
                0 <= i < self.slots@.len() implies {
                &&& self.model@.contains_key(#[trigger] self.slots@[i].address@)
                &&& self.model@[self.slots@[i].address@] == self.slots@[i].entry@
            } by {
                if i < n {
                    assert(old_slots[i] == self.slots@[i]);
                }
            }
        }
        Ok(())
    }

    /// Replaces the key of the entry at `address` with `new_key` if `signer`
    /// owns it. Fails with `UsernameNotFound` when the address is free and
    /// with `Unauthorized` when another identity owns the entry; on failure
    /// nothing changes.
    pub fn set_key_if_owner(&mut self, address: &[u8], signer: &Bytes32, new_key: Bytes32) -> (r:
        Result<(), RegistryError>)
        requires
            old(self).wf(),
        ensures
            final(self).wf(),
            !old(self)@.contains_key(address@) ==> r == Err::<(), RegistryError>(RegistryError::UsernameNotFound),
            !old(self)@.contains_key(address@) ==> final(self)@ == old(self)@,
            old(self)@.contains_key(address@) && old(self)@[address@].owner != signer@
                ==> r == Err::<(), RegistryError>(RegistryError::Unauthorized),
            old(self)@.contains_key(address@) && old(self)@[address@].owner != signer@
                ==> final(self)@ == old(self)@,
            old(self)@.contains_key(address@) && old(self)@[address@].owner == signer@
                ==> r == Ok::<(), RegistryError>(()),
            old(self)@.contains_key(address@) && old(self)@[address@].owner == signer@
                ==> final(self)@ == old(self)@.insert(
                address@,
                EntryModel { encryption_key: new_key@, ..old(self)@[address@] },
            ),
    {
        match self.find(address) {
            None => Err(RegistryError::UsernameNotFound),
            Some(i) => {
                if !same_bytes(self.slots[i].entry.owner.as_slice(), signer.as_slice()) {
                    return Err(RegistryError::Unauthorized);
                }
                let ghost old_slots = self.slots@;
                let ghost a = address@;
                self.slots[i].entry.encryption_key = new_key;
                self.model = Ghost(self.model@.insert(a, self.slots@[i as int].entry@));
                proof {
                    assert forall|b: Seq<u8>| #[trigger] self.model@.contains_key(b) implies exists|
                        k: int,
                    |
                        0 <= k < self.slots@.len() && #[trigger] self.slots@[k].address@ == b by {
                        let k = choose|k: int|
                            0 <= k < old_slots.len() && #[trigger] old_slots[k].address@ == b;
                        assert(self.slots@[k].address@ == b);
                    }
                    assert forall|k: int|
                        0 <= k < self.slots@.len() implies {
                        &&& self.model@.contains_key(#[trigger] self.slots@[k].address@)
                        &&& self.model@[self.slots@[k].address@] == self.slots@[k].entry@
                    } by {
                        if k != i {
                            assert(old_slots[k] == self.slots@[k]);
                        }
                    }
                    assert forall|k: int, j: int|
                        0 <= k < self.slots@.len() && 0 <= j < self.slots@.len() && k != j
                            implies #[trigger] self.slots@[k].address@
                        != #[trigger] self.slots@[j].address@ by {
                        assert(old_slots[k].address@ == self.slots@[k].address@);
                        assert(old_slots[j].address@ == self.slots@[j].address@);
                    }
                }
                Ok(())
            }
        }
    }
}

} // verus!
