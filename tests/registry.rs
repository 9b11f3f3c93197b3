use key_registry::address::{derive_address, is_valid_username, MAX_USERNAME_LEN};
use key_registry::error::RegistryError;
use key_registry::registry::{KeyRecord, Registry};
use key_registry::store::{same_bytes, Entry, Store};

const ALICE: [u8; 32] = [1u8; 32];
const BOB: [u8; 32] = [2u8; 32];
const K1: [u8; 32] = [0xa1u8; 32];
const K2: [u8; 32] = [0xb2u8; 32];

#[test]
fn derive_is_deterministic_and_distinct() {
    let corpus = [
        "alice", "bob", "nobody", "a", "ab", "ba", "abc", "a.b", "a_b", "a-b", "Alice", "alice1",
        "x", "xx", "xxx",
    ];
    let mut seen: Vec<Vec<u8>> = Vec::new();
    for name in corpus.iter() {
        let first = derive_address(name).unwrap();
        let second = derive_address(name).unwrap();
        assert_eq!(first, second);
        assert!(!seen.contains(&first));
        seen.push(first);
    }
}

#[test]
fn derive_exact_address() {
    let mut expected: Vec<u8> = b"username".to_vec();
    expected.push(2);
    expected.extend_from_slice(b"ab");
    assert_eq!(derive_address("ab"), Ok(expected));
}

#[test]
fn derive_length_prefix_separates_names() {
    assert_ne!(derive_address("ab").unwrap(), derive_address("abb").unwrap());
    assert_ne!(derive_address("a").unwrap(), derive_address("b").unwrap());
}

#[test]
fn derive_rejects_invalid_usernames() {
    assert_eq!(derive_address(""), Err(RegistryError::InvalidUsername));
    assert_eq!(derive_address(&"a".repeat(33)), Err(RegistryError::InvalidUsername));
    assert_eq!(derive_address("has space"), Err(RegistryError::InvalidUsername));
    assert_eq!(derive_address("caf\u{e9}"), Err(RegistryError::InvalidUsername));
    assert!(derive_address(&"a".repeat(MAX_USERNAME_LEN)).is_ok());
}

#[test]
fn username_validation_edges() {
    assert!(!is_valid_username(b""));
    assert!(is_valid_username(b"a"));
    assert!(is_valid_username(&[b'z'; 32]));
    assert!(!is_valid_username(&[b'z'; 33]));
    assert!(is_valid_username(b"Az09_-."));
    assert!(!is_valid_username(b"a/b"));
}

#[test]
fn register_twice_succeeds_once() {
    let mut r = Registry::new();
    assert_eq!(r.register_username(ALICE, "alice", K1), Ok(()));
    assert_eq!(r.register_username(BOB, "alice", K2), Err(RegistryError::UsernameTaken));
    assert_eq!(r.register_username(ALICE, "alice", K2), Err(RegistryError::UsernameTaken));
    assert_eq!(r.lookup_username("alice"), Ok(KeyRecord { owner: ALICE, encryption_key: K1 }));
}

#[test]
fn read_after_write() {
    let mut r = Registry::new();
    r.register_username(ALICE, "alice", K1).unwrap();
    let rec = r.lookup_username("alice").unwrap();
    assert_eq!(rec.owner, ALICE);
    assert_eq!(rec.encryption_key, K1);
}

#[test]
fn update_by_non_owner_is_refused() {
    let mut r = Registry::new();
    r.register_username(ALICE, "alice", K1).unwrap();
    assert_eq!(r.update_encryption_key(BOB, "alice", K2), Err(RegistryError::Unauthorized));
    assert_eq!(r.lookup_username("alice"), Ok(KeyRecord { owner: ALICE, encryption_key: K1 }));
}

#[test]
fn update_by_owner_changes_key() {
    let mut r = Registry::new();
    r.register_username(ALICE, "alice", K1).unwrap();
    assert_eq!(r.update_encryption_key(ALICE, "alice", K2), Ok(()));
    assert_eq!(r.lookup_username("alice"), Ok(KeyRecord { owner: ALICE, encryption_key: K2 }));
    assert_eq!(r.update_encryption_key(ALICE, "alice", K1), Ok(()));
    assert_eq!(r.lookup_username("alice"), Ok(KeyRecord { owner: ALICE, encryption_key: K1 }));
}

#[test]
fn not_found_symmetry() {
    let mut r = Registry::new();
    assert_eq!(r.lookup_username("nobody"), Err(RegistryError::UsernameNotFound));
    assert_eq!(r.update_encryption_key(ALICE, "nobody", K1), Err(RegistryError::UsernameNotFound));
    r.register_username(ALICE, "alice", K1).unwrap();
    assert_eq!(r.lookup_username("nobody"), Err(RegistryError::UsernameNotFound));
    assert_eq!(r.update_encryption_key(ALICE, "nobody", K1), Err(RegistryError::UsernameNotFound));
}

#[test]
fn invalid_username_has_no_side_effect() {
    let mut r = Registry::new();
    let long = "a".repeat(MAX_USERNAME_LEN + 1);
    assert_eq!(r.register_username(ALICE, "", K1), Err(RegistryError::InvalidUsername));
    assert_eq!(r.register_username(ALICE, &long, K1), Err(RegistryError::InvalidUsername));
    assert_eq!(r.register_username(ALICE, "bad name", K1), Err(RegistryError::InvalidUsername));
    assert_eq!(r.lookup_username(""), Err(RegistryError::UsernameNotFound));
    assert_eq!(r.lookup_username(&long), Err(RegistryError::UsernameNotFound));
    assert_eq!(r.lookup_username("bad name"), Err(RegistryError::UsernameNotFound));
}

#[test]
fn longest_username_registers() {
    let mut r = Registry::new();
    let name = "b".repeat(MAX_USERNAME_LEN);
    assert_eq!(r.register_username(BOB, &name, K2), Ok(()));
    assert_eq!(r.lookup_username(&name), Ok(KeyRecord { owner: BOB, encryption_key: K2 }));
}

#[test]
fn race_for_bob_has_one_winner() {
    for first_wins in [true, false] {
        let mut r = Registry::new();
        let (a, b) = if first_wins { ((ALICE, K1), (BOB, K2)) } else { ((BOB, K2), (ALICE, K1)) };
        let ra = r.register_username(a.0, "bob", a.1);
        let rb = r.register_username(b.0, "bob", b.1);
        assert_eq!(ra, Ok(()));
        assert_eq!(rb, Err(RegistryError::UsernameTaken));
        let rec = r.lookup_username("bob").unwrap();
        assert_eq!(rec, KeyRecord { owner: a.0, encryption_key: a.1 });
        assert!(rec.encryption_key == K1 || rec.encryption_key == K2);
    }
}

#[test]
fn entries_are_independent() {
    let mut r = Registry::new();
    r.register_username(ALICE, "alice", K1).unwrap();
    r.register_username(BOB, "bob", K2).unwrap();
    r.update_encryption_key(BOB, "bob", K1).unwrap();
    assert_eq!(r.lookup_username("alice"), Ok(KeyRecord { owner: ALICE, encryption_key: K1 }));
    assert_eq!(r.lookup_username("bob"), Ok(KeyRecord { owner: BOB, encryption_key: K1 }));
}

#[test]
fn store_create_get_and_set_key() {
    let mut s = Store::new();
    let addr = derive_address("carol").unwrap();
    assert!(!s.is_occupied(&addr));
    assert!(s.get(&addr).is_none());
    let entry = Entry { username: b"carol".to_vec(), owner: ALICE, encryption_key: K1 };
    assert_eq!(s.create(addr.clone(), entry), Ok(()));
    assert!(s.is_occupied(&addr));
    let again = Entry { username: b"carol".to_vec(), owner: BOB, encryption_key: K2 };
    assert_eq!(s.create(addr.clone(), again), Err(RegistryError::UsernameTaken));
    assert_eq!(s.set_key_if_owner(&addr, &BOB, K2), Err(RegistryError::Unauthorized));
    assert_eq!(s.get(&addr).unwrap().encryption_key, K1);
    assert_eq!(s.set_key_if_owner(&addr, &ALICE, K2), Ok(()));
    let e = s.get(&addr).unwrap();
    assert_eq!(e.encryption_key, K2);
    assert_eq!(e.owner, ALICE);
    assert_eq!(e.username, b"carol".to_vec());
    let other = derive_address("dave").unwrap();
    assert_eq!(s.set_key_if_owner(&other, &ALICE, K2), Err(RegistryError::UsernameNotFound));
}

#[test]
fn same_bytes_compares_contents() {
    assert!(same_bytes(b"abc", b"abc"));
    assert!(!same_bytes(b"abc", b"abd"));
    assert!(!same_bytes(b"abc", b"ab"));
    assert!(same_bytes(b"", b""));
}
