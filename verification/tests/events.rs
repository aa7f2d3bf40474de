//! Behavior of event keys and event handles.

use compiler::address::AccountAddress;
use compiler::event::{EventHandle, EventKey, EVENT_KEY_LENGTH};

fn addr(last: u8) -> AccountAddress {
    let mut bytes = [0u8; 32];
    bytes[31] = last;
    AccountAddress::new(bytes)
}

#[test]
fn key_construction_and_bytes() {
    let mut raw = [0u8; 32];
    for (i, b) in raw.iter_mut().enumerate() {
        *b = i as u8;
    }
    let key = EventKey::new(raw);
    assert_eq!(key.as_bytes(), &raw);
    assert_eq!(key.to_vec(), raw.to_vec());
    assert_eq!(EVENT_KEY_LENGTH, 32);
}

#[test]
fn try_from_accepts_exactly_key_width() {
    let raw = [7u8; 32];
    let key = EventKey::try_from(&raw).unwrap();
    assert_eq!(key.to_vec(), raw.to_vec());
    assert!(EventKey::try_from(&raw[..31]).is_none());
    assert!(EventKey::try_from(&[0u8; 33]).is_none());
    assert!(EventKey::try_from(&[]).is_none());
}

#[test]
fn hex_spelling_is_exact() {
    let mut raw = [0u8; 32];
    for (i, b) in raw.iter_mut().enumerate() {
        *b = i as u8;
    }
    let key = EventKey::new(raw);
    assert_eq!(
        key.to_hex(),
        "000102030405060708090a0b0c0d0e0f101112131415161718191a1b1c1d1e1f"
    );
    let high = EventKey::new([0xFEu8; 32]);
    assert_eq!(high.to_hex(), "fe".repeat(32));
}

#[test]
fn derived_keys_are_deterministic_and_salt_sensitive() {
    let a = addr(1);
    let k1 = EventKey::new_from_address(&a, 0);
    let k2 = EventKey::new_from_address(&a, 0);
    assert_eq!(k1, k2);
    let k3 = EventKey::new_from_address(&a, 1);
    assert_ne!(k1, k3);
    let k4 = EventKey::new_from_address(&addr(2), 0);
    assert_ne!(k1, k4);
    // A digest, not the input handed back: it differs from the address bytes.
    assert_ne!(k1.to_vec(), a.to_vec());
}

#[test]
fn random_keys_have_key_width() {
    let k1 = EventKey::random();
    let k2 = EventKey::random();
    assert_eq!(k1.as_bytes().len(), 32);
    assert_eq!(k2.as_bytes().len(), 32);
    assert_ne!(k1, k2);
}

#[test]
fn handle_accessors() {
    let key = EventKey::new([3u8; 32]);
    let handle = EventHandle::new(key, 11);
    assert_eq!(handle.key(), &key);
    assert_eq!(handle.count(), 11);
    let random = EventHandle::random_handle(4);
    assert_eq!(random.count(), 4);
}

#[test]
fn handle_from_address_starts_empty() {
    let a = addr(9);
    let handle = EventHandle::new_from_address(&a, 17);
    assert_eq!(handle.count(), 0);
    assert_eq!(handle.key(), &EventKey::new_from_address(&a, 17));
}

#[test]
fn handle_canonical_round_trip() {
    let handle = EventHandle::new(EventKey::new([0xAAu8; 32]), 65536);
    let bytes = handle.to_canonical_bytes();
    let back = EventHandle::from_canonical_bytes(&bytes).unwrap();
    assert_eq!(back, handle);
    // The count is encoded little-endian first: 65536 = 0x00010000.
    assert_eq!(&bytes[0..8], &[0, 0, 1, 0, 0, 0, 0, 0]);
    // Then the key, length-prefixed.
    assert_eq!(&bytes[8..16], &[32, 0, 0, 0, 0, 0, 0, 0]);
    assert_eq!(&bytes[16..], &[0xAAu8; 32]);
    // Truncated bytes are rejected.
    assert!(EventHandle::from_canonical_bytes(&bytes[..bytes.len() - 1]).is_none());
    assert!(EventHandle::from_canonical_bytes(&[]).is_none());
}

#[test]
fn key_canonical_encoding_is_length_prefixed() {
    let key = EventKey::new([5u8; 32]);
    let bytes = key.to_canonical_bytes();
    assert_eq!(bytes.len(), 40);
    assert_eq!(&bytes[0..8], &[32, 0, 0, 0, 0, 0, 0, 0]);
    assert_eq!(&bytes[8..], &[5u8; 32]);
}

#[test]
fn key_canonical_round_trip() {
    let key = EventKey::new([0x42u8; 32]);
    let bytes = key.to_canonical_bytes();
    let back = EventKey::from_canonical_bytes(&bytes).unwrap();
    assert_eq!(back, key);
    assert!(EventKey::from_canonical_bytes(&bytes[..39]).is_none());
    assert!(EventKey::from_canonical_bytes(&[]).is_none());
}
