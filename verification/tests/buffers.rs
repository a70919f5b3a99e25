//! Behaviour of the fixed-capacity receive buffer.

use std::collections::hash_map::DefaultHasher;
use std::hash::{Hash, Hasher};

use drm::buffer::{BoundedBuffer, BUFFER_CAPACITY};

fn hash_of<T: Hash>(value: &T) -> u64 {
    let mut hasher = DefaultHasher::new();
    value.hash(&mut hasher);
    hasher.finish()
}

fn storage_with_prefix(prefix: &[u32], fill: u32) -> Vec<u32> {
    let mut storage = vec![fill; BUFFER_CAPACITY];
    storage[..prefix.len()].copy_from_slice(prefix);
    storage
}

#[test]
fn view_has_exactly_the_occupied_length() {
    let storage = storage_with_prefix(&[10, 20, 30], 0xDEAD);
    let buffer = BoundedBuffer::new(storage, 3);
    assert_eq!(buffer.len(), 3);
    assert_eq!(buffer.as_slice(), &[10, 20, 30]);
}

#[test]
fn empty_occupied_prefix_is_exposed_as_empty() {
    let storage = storage_with_prefix(&[], 7);
    let buffer = BoundedBuffer::new(storage, 0);
    assert_eq!(buffer.len(), 0);
    assert_eq!(buffer.as_slice(), &[] as &[u32]);
}

#[test]
fn full_capacity_is_exposed_whole() {
    let storage: Vec<u32> = (0..BUFFER_CAPACITY as u32).collect();
    let buffer = BoundedBuffer::new(storage.clone(), BUFFER_CAPACITY);
    assert_eq!(buffer.len(), BUFFER_CAPACITY);
    assert_eq!(buffer.as_slice(), storage.as_slice());
}

#[test]
fn equal_prefixes_compare_equal_whatever_the_tails_held() {
    let first = BoundedBuffer::new(storage_with_prefix(&[1, 2, 3], 0xAAAA), 3);
    let second = BoundedBuffer::new(storage_with_prefix(&[1, 2, 3], 0x5555), 3);
    assert_eq!(first, second);
}

#[test]
fn equal_prefixes_hash_equal_whatever_the_tails_held() {
    let first = BoundedBuffer::new(storage_with_prefix(&[4, 5], 111), 2);
    let second = BoundedBuffer::new(storage_with_prefix(&[4, 5], 999), 2);
    assert_eq!(hash_of(&first), hash_of(&second));
}

#[test]
fn different_prefixes_compare_unequal() {
    let first = BoundedBuffer::new(storage_with_prefix(&[1, 2, 3], 0), 3);
    let second = BoundedBuffer::new(storage_with_prefix(&[1, 2, 4], 0), 3);
    assert!(first != second);
}

#[test]
fn different_occupied_lengths_compare_unequal() {
    let first = BoundedBuffer::new(storage_with_prefix(&[1, 2, 3], 0), 3);
    let second = BoundedBuffer::new(storage_with_prefix(&[1, 2, 3], 0), 2);
    assert!(first != second);
}

#[test]
fn from_items_keeps_the_items() {
    let buffer = BoundedBuffer::from_items(vec![9u64, 8, 7]);
    assert_eq!(buffer.as_slice(), &[9, 8, 7]);
}

#[test]
fn clone_carries_the_occupied_prefix() {
    let buffer = BoundedBuffer::new(storage_with_prefix(&[6, 7, 8, 9], 1234), 4);
    let copy = buffer.clone();
    assert_eq!(copy, buffer);
    assert_eq!(copy.as_slice(), &[6, 7, 8, 9]);
}
