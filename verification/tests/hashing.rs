use piet_wgpu::hashing::FRAC_U64MAX_PI;
use piet_wgpu::{EntityHash, EntityHasher, FixedState, Hashed, PassHash, PassHasher};
use std::hash::{BuildHasher, Hash, Hasher};

#[derive(Default, Debug, PartialEq)]
struct Settings {
    a: usize,
    b: usize,
    c: usize,
}

#[test]
fn default_gives_the_default_value() {
    let n: u32 = piet_wgpu::default();
    assert_eq!(n, 0);
    let s: String = piet_wgpu::default();
    assert_eq!(s, "");
    let settings = Settings {
        a: 10,
        ..piet_wgpu::default()
    };
    assert_eq!(settings, Settings { a: 10, b: 0, c: 0 });
}

#[test]
fn pass_hasher_starts_at_zero() {
    let hasher = PassHasher::default();
    assert_eq!(hasher.finish(), 0);
    assert_eq!(PassHash.build_hasher().finish(), 0);
    assert_eq!(PassHash::default().build_hasher().finish(), 0);
}

#[test]
fn pass_hasher_hands_the_number_through() {
    let mut hasher = PassHash.build_hasher();
    hasher.write_u64(0xDEAD_BEEF_0BAD_F00D);
    assert_eq!(hasher.finish(), 0xDEAD_BEEF_0BAD_F00D);
    hasher.write_u64(7);
    assert_eq!(hasher.finish(), 7);
    hasher.write_u64(u64::MAX);
    assert_eq!(hasher.finish(), u64::MAX);
}

#[test]
fn entity_hasher_starts_at_zero() {
    assert_eq!(EntityHasher::default().finish(), 0);
    assert_eq!(EntityHash.build_hasher().finish(), 0);
    assert_eq!(EntityHash::default().build_hasher().finish(), 0);
}

#[test]
fn entity_hasher_lays_the_product_over_the_upper_half() {
    assert_eq!(FRAC_U64MAX_PI, 0x517cc1b727220a95);
    let mut hasher = EntityHash.build_hasher();
    hasher.write_u64(0);
    assert_eq!(hasher.finish(), 0);
    hasher.write_u64(1);
    assert_eq!(hasher.finish(), 0x27220a95_00000001);
    hasher.write_u64(2);
    assert_eq!(hasher.finish(), 0x4e44152a_00000002);
    hasher.write_u64(0x1_0000_0000);
    assert_eq!(hasher.finish(), 0x1_0000_0000);
    hasher.write_u64(u64::MAX);
    assert_eq!(hasher.finish(), u64::MAX);
}

#[test]
fn entity_hasher_keeps_the_bits_of_the_number() {
    for i in [3u64, 1 << 40, 0xABCD_EF01_2345_6789, 12345678901234567] {
        let mut hasher = EntityHasher::default();
        hasher.write_u64(i);
        assert_eq!(hasher.finish() & i, i);
        assert_eq!(
            hasher.finish(),
            i | (i.wrapping_mul(0x517cc1b727220a95) << 32)
        );
    }
}

#[test]
fn fixed_state_hashes_alike_every_time() {
    let a = FixedState.hash_one("some text");
    let b = FixedState::default().hash_one("some text");
    assert_eq!(a, b);
    let mut first = FixedState.build_hasher();
    let mut second = FixedState.build_hasher();
    first.write_u32(1234);
    second.write_u32(1234);
    assert_eq!(first.finish(), second.finish());
    assert_ne!(FixedState.hash_one(1u64), FixedState.hash_one(2u64));
}

#[test]
fn fixed_state_is_keyed_by_its_seeds() {
    let seeded = ahash::RandomState::with_seeds(
        0b10010101111011100000010011000100,
        0b00000011001001101011001001111000,
        0b11001111011010110111100010110101,
        0b00000100001111100011010011010101,
    );
    let mut expected = seeded.build_hasher();
    let mut hasher = FixedState.build_hasher();
    "some text".hash(&mut expected);
    "some text".hash(&mut hasher);
    assert_eq!(hasher.finish(), expected.finish());
    let other = ahash::RandomState::with_seeds(1, 2, 3, 4);
    let mut unexpected = other.build_hasher();
    "some text".hash(&mut unexpected);
    assert_ne!(hasher.finish(), unexpected.finish());
}

#[test]
fn hashed_new_carries_the_hash_of_the_value() {
    let hashed: Hashed<&str> = Hashed::new("value");
    let mut hasher = FixedState.build_hasher();
    "value".hash(&mut hasher);
    assert_eq!(hashed.hash(), hasher.finish());
    assert_eq!(*hashed.value(), "value");
    assert_eq!(*hashed, "value");
    assert_eq!(hashed.len(), 5);
}

#[test]
fn hashed_of_number_is_its_own_hash_under_pass_hash() {
    let hashed: Hashed<u64, PassHash> = Hashed::<u64, PassHash>::of_number(42);
    assert_eq!(hashed.hash(), 42);
    assert_eq!(*hashed, 42);
    assert_eq!(hashed.hash(), PassHash.hash_one(42u64));
    let hashed: Hashed<u64, PassHash> = Hashed::<u64, PassHash>::of_number(u64::MAX);
    assert_eq!(hashed.hash(), u64::MAX);
    let hashed: Hashed<u64, PassHash> = Hashed::<u64, PassHash>::of_number(0);
    assert_eq!(hashed.hash(), 0);
}

#[test]
fn hashed_of_number_under_entity_hash() {
    let hashed: Hashed<u64, EntityHash> = Hashed::<u64, EntityHash>::of_number(1);
    assert_eq!(hashed.hash(), 0x27220a95_00000001);
    assert_eq!(*hashed, 1);
    assert_eq!(hashed.hash(), EntityHash.hash_one(1u64));
    let hashed: Hashed<u64, EntityHash> = Hashed::<u64, EntityHash>::of_number(2);
    assert_eq!(hashed.hash(), 0x4e44152a_00000002);
    assert_eq!(*hashed.value(), 2);
}

#[test]
fn hashed_new_hashes_strings_and_numbers_of_any_width() {
    let text: Hashed<String> = Hashed::new(String::from("text"));
    assert_eq!(text.hash(), FixedState.hash_one(String::from("text")));
    let small: Hashed<u32> = Hashed::new(7);
    assert_eq!(small.hash(), FixedState.hash_one(7u32));
    assert_eq!(*small, 7);
    let pair: Hashed<(u8, i64)> = Hashed::new((1, -2));
    assert_eq!(pair.hash(), FixedState.hash_one((1u8, -2i64)));
}

#[test]
fn hashed_from_parts_keeps_both() {
    let hashed: Hashed<&str> = Hashed::from_parts(17, "value");
    assert_eq!(hashed.hash(), 17);
    assert_eq!(*hashed.value(), "value");
}

#[test]
fn hashed_hashes_as_its_hash() {
    let hashed: Hashed<&str> = Hashed::from_parts(17, "value");
    let mut hasher = PassHasher::default();
    Hash::hash(&hashed, &mut hasher);
    assert_eq!(hasher.finish(), 17);
    let hashed: Hashed<String> = Hashed::new(String::from("text"));
    assert_eq!(PassHash.hash_one(&hashed), hashed.hash());
}

#[test]
fn hashed_equality_looks_at_hash_and_value() {
    let a: Hashed<&str> = Hashed::new("value");
    let b: Hashed<&str> = Hashed::new("value");
    let c: Hashed<&str> = Hashed::new("other");
    assert!(a == b);
    assert!(a != c);
    let same_value_other_hash: Hashed<&str> = Hashed::from_parts(a.hash() ^ 1, "value");
    assert!(a != same_value_other_hash);
    let same_hash_other_value: Hashed<&str> = Hashed::from_parts(a.hash(), "other");
    assert!(a != same_hash_other_value);
}

#[test]
fn hashed_clone_keeps_hash_and_value() {
    let a: Hashed<String> = Hashed::new(String::from("value"));
    let b = a.clone();
    assert_eq!(b.hash(), a.hash());
    assert_eq!(*b, "value");
    assert!(a == b);
}
