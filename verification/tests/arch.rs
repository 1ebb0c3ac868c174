use cuneiform_fields::alignment::Alignment;
use cuneiform_fields::arch::ArchPadding;
use cuneiform_fields::resolve::{Target, FALLBACK};
use std::collections::hash_map::DefaultHasher;
use std::hash::{Hash, Hasher};

#[allow(dead_code)]
pub struct ArchSpecific {
    data: ArchPadding<u8>,
    data_2: u16,
}

fn listed(line: Alignment) -> Target {
    Target { documented: Some(line), reported: None }
}

fn unlisted() -> Target {
    Target { documented: None, reported: None }
}

fn hash_of<T: Hash>(t: &T) -> u64 {
    let mut hasher = DefaultHasher::new();
    t.hash(&mut hasher);
    hasher.finish()
}

fn is_send<T: Send>(_: &T) -> bool {
    true
}

fn is_sync<T: Sync>(_: &T) -> bool {
    true
}

#[test]
fn arch_padding_gives_its_value_back() {
    let padded = ArchPadding::new(7);
    let value = padded.into_inner();
    assert_eq!(value, 7);
    assert_eq!(ArchPadding::new(123_u8).into_inner(), 123);
    assert_eq!(ArchPadding::new(String::from("line")).into_inner(), "line");
    assert_eq!(ArchPadding::new(()).into_inner(), ());
}

#[test]
fn arch_padding_on_a_listed_architecture() {
    assert_eq!(ArchPadding::<u8>::alignment(listed(Alignment::A64)), Alignment::A64);
    assert_eq!(ArchPadding::<u8>::alignment(listed(Alignment::A32)).bytes(), 32);
    assert_eq!(ArchPadding::<u64>::alignment(listed(Alignment::A256)).bytes(), 256);
}

#[test]
fn arch_padding_on_an_unlisted_architecture() {
    assert_eq!(ArchPadding::<u8>::alignment(unlisted()).bytes(), 128);
    assert_eq!(ArchPadding::<u8>::alignment(unlisted()), FALLBACK);
}

#[test]
fn arch_padding_does_not_ask_the_system() {
    let target = Target { documented: Some(Alignment::A128), reported: Some(Alignment::A64) };
    assert_eq!(ArchPadding::<u8>::alignment(target).bytes(), 128);
    let target = Target { documented: None, reported: Some(Alignment::A64) };
    assert_eq!(ArchPadding::<u8>::alignment(target).bytes(), 128);
}

#[test]
fn arch_padded_field_fills_its_lines() {
    let h = ArchSpecific { data: ArchPadding::new(123_u8), data_2: 123 };
    let alignment = ArchPadding::<u8>::alignment(listed(Alignment::A128));
    assert_eq!(alignment.padded_size_of::<u8>(), 128);
    assert_eq!(alignment.padded_size(std::mem::size_of_val(&*h.data)), Some(128));
    let alignment = ArchPadding::<u8>::alignment(listed(Alignment::A64));
    assert_eq!(alignment.padded_size_of::<u8>(), 64);
    assert_eq!(std::mem::size_of_val(&h.data_2), 2);
    assert_eq!(*h.data, 123);
}

#[test]
fn arch_padding_reads_and_writes_in_place() {
    let mut padded = ArchPadding::new(1u32);
    assert_eq!(*padded, 1);
    *padded = 2;
    assert_eq!(*padded, 2);
    *padded *= 21;
    assert_eq!(padded.into_inner(), 42);

    let mut text = ArchPadding::new(String::new());
    text.push_str("clay");
    assert_eq!(text.len(), 4);
    assert_eq!(text.into_inner(), "clay");
}

#[test]
fn arch_padding_from_a_value_is_new() {
    let made = ArchPadding::from(9i64);
    assert_eq!(made, ArchPadding::new(9i64));
    let turned: ArchPadding<char> = 'a'.into();
    assert_eq!(turned.into_inner(), 'a');
}

#[test]
fn arch_padding_compares_copies_and_hashes_as_its_value() {
    let a = ArchPadding::new(5u16);
    let b = a;
    let c = a.clone();
    assert_eq!(a, b);
    assert_eq!(a, c);
    assert_ne!(a, ArchPadding::new(6u16));
    assert_eq!(hash_of(&a), hash_of(&b));
    assert_eq!(hash_of(&a), hash_of(&5u16));
    let cloned = ArchPadding::new(vec![1u8, 2]).clone();
    assert_eq!(cloned.into_inner(), vec![1, 2]);
}

#[test]
fn arch_padding_default_wraps_the_default() {
    let padded: ArchPadding<u32> = Default::default();
    assert_eq!(padded.into_inner(), 0);
    let padded: ArchPadding<String> = ArchPadding::default();
    assert_eq!(padded.into_inner(), "");
}

#[test]
fn arch_padding_shows_its_value() {
    assert_eq!(format!("{:?}", ArchPadding::new(7u8)), "ArchPadding { value: 7 }");
}

#[test]
fn arch_padding_is_shared_as_its_value_is() {
    let padded = ArchPadding::new(0u64);
    assert!(is_send(&padded));
    assert!(is_sync(&padded));
}

#[test]
fn arch_padding_keeps_its_alignment_over_round_trips() {
    let target = listed(Alignment::A64);
    let before = ArchPadding::<u8>::alignment(target);
    let mut value = 3u8;
    for _ in 0..50 {
        let padded = ArchPadding::new(value);
        assert_eq!(ArchPadding::<u8>::alignment(target), before);
        value = padded.into_inner();
    }
    assert_eq!(value, 3);
    assert_eq!(ArchPadding::<u8>::alignment(target), before);
}
