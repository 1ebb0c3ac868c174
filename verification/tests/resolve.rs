use cuneiform_fields::alignment::Alignment;
use cuneiform_fields::resolve::{resolve, Mode, Target, FALLBACK};

#[test]
fn fallback_is_128_bytes() {
    assert_eq!(FALLBACK, Alignment::A128);
    assert_eq!(FALLBACK.bytes(), 128);
}

#[test]
fn architecture_mode_takes_the_table_entry() {
    let target = Target { documented: Some(Alignment::A64), reported: None };
    assert_eq!(resolve(Mode::Architecture, target), Alignment::A64);
    let target = Target { documented: Some(Alignment::A32), reported: Some(Alignment::A256) };
    assert_eq!(resolve(Mode::Architecture, target), Alignment::A32);
}

#[test]
fn architecture_mode_falls_back_without_an_entry() {
    let target = Target { documented: None, reported: None };
    assert_eq!(resolve(Mode::Architecture, target).bytes(), 128);
    let target = Target { documented: None, reported: Some(Alignment::A64) };
    assert_eq!(resolve(Mode::Architecture, target).bytes(), 128);
}

#[test]
fn hermetic_mode_takes_the_report() {
    let target = Target { documented: Some(Alignment::A128), reported: Some(Alignment::A64) };
    assert_eq!(resolve(Mode::Hermetic, target), Alignment::A64);
    let target = Target { documented: None, reported: Some(Alignment::A16) };
    assert_eq!(resolve(Mode::Hermetic, target), Alignment::A16);
}

#[test]
fn hermetic_mode_falls_back_to_the_architecture() {
    let target = Target { documented: Some(Alignment::A32), reported: None };
    assert_eq!(resolve(Mode::Hermetic, target), Alignment::A32);
    assert_eq!(resolve(Mode::Hermetic, target), resolve(Mode::Architecture, target));
}

#[test]
fn hermetic_mode_falls_back_twice() {
    let target = Target { documented: None, reported: None };
    assert_eq!(resolve(Mode::Hermetic, target).bytes(), 128);
}

#[test]
fn an_unsupported_reading_counts_as_none() {
    let target = Target {
        documented: Alignment::from_bytes(64),
        reported: Alignment::from_bytes(48),
    };
    assert_eq!(target.reported, None);
    assert_eq!(resolve(Mode::Hermetic, target).bytes(), 64);
    let target = Target { documented: Alignment::from_bytes(0), reported: None };
    assert_eq!(resolve(Mode::Architecture, target), FALLBACK);
}

#[test]
fn resolving_twice_gives_the_same() {
    let target = Target { documented: Some(Alignment::A64), reported: Some(Alignment::A128) };
    for mode in [Mode::Architecture, Mode::Hermetic] {
        let first = resolve(mode, target);
        for _ in 0..10 {
            assert_eq!(resolve(mode, target), first);
        }
    }
}

#[test]
fn fallback_is_aligned_for_every_shorter_line() {
    for bytes in [2usize, 4, 8, 16, 32, 64, 128] {
        let line = Alignment::from_bytes(bytes).unwrap();
        assert!(line.is_aligned(FALLBACK.bytes()));
        assert!(line.is_aligned(3 * FALLBACK.bytes()));
    }
}
