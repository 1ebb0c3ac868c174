use cuneiform_fields::alignment::Alignment;

const ALL: [Alignment; 15] = [
    Alignment::A2,
    Alignment::A4,
    Alignment::A8,
    Alignment::A16,
    Alignment::A32,
    Alignment::A64,
    Alignment::A128,
    Alignment::A256,
    Alignment::A512,
    Alignment::A1024,
    Alignment::A2048,
    Alignment::A4096,
    Alignment::A8192,
    Alignment::A16384,
    Alignment::A32768,
];

#[test]
fn alignments_are_the_powers_of_two_from_2_to_32768() {
    let mut expected = 2usize;
    for a in ALL {
        assert_eq!(a.bytes(), expected);
        assert!(a.bytes().is_power_of_two());
        expected *= 2;
    }
    assert_eq!(expected, 65536);
}

#[test]
fn from_bytes_finds_each_alignment() {
    for a in ALL {
        assert_eq!(Alignment::from_bytes(a.bytes()), Some(a));
    }
    assert_eq!(Alignment::from_bytes(64), Some(Alignment::A64));
    assert_eq!(Alignment::from_bytes(32768), Some(Alignment::A32768));
}

#[test]
fn from_bytes_refuses_everything_else() {
    assert_eq!(Alignment::from_bytes(0), None);
    assert_eq!(Alignment::from_bytes(1), None);
    assert_eq!(Alignment::from_bytes(3), None);
    assert_eq!(Alignment::from_bytes(48), None);
    assert_eq!(Alignment::from_bytes(32767), None);
    assert_eq!(Alignment::from_bytes(32769), None);
    assert_eq!(Alignment::from_bytes(65536), None);
    assert_eq!(Alignment::from_bytes(usize::MAX), None);
    let mut found = 0;
    for n in 0..=70000usize {
        if Alignment::from_bytes(n).is_some() {
            found += 1;
        }
    }
    assert_eq!(found, 15);
}

#[test]
fn is_aligned_tells_the_multiples() {
    assert!(Alignment::A8.is_aligned(0));
    assert!(Alignment::A8.is_aligned(8));
    assert!(Alignment::A8.is_aligned(4096));
    assert!(!Alignment::A8.is_aligned(4));
    assert!(!Alignment::A8.is_aligned(9));
    assert!(Alignment::A32768.is_aligned(65536));
    assert!(!Alignment::A32768.is_aligned(65537));
    assert!(!Alignment::A2.is_aligned(usize::MAX));
}

#[test]
fn padded_size_is_the_next_multiple() {
    assert_eq!(Alignment::A8.padded_size(1), Some(8));
    assert_eq!(Alignment::A8.padded_size(7), Some(8));
    assert_eq!(Alignment::A8.padded_size(8), Some(8));
    assert_eq!(Alignment::A8.padded_size(9), Some(16));
    assert_eq!(Alignment::A64.padded_size(1), Some(64));
    assert_eq!(Alignment::A64.padded_size(65), Some(128));
    assert_eq!(Alignment::A128.padded_size(2), Some(128));
    assert_eq!(Alignment::A32768.padded_size(1), Some(32768));
    assert_eq!(Alignment::A2.padded_size(3), Some(4));
}

#[test]
fn padded_size_of_nothing_is_nothing() {
    for a in ALL {
        assert_eq!(a.padded_size(0), Some(0));
    }
}

#[test]
fn padded_size_is_the_least_multiple_that_holds_the_value() {
    for a in ALL {
        for size in 0..300usize {
            let padded = a.padded_size(size).unwrap();
            assert!(a.is_aligned(padded));
            assert!(size <= padded);
            assert!(padded < size + a.bytes());
        }
    }
}

#[test]
fn padded_size_stops_at_the_end_of_the_address_space() {
    assert_eq!(Alignment::A8.padded_size(usize::MAX), None);
    assert_eq!(Alignment::A8.padded_size(usize::MAX - 6), None);
    assert_eq!(Alignment::A8.padded_size(usize::MAX - 7), Some(usize::MAX - 7));
    assert_eq!(Alignment::A8.padded_size(usize::MAX - 8), Some(usize::MAX - 7));
    assert_eq!(Alignment::A2.padded_size(usize::MAX), None);
    assert_eq!(Alignment::A2.padded_size(usize::MAX - 1), Some(usize::MAX - 1));
}

#[test]
fn aligned_to_more_is_aligned_to_less() {
    for big in ALL {
        for small in ALL {
            if small.bytes() <= big.bytes() {
                for n in [0usize, 1, 2, 3, 4, 5].map(|k| k * big.bytes()) {
                    assert!(small.is_aligned(n));
                }
            }
        }
    }
}

#[test]
fn padded_size_of_a_type_goes_by_its_size() {
    assert_eq!(Alignment::A8.padded_size_of::<u8>(), 8);
    assert_eq!(Alignment::A8.padded_size_of::<u64>(), 8);
    assert_eq!(Alignment::A8.padded_size_of::<[u8; 9]>(), 16);
    assert_eq!(Alignment::A64.padded_size_of::<[u64; 8]>(), 64);
    assert_eq!(Alignment::A64.padded_size_of::<[u64; 9]>(), 128);
    assert_eq!(Alignment::A128.padded_size_of::<()>(), 0);
    assert_eq!(Alignment::A32768.padded_size_of::<bool>(), 32768);
    for a in ALL {
        assert_eq!(Some(a.padded_size_of::<[u16; 3]>()), a.padded_size(6));
    }
}
