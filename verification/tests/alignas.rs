use cuneiform_fields::alignas::{
    AlignAs1024, AlignAs128, AlignAs16, AlignAs16384, AlignAs2, AlignAs2048, AlignAs256,
    AlignAs32, AlignAs32768, AlignAs4, AlignAs4096, AlignAs512, AlignAs64, AlignAs8, AlignAs8192,
};
use cuneiform_fields::alignment::Alignment;

// A struct is aligned as its most aligned field is: here, as the wrapper.
#[allow(dead_code)]
struct Naber(AlignAs32768<u8>);

#[test]
fn test_alignas_32768() {
    assert_eq!(AlignAs32768::<u8>::alignment().bytes(), 32768);
}

#[test]
fn every_fixed_wrapper_has_the_alignment_of_its_name() {
    assert_eq!(AlignAs2::<u8>::alignment().bytes(), 2);
    assert_eq!(AlignAs4::<u8>::alignment().bytes(), 4);
    assert_eq!(AlignAs8::<u8>::alignment().bytes(), 8);
    assert_eq!(AlignAs16::<u8>::alignment().bytes(), 16);
    assert_eq!(AlignAs32::<u8>::alignment().bytes(), 32);
    assert_eq!(AlignAs64::<u8>::alignment().bytes(), 64);
    assert_eq!(AlignAs128::<u8>::alignment().bytes(), 128);
    assert_eq!(AlignAs256::<u8>::alignment().bytes(), 256);
    assert_eq!(AlignAs512::<u8>::alignment().bytes(), 512);
    assert_eq!(AlignAs1024::<u8>::alignment().bytes(), 1024);
    assert_eq!(AlignAs2048::<u8>::alignment().bytes(), 2048);
    assert_eq!(AlignAs4096::<u8>::alignment().bytes(), 4096);
    assert_eq!(AlignAs8192::<u8>::alignment().bytes(), 8192);
    assert_eq!(AlignAs16384::<u8>::alignment().bytes(), 16384);
    assert_eq!(AlignAs32768::<u8>::alignment().bytes(), 32768);
}

#[test]
fn fixed_alignment_is_the_same_for_every_wrapped_type() {
    assert_eq!(AlignAs64::<u8>::alignment(), Alignment::A64);
    assert_eq!(AlignAs64::<u64>::alignment(), Alignment::A64);
    assert_eq!(AlignAs64::<[u8; 100]>::alignment(), Alignment::A64);
    assert_eq!(AlignAs64::<String>::alignment(), Alignment::A64);
    assert_eq!(AlignAs64::<()>::alignment(), Alignment::A64);
}

#[test]
fn fixed_wrapper_gives_its_value_back() {
    assert_eq!(AlignAs2::new(1u8).into_inner(), 1);
    assert_eq!(AlignAs4::new(-5i32).into_inner(), -5);
    assert_eq!(AlignAs16::new(u64::MAX).into_inner(), u64::MAX);
    assert_eq!(AlignAs64::new((1u8, 2u16)).into_inner(), (1, 2));
    assert_eq!(AlignAs4096::new(String::from("slab")).into_inner(), "slab");
    assert_eq!(AlignAs32768::new(vec![1, 2, 3]).into_inner(), vec![1, 2, 3]);
}

#[test]
fn eight_byte_wrapper_around_a_byte() {
    let padded = AlignAs8::new(7u8);
    let alignment = AlignAs8::<u8>::alignment();
    let size = alignment.padded_size_of::<u8>();
    assert_eq!(size, 8);
    assert_eq!(size % 8, 0);
    assert!(alignment.is_aligned(size));
    assert_eq!(alignment.padded_size(std::mem::size_of_val(&*padded)), Some(8));
    let value = padded.into_inner();
    assert_eq!(value, 7);
}

#[test]
fn fixed_wrapper_reads_in_place() {
    let padded = AlignAs128::new(String::from("line"));
    assert_eq!(*padded, "line");
    assert_eq!(padded.len(), 4);
    assert!(padded.starts_with("li"));
}

#[test]
fn fixed_wrapper_writes_in_place() {
    let mut padded = AlignAs256::new(10u32);
    *padded = 11;
    assert_eq!(*padded, 11);
    *padded += 4;
    assert_eq!(*padded, 15);
    assert_eq!(padded.into_inner(), 15);

    let mut list = AlignAs512::new(vec![1u8]);
    list.push(2);
    assert_eq!(*list, vec![1, 2]);
    assert_eq!(list.into_inner(), vec![1, 2]);
}

#[test]
fn fixed_wrapper_from_a_value_is_new() {
    let made: AlignAs1024<u16> = AlignAs1024::from(300);
    assert_eq!(*made, 300);
    let turned: AlignAs2048<&str> = "x".into();
    assert_eq!(turned.into_inner(), AlignAs2048::new("x").into_inner());
}

#[test]
fn fixed_wrapper_shows_its_value() {
    let shown = format!("{:?}", AlignAs8::new(7u8));
    assert_eq!(shown, "AlignAs8 { value: 7 }");
    let shown = format!("{:?}", AlignAs16384::new("pad"));
    assert_eq!(shown, "AlignAs16384 { value: \"pad\" }");
}

#[test]
fn fixed_wrapper_survives_many_round_trips() {
    let mut value = 41u64;
    for _ in 0..100 {
        let padded = AlignAs8192::new(value);
        assert_eq!(AlignAs8192::<u64>::alignment().bytes(), 8192);
        value = padded.into_inner();
    }
    assert_eq!(value, 41);
}
