use codeview::leaf::{self, BuildInfo, StringId, SubstrList};
use codeview::{Error, Leaf, LeafId, SectionSink};

fn test_leaf(leaf: Leaf, data: &[u8]) {
    let mut sink = SectionSink::<()>::new();
    leaf::write(&leaf, &mut sink).unwrap();
    assert_eq!(sink.data, data);
}

#[test]
fn leaves() {
    test_leaf(
        Leaf::BuildInfo(BuildInfo {
            args: vec![LeafId(1), LeafId(0x22), LeafId(0x3344)],
        }),
        &[
            16, 0, 0x03, 0x16, 3, 0, 1, 0, 0, 0, 0x22, 0, 0, 0, 0x44, 0x33, 0, 0,
        ],
    );

    test_leaf(
        Leaf::SubstrList(SubstrList {
            strings: vec![LeafId(1), LeafId(0x22), LeafId(0x3344)],
        }),
        &[
            18, 0, 0x04, 0x16, 3, 0, 0, 0, 1, 0, 0, 0, 0x22, 0, 0, 0, 0x44, 0x33, 0, 0,
        ],
    );

    test_leaf(
        Leaf::StringId(StringId {
            substr: LeafId(0x1122_3344),
            content: "hello".to_string(),
        }),
        &[
            12, 0, 0x05, 0x16, 0x44, 0x33, 0x22, 0x11, b'h', b'e', b'l', b'l', b'o', 0,
        ],
    );
}

#[test]
fn build_info_new_keeps_argument_order() {
    let b = BuildInfo::new(LeafId(1), LeafId(2), LeafId(3), LeafId(4), LeafId(5));
    let ids: Vec<u32> = b.args.iter().map(|i| i.0).collect();
    assert_eq!(ids, vec![1, 2, 3, 4, 5]);
}

#[test]
fn null_leaf_id_is_zero() {
    assert_eq!(LeafId::null().0, 0);
}

#[test]
fn leaf_size_is_payload_plus_four() {
    let l = Leaf::BuildInfo(BuildInfo { args: vec![LeafId(1), LeafId(2)] });
    assert_eq!(leaf::size(&l), 2 + 8 + 4);
    let s = Leaf::StringId(StringId { substr: LeafId::null(), content: "héllo".to_string() });
    assert_eq!(leaf::size(&s), 4 + 6 + 1 + 4);
    let e = Leaf::SubstrList(SubstrList { strings: vec![] });
    assert_eq!(leaf::size(&e), 4 + 4);
}

#[test]
fn frame_length_field_is_payload_plus_two() {
    let mut sink = SectionSink::<()>::new();
    let l = Leaf::SubstrList(SubstrList { strings: vec![LeafId(7)] });
    leaf::write(&l, &mut sink).unwrap();
    let total = u16::from_le_bytes([sink.data[0], sink.data[1]]) as usize;
    assert_eq!(total, sink.data.len() - 2);
    assert_eq!(total, 8 + 2);
}

#[test]
fn utf8_string_is_written_raw() {
    let mut sink = SectionSink::<()>::new();
    let l = Leaf::StringId(StringId { substr: LeafId::null(), content: "é".to_string() });
    leaf::write(&l, &mut sink).unwrap();
    assert_eq!(sink.data, vec![9, 0, 0x05, 0x16, 0, 0, 0, 0, 0xC3, 0xA9, 0]);
}

#[test]
fn empty_string_is_just_a_terminator() {
    let mut sink = SectionSink::<()>::new();
    let l = Leaf::StringId(StringId { substr: LeafId(1), content: String::new() });
    leaf::write(&l, &mut sink).unwrap();
    assert_eq!(sink.data, vec![7, 0, 0x05, 0x16, 1, 0, 0, 0, 0]);
}

#[test]
fn nul_in_string_fails_and_writes_nothing() {
    let mut sink = SectionSink::<()>::new();
    let l = Leaf::StringId(StringId { substr: LeafId(1), content: "a\0b".to_string() });
    match leaf::write(&l, &mut sink) {
        Err(Error::StringError(s)) => assert_eq!(s, "a\0b"),
        other => panic!("unexpected result {:?}", other),
    }
    assert!(sink.data.is_empty());
}

#[test]
fn oversized_payload_fails_with_overflow() {
    let mut sink = SectionSink::<()>::new();
    // 4 + 65529 + 1 = 65534 bytes of payload: one too many.
    let l = Leaf::StringId(StringId { substr: LeafId(1), content: "x".repeat(65529) });
    assert!(matches!(leaf::write(&l, &mut sink), Err(Error::IntError(_))));
    assert!(sink.data.is_empty());
}

#[test]
fn largest_payload_is_accepted() {
    let mut sink = SectionSink::<()>::new();
    // 4 + 65528 + 1 = 65533 bytes of payload: total length 0xFFFF.
    let l = Leaf::StringId(StringId { substr: LeafId(1), content: "x".repeat(65528) });
    leaf::write(&l, &mut sink).unwrap();
    assert_eq!(sink.data.len(), 65533 + 4);
    assert_eq!(&sink.data[0..4], &[0xFF, 0xFF, 0x05, 0x16]);
}

#[test]
fn too_many_build_info_args_fail_with_overflow() {
    let mut sink = SectionSink::<()>::new();
    let l = Leaf::BuildInfo(BuildInfo { args: vec![LeafId(0); 70000] });
    assert!(matches!(leaf::write(&l, &mut sink), Err(Error::IntError(_))));
    assert!(sink.data.is_empty());
}
