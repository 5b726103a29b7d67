use serde_vars::value::{deserialize_byte_buf, ByteSeq, Raw, MAX_RESERVED};

#[test]
fn test_capacity_is_capped() {
    assert_eq!(MAX_RESERVED, 4096);
    assert_eq!(ByteSeq::capacity_for(None), 0);
    assert_eq!(ByteSeq::capacity_for(Some(0)), 0);
    assert_eq!(ByteSeq::capacity_for(Some(17)), 17);
    assert_eq!(ByteSeq::capacity_for(Some(4096)), 4096);
    assert_eq!(ByteSeq::capacity_for(Some(4097)), 4096);
    assert_eq!(ByteSeq::capacity_for(Some(usize::MAX)), 4096);
}

#[test]
fn test_sequence_keeps_order_and_grows_past_the_hint() {
    let mut seq = ByteSeq::new(Some(2));
    for b in 0..=255u8 {
        assert!(seq.accept(Some(b)));
    }
    assert!(!seq.accept(None));
    let bytes = deserialize_byte_buf(Raw::Elements(seq));
    assert_eq!(bytes, (0..=255u8).collect::<Vec<u8>>());
}

#[test]
fn test_sequence_with_a_lying_hint() {
    let mut seq = ByteSeq::new(Some(usize::MAX));
    assert!(seq.accept(Some(1)));
    assert!(!seq.accept(None));
    assert_eq!(seq.into_bytes(), vec![1]);
}

#[test]
fn test_empty_sequence() {
    let mut seq = ByteSeq::new(None);
    assert!(!seq.accept(None));
    assert_eq!(deserialize_byte_buf(Raw::Elements(seq)), Vec::<u8>::new());
}

#[test]
fn test_every_answer_becomes_one_buffer() {
    assert_eq!(deserialize_byte_buf(Raw::Bytes(&[1, 2, 3])), vec![1, 2, 3]);
    assert_eq!(deserialize_byte_buf(Raw::ByteBuf(vec![4, 5])), vec![4, 5]);
    assert_eq!(deserialize_byte_buf(Raw::Str("aé")), vec![0x61, 0xc3, 0xa9]);
    assert_eq!(deserialize_byte_buf(Raw::String("aaa".to_owned())), vec![97, 97, 97]);
}

#[test]
fn test_sequence_remembers_what_it_reserved() {
    assert_eq!(ByteSeq::new(None).initial_capacity(), 0);
    assert_eq!(ByteSeq::new(Some(17)).initial_capacity(), 17);
    assert_eq!(ByteSeq::new(Some(4096)).initial_capacity(), 4096);
    assert_eq!(ByteSeq::new(Some(4097)).initial_capacity(), 4096);
    assert_eq!(ByteSeq::new(Some(usize::MAX)).initial_capacity(), 4096);
    let mut seq = ByteSeq::new(Some(1));
    assert!(seq.accept(Some(1)));
    assert!(seq.accept(Some(2)));
    assert_eq!(seq.initial_capacity(), 1);
}
