use arrow_export::ArrowArray;
use arrow_export::ScalarFields;
use arrow_export::codec::i64_from_le_bytes;
use arrow_export::codec::i64_to_le_bytes;
use arrow_export::codec::scalars_from_le_bytes;
use arrow_export::codec::scalars_to_le_bytes;
use arrow_export::export_int32_data;

#[test]
fn i64_le_bytes_exact_encoding() {
    let bytes = i64_to_le_bytes(1000);
    assert_eq!(bytes, vec![0xe8, 0x03, 0, 0, 0, 0, 0, 0]);
    let bytes = i64_to_le_bytes(-1);
    assert_eq!(bytes, vec![0xff; 8]);
    let bytes = i64_to_le_bytes(0);
    assert_eq!(bytes, vec![0; 8]);
}

#[test]
fn i64_le_bytes_round_trip() {
    for x in [0i64, 1, -1, 1000, i64::MIN, i64::MAX, -123456789] {
        let bytes = i64_to_le_bytes(x);
        assert_eq!(i64_from_le_bytes(&bytes), x);
    }
}

#[test]
fn scalar_header_exact_encoding() {
    let f = ScalarFields { length: 1000, null_count: 0, offset: 0, n_buffers: 2, n_children: 0 };
    let bytes = scalars_to_le_bytes(&f);
    assert_eq!(bytes.len(), 40);
    let mut expected = vec![0u8; 40];
    expected[0] = 0xe8;
    expected[1] = 0x03;
    expected[24] = 0x02;
    assert_eq!(bytes, expected);
}

#[test]
fn scalar_header_round_trip() {
    let f = ScalarFields {
        length: 42,
        null_count: -1,
        offset: 7,
        n_buffers: 2,
        n_children: i64::MAX,
    };
    let bytes = scalars_to_le_bytes(&f);
    let back = scalars_from_le_bytes(&bytes).unwrap();
    assert_eq!(back, f);
}

#[test]
fn scalar_header_rejects_wrong_length() {
    assert!(scalars_from_le_bytes(&[]).is_none());
    assert!(scalars_from_le_bytes(&[0u8; 39]).is_none());
    assert!(scalars_from_le_bytes(&[0u8; 41]).is_none());
    assert!(scalars_from_le_bytes(&[0u8; 40]).is_some());
}

#[test]
fn exported_descriptor_scalar_round_trip() {
    let mut d = ArrowArray::default();
    export_int32_data(&mut d);
    let f = d.scalar_fields();
    let bytes = scalars_to_le_bytes(&f);
    let back = scalars_from_le_bytes(&bytes).unwrap();
    assert_eq!(back, f);
    assert_eq!(back.length, 1000);
    assert_eq!(back.null_count, 0);
    assert_eq!(back.offset, 0);
    assert_eq!(back.n_buffers, 2);
    assert_eq!(back.n_children, 0);
}
