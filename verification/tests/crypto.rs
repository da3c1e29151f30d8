use mirrorx_core::crypto::significant_len;

#[test]
fn significant_length_of_little_endian() {
    assert_eq!(significant_len(&[]), 0);
    assert_eq!(significant_len(&[0, 0]), 0);
    assert_eq!(significant_len(&[1, 0, 0]), 1);
    assert_eq!(significant_len(&[0, 0, 7]), 3);
    assert_eq!(significant_len(&[5, 0, 7, 0]), 3);
}
