use gpu_readback::words::{decode_words, encode_words, zeroed_words_bytes, ByteOrder};

#[test]
fn decode_little_and_big() {
    let bytes = [0x01u8, 0x02, 0x03, 0x04, 0xff, 0x00, 0x00, 0x80];
    assert_eq!(decode_words(&bytes, ByteOrder::Little), vec![0x0403_0201, 0x8000_00ff]);
    assert_eq!(decode_words(&bytes, ByteOrder::Big), vec![0x0102_0304, 0xff00_0080]);
}

#[test]
fn decode_length_is_quarter_of_bytes() {
    assert_eq!(decode_words(&[], ByteOrder::Little), Vec::<u32>::new());
    assert_eq!(decode_words(&[1, 2, 3], ByteOrder::Little), Vec::<u32>::new());
    assert_eq!(decode_words(&[1, 0, 0, 0, 5, 6], ByteOrder::Little), vec![1]);
    assert_eq!(decode_words(&[0u8; 24], ByteOrder::Big).len(), 6);
}

#[test]
fn encode_exact_bytes() {
    assert_eq!(encode_words(&[0x0403_0201], ByteOrder::Little), vec![1, 2, 3, 4]);
    assert_eq!(encode_words(&[0x0403_0201], ByteOrder::Big), vec![4, 3, 2, 1]);
    assert_eq!(encode_words(&[], ByteOrder::Big), Vec::<u8>::new());
}

#[test]
fn float_bit_patterns_round_trip() {
    let values = [0.0f32, -0.0, 1.5, f32::NAN, f32::INFINITY, f32::NEG_INFINITY, f32::MIN_POSITIVE, f32::MAX];
    let mut words: Vec<u32> = values.iter().map(|v| v.to_bits()).collect();
    words.push(0x7fc0_0001);
    words.push(0xffff_ffff);
    for order in [ByteOrder::Little, ByteOrder::Big] {
        let back = decode_words(&encode_words(&words, order), order);
        assert_eq!(back, words);
        let floats: Vec<f32> = back.iter().map(|w| f32::from_bits(*w)).collect();
        assert!(floats[3].is_nan());
        assert_eq!(floats[4], f32::INFINITY);
        assert_eq!(floats[2], 1.5);
    }
}

#[test]
fn bytes_round_trip() {
    let bytes: Vec<u8> = (0u8..32).map(|b| b.wrapping_mul(37)).collect();
    for order in [ByteOrder::Little, ByteOrder::Big] {
        assert_eq!(encode_words(&decode_words(&bytes, order), order), bytes);
    }
}

#[test]
fn native_decoding_matches_std() {
    let values = [3.25f32, -7.0, f32::NAN];
    let mut bytes: Vec<u8> = Vec::new();
    for v in values {
        bytes.extend_from_slice(&v.to_ne_bytes());
    }
    let order = if u32::from_ne_bytes([1, 0, 0, 0]) == 1 { ByteOrder::Little } else { ByteOrder::Big };
    let words = decode_words(&bytes, order);
    let expected: Vec<u32> = values.iter().map(|v| v.to_bits()).collect();
    assert_eq!(words, expected);
}

#[test]
fn zeroed_buffer_is_all_zero() {
    assert_eq!(zeroed_words_bytes(6), vec![0u8; 24]);
    assert_eq!(zeroed_words_bytes(0), Vec::<u8>::new());
}
