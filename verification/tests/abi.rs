use precompile_registry::abi::{decode_tail, encode_word, has_selector, U64_LEN, WORD_LEN};

fn padded(selector: [u8; 4], value: u64) -> Vec<u8> {
    let mut data = selector.to_vec();
    data.extend_from_slice(&[0u8; 24]);
    data.extend_from_slice(&value.to_be_bytes());
    data
}

#[test]
fn word_of_one_hundred_is_31_zeros_then_100() {
    let mut expected = vec![0u8; 31];
    expected.push(100);
    assert_eq!(encode_word(100), expected);
}

#[test]
fn word_of_zero_is_all_zero() {
    assert_eq!(encode_word(0), vec![0u8; 32]);
}

#[test]
fn word_of_max_has_eight_ff_bytes() {
    let word = encode_word(u64::MAX);
    assert_eq!(word.len(), WORD_LEN);
    assert_eq!(&word[..24], &[0u8; 24]);
    assert_eq!(&word[24..], &[0xffu8; 8]);
}

#[test]
fn word_keeps_byte_order() {
    let word = encode_word(0x0102_0304_0506_0708);
    assert_eq!(&word[24..], &[1u8, 2, 3, 4, 5, 6, 7, 8]);
    assert_eq!(&word[24..], &0x0102_0304_0506_0708u64.to_be_bytes());
}

#[test]
fn word_matches_std_big_endian() {
    for value in [1u64, 42, 255, 256, 65_535, 65_536, 1 << 32, (1 << 56) + 7, u64::MAX - 1] {
        let word = encode_word(value);
        assert_eq!(&word[..24], &[0u8; 24]);
        assert_eq!(&word[24..], &value.to_be_bytes());
    }
}

#[test]
fn tail_of_exactly_eight_bytes() {
    assert_eq!(decode_tail(&[0, 0, 0, 0, 0, 0, 0, 42]), 42);
    assert_eq!(decode_tail(&[1, 2, 3, 4, 5, 6, 7, 8]), 0x0102_0304_0506_0708);
    assert_eq!(decode_tail(&[0xff; U64_LEN]), u64::MAX);
}

#[test]
fn tail_ignores_what_comes_before() {
    let data = padded([0xaa, 0xbb, 0xcc, 0xdd], 0xdead_beef);
    assert_eq!(data.len(), 36);
    assert_eq!(decode_tail(&data), 0xdead_beef);
    let mut longer = vec![0x11u8; 100];
    longer.extend_from_slice(&7u64.to_be_bytes());
    assert_eq!(decode_tail(&longer), 7);
}

#[test]
fn tail_of_a_word_is_its_value() {
    for value in [0u64, 1, 42, 1 << 40, u64::MAX] {
        assert_eq!(decode_tail(&encode_word(value)), value);
    }
}

#[test]
fn selector_is_matched_as_a_prefix() {
    let selector = [0x57, 0xde, 0x26, 0xa4];
    assert!(has_selector(&[0x57, 0xde, 0x26, 0xa4], &selector));
    assert!(has_selector(&[0x57, 0xde, 0x26, 0xa4, 0x00, 0x01], &selector));
    assert!(!has_selector(&[0x57, 0xde, 0x26], &selector));
    assert!(!has_selector(&[], &selector));
    assert!(!has_selector(&[0x57, 0xde, 0x26, 0xa5], &selector));
    assert!(!has_selector(&[0x00, 0x57, 0xde, 0x26, 0xa4], &selector));
}
