use runtime_values::word_codec::{decode_wide_int, encode_wide_int};

#[test]
fn encode_always_gives_two_words() {
    assert_eq!(encode_wide_int(0).len(), 2);
    assert_eq!(encode_wide_int(7).len(), 2);
    assert_eq!(encode_wide_int(u128::MAX).len(), 2);
}

#[test]
fn decode_one_word_is_the_word() {
    assert_eq!(decode_wide_int(&[0]), 0);
    assert_eq!(decode_wide_int(&[42]), 42);
    assert_eq!(decode_wide_int(&[u64::MAX]), u64::MAX as u128);
}

#[test]
fn two_word_round_trip_reproduces_the_value() {
    let values: [u128; 6] = [
        0,
        1,
        u64::MAX as u128,
        1u128 << 64,
        0x0123_4567_89ab_cdef_fedc_ba98_7654_3210,
        u128::MAX,
    ];
    for v in values {
        assert_eq!(decode_wide_int(&encode_wide_int(v)), v);
    }
}

fn little_endian() -> bool {
    u16::from_ne_bytes([1, 0]) == 1
}

#[test]
fn encode_splits_into_low_and_high_word_in_memory_order() {
    let value: u128 = 0x0011_2233_4455_6677_8899_aabb_ccdd_eeff;
    let low: u64 = 0x8899_aabb_ccdd_eeff;
    let high: u64 = 0x0011_2233_4455_6677;
    if little_endian() {
        assert_eq!(encode_wide_int(value), vec![low, high]);
    } else {
        assert_eq!(encode_wide_int(value), vec![high, low]);
    }
}

#[test]
fn decode_two_words_joins_them_in_memory_order() {
    let first: u64 = 0x1111_2222_3333_4444;
    let second: u64 = 0x5555_6666_7777_8888;
    let decoded = decode_wide_int(&[first, second]);
    if little_endian() {
        assert_eq!(decoded, 0x5555_6666_7777_8888_1111_2222_3333_4444);
    } else {
        assert_eq!(decoded, 0x1111_2222_3333_4444_5555_6666_7777_8888);
    }
}

#[test]
fn one_word_path_round_trip_below_two_to_the_sixty_four() {
    for value in [0u128, 1, 255, 0xdead_beef, u64::MAX as u128] {
        let words = encode_wide_int(value);
        let low_first = if little_endian() { 0 } else { 1 };
        assert_eq!(words[1 - low_first], 0);
        assert_eq!(decode_wide_int(&words[low_first..low_first + 1]), value);
    }
}

#[test]
fn decode_agrees_with_the_standard_conversions() {
    let words: [u64; 2] = [0x0123_4567_89ab_cdef, 0xfedc_ba98_7654_3210];
    let mut bytes = [0u8; 16];
    bytes[..8].copy_from_slice(&words[0].to_ne_bytes());
    bytes[8..].copy_from_slice(&words[1].to_ne_bytes());
    assert_eq!(decode_wide_int(&words), u128::from_ne_bytes(bytes));
    assert_eq!(decode_wide_int(&words[..1]), words[0] as u128);
}
