use win_locate::wide::{decode_wide, encode_wide};

#[test]
fn encode_ascii_appends_nul() {
    assert_eq!(encode_wide("C:\\a"), vec![0x43, 0x3A, 0x5C, 0x61, 0]);
}

#[test]
fn encode_empty_is_nul_alone() {
    assert_eq!(encode_wide(""), vec![0]);
}

#[test]
fn encode_bmp_character_is_one_unit() {
    assert_eq!(encode_wide("\u{00E9}\u{20AC}\u{FFFD}"), vec![0x00E9, 0x20AC, 0xFFFD, 0]);
}

#[test]
fn encode_boundaries_of_the_surrogate_gap() {
    assert_eq!(encode_wide("\u{D7FF}\u{E000}\u{FFFF}"), vec![0xD7FF, 0xE000, 0xFFFF, 0]);
}

#[test]
fn encode_astral_character_is_a_surrogate_pair() {
    assert_eq!(encode_wide("\u{1D11E}"), vec![0xD834, 0xDD1E, 0]);
    assert_eq!(encode_wide("\u{10000}"), vec![0xD800, 0xDC00, 0]);
    assert_eq!(encode_wide("\u{10FFFF}"), vec![0xDBFF, 0xDFFF, 0]);
}

#[test]
fn encode_agrees_with_std() {
    let text = "\\\\?\\C:\\Users\\J\u{00F6}rg\\\u{1F600}.exe";
    let mut expected: Vec<u16> = text.encode_utf16().collect();
    expected.push(0);
    assert_eq!(encode_wide(text), expected);
}

#[test]
fn decode_zero_length_is_nothing() {
    assert_eq!(decode_wide(&[0x61, 0x62], 0), None);
    assert_eq!(decode_wide(&[], 0), None);
}

#[test]
fn decode_length_beyond_buffer_is_nothing() {
    assert_eq!(decode_wide(&[0x61, 0x62], 3), None);
    assert_eq!(decode_wide(&[], 1), None);
    assert_eq!(decode_wide(&[0x61], u32::MAX), None);
}

#[test]
fn decode_takes_only_the_reported_units() {
    assert_eq!(decode_wide(&[0x61, 0x62, 0x63, 0], 2), Some(String::from("ab")));
    assert_eq!(decode_wide(&[0x61, 0x62, 0x63], 3), Some(String::from("abc")));
}

#[test]
fn decode_surrogate_pair() {
    assert_eq!(decode_wide(&[0xD834, 0xDD1E, 0x21], 3), Some(String::from("\u{1D11E}!")));
}

#[test]
fn decode_replaces_unpaired_surrogates() {
    let units = [0xD834, 0xDD1E, 0x006D, 0x0075, 0x0073, 0xDD1E, 0x0069, 0x0063, 0xD834];
    assert_eq!(
        decode_wide(&units, 9),
        Some(String::from("\u{1D11E}mus\u{FFFD}ic\u{FFFD}"))
    );
}

#[test]
fn decode_high_surrogate_before_ordinary_unit() {
    assert_eq!(decode_wide(&[0xD800, 0x41], 2), Some(String::from("\u{FFFD}A")));
    assert_eq!(decode_wide(&[0xD800, 0xD800, 0xDC00], 3), Some(String::from("\u{FFFD}\u{10000}")));
}

#[test]
fn decode_pair_cut_by_the_length() {
    assert_eq!(decode_wide(&[0x41, 0xD834, 0xDD1E], 2), Some(String::from("A\u{FFFD}")));
}

#[test]
fn decode_undoes_encode() {
    let text = "\\Device\\HarddiskVolume3\\Program Files\\\u{00C4}pp\\\u{1F680}.exe";
    let wide = encode_wide(text);
    let len = (wide.len() - 1) as u32;
    assert_eq!(decode_wide(&wide, len), Some(String::from(text)));
}
