use gonhanh_win::wide::{encode_wide, push_scalar};

#[test]
fn encode_wide_terminates_with_nul() {
    assert_eq!(encode_wide(""), vec![0]);
    assert_eq!(encode_wide("Error"), vec![0x45, 0x72, 0x72, 0x6F, 0x72, 0]);
}

#[test]
fn encode_wide_matches_the_standard_encoding() {
    for text in ["Gõ Nhanh", "Tiếng Việt", "GoNhanh", "a😀b", "\u{FFFF}\u{10000}\u{10FFFF}"] {
        let mut expected: Vec<u16> = text.encode_utf16().collect();
        expected.push(0);
        assert_eq!(encode_wide(text), expected);
    }
}

#[test]
fn push_scalar_inside_the_basic_plane() {
    let mut out = vec![7];
    push_scalar(&mut out, 0x1EC7);
    assert_eq!(out, vec![7, 0x1EC7]);
    push_scalar(&mut out, 0xFFFF);
    assert_eq!(out, vec![7, 0x1EC7, 0xFFFF]);
}

#[test]
fn push_scalar_above_the_basic_plane() {
    let mut out = Vec::new();
    push_scalar(&mut out, 0x10000);
    assert_eq!(out, vec![0xD800, 0xDC00]);
    push_scalar(&mut out, 0x10FFFF);
    assert_eq!(out, vec![0xD800, 0xDC00, 0xDBFF, 0xDFFF]);
}
