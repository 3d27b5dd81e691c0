use wbgui::text::str_to_u16;

fn round_trip(s: &str) -> String {
    let wide = str_to_u16(s);
    assert_eq!(wide.last(), Some(&0u16));
    String::from_utf16(&wide[..wide.len() - 1]).unwrap()
}

#[test]
fn empty_text_is_terminator_only() {
    assert_eq!(str_to_u16(""), vec![0u16]);
}

#[test]
fn ascii_text_one_unit_each() {
    assert_eq!(str_to_u16("Count up"), vec![67, 111, 117, 110, 116, 32, 117, 112, 0]);
}

#[test]
fn basic_plane_text_one_unit_each() {
    // "カウントup": katakana take three bytes in UTF-8 but one UTF-16 unit
    assert_eq!(
        str_to_u16("\u{30ab}\u{30a6}\u{30f3}\u{30c8}up"),
        vec![0x30ab, 0x30a6, 0x30f3, 0x30c8, 0x75, 0x70, 0]
    );
}

#[test]
fn astral_character_becomes_surrogate_pair() {
    assert_eq!(str_to_u16("\u{1f600}"), vec![0xd83d, 0xde00, 0]);
    assert_eq!(str_to_u16("a\u{10ffff}b"), vec![0x61, 0xdbff, 0xdfff, 0x62, 0]);
    assert_eq!(str_to_u16("\u{10000}"), vec![0xd800, 0xdc00, 0]);
}

#[test]
fn two_byte_utf8_character() {
    assert_eq!(str_to_u16("\u{e9}"), vec![0xe9, 0]);
}

#[test]
fn round_trip_gives_text_back() {
    for s in ["", "Count up", "\u{30c6}\u{30b9}\u{30c8}", "a\u{1f600}b\u{10ffff}", "\u{ffff}\u{e000}"] {
        assert_eq!(round_trip(s), s);
    }
}

#[test]
fn length_matches_std_utf16() {
    let s = "mixed \u{e9}\u{30ab}\u{1f600} text";
    let expected: Vec<u16> = s.encode_utf16().chain(std::iter::once(0)).collect();
    assert_eq!(str_to_u16(s), expected);
}
