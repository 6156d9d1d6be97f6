use plugin_bridge::{decode, encode, terminator_index};

fn wide(text: &str) -> Vec<u16> {
    text.encode_utf16().collect()
}

fn widen(narrow: &[u8]) -> Vec<u16> {
    narrow.iter().map(|byte| u16::from(*byte)).collect()
}

#[test]
fn decode_of_no_answer_is_empty() {
    assert_eq!(decode(None), "");
    assert_eq!(decode(None).len(), 0);
}

#[test]
fn decode_reads_up_to_the_terminator() {
    assert_eq!(decode(Some(wide("Sub Main()\0"))), "Sub Main()");
}

#[test]
fn decode_ignores_what_follows_the_first_terminator() {
    assert_eq!(decode(Some(wide("Form1\0leftover\0"))), "Form1");
    assert_eq!(decode(Some(vec![0x41, 0, 0x42, 0x43, 0])), "A");
}

#[test]
fn decode_of_a_lone_terminator_is_empty() {
    assert_eq!(decode(Some(vec![0])), "");
    assert_eq!(decode(Some(vec![0, 0x41])), "");
}

#[test]
fn decode_of_a_buffer_without_units_is_empty() {
    assert_eq!(decode(Some(Vec::new())), "");
}

#[test]
fn decode_without_terminator_reads_the_whole_buffer() {
    assert_eq!(decode(Some(wide("abc"))), "abc");
}

#[test]
fn decode_of_a_long_buffer_is_not_cut_short() {
    let count: usize = 100_000;
    let mut units: Vec<u16> = Vec::with_capacity(count + 1);
    for i in 0..count {
        units.push(0x61 + (i % 26) as u16);
    }
    units.push(0);
    let text = decode(Some(units));
    assert_eq!(text.len(), count);
    assert_eq!(text.chars().count(), count);
    let expected: String = (0..count).map(|i| (b'a' + (i % 26) as u8) as char).collect();
    assert_eq!(text, expected);
    assert_eq!(text.chars().last(), Some((b'a' + ((count - 1) % 26) as u8) as char));
}

#[test]
fn decode_keeps_characters_beyond_ascii() {
    assert_eq!(decode(Some(vec![0x00E9, 0x65E5, 0x672C, 0])), "é日本");
    assert_eq!(decode(Some(vec![0xFFFF, 0xE000, 0xD7FF, 0])), "\u{FFFF}\u{E000}\u{D7FF}");
}

#[test]
fn decode_joins_a_surrogate_pair() {
    assert_eq!(decode(Some(vec![0xD834, 0xDD1E, 0])), "\u{1D11E}");
    assert_eq!(decode(Some(vec![0xD800, 0xDC00, 0])), "\u{10000}");
    assert_eq!(decode(Some(vec![0xDBFF, 0xDFFF, 0])), "\u{10FFFF}");
}

#[test]
fn decode_replaces_a_surrogate_without_partner() {
    assert_eq!(decode(Some(vec![0xDD1E, 0])), "\u{FFFD}");
    assert_eq!(decode(Some(vec![0xD834, 0])), "\u{FFFD}");
    assert_eq!(decode(Some(vec![0xD834])), "\u{FFFD}");
    assert_eq!(decode(Some(vec![0xD834, 0x0041, 0])), "\u{FFFD}A");
    assert_eq!(decode(Some(vec![0xD834, 0xD834, 0xDD1E, 0])), "\u{FFFD}\u{1D11E}");
    assert_eq!(decode(Some(vec![0xDC00, 0xD800, 0])), "\u{FFFD}\u{FFFD}");
}

#[test]
fn decode_of_mixed_text_replaces_only_what_is_broken() {
    let units: Vec<u16> = vec![
        0xD834, 0xDD1E, 0x006D, 0x0075, 0x0073, 0xDD1E, 0x0069, 0x0063, 0xD834, 0,
    ];
    assert_eq!(decode(Some(units)), "\u{1D11E}mus\u{FFFD}ic\u{FFFD}");
}

#[test]
fn decode_differs_from_its_input() {
    let units: Vec<u16> = vec![0x48, 0x69, 0];
    let text = decode(Some(units.clone()));
    assert_eq!(text, "Hi");
    assert_ne!(text.encode_utf16().collect::<Vec<u16>>(), units);
}

#[test]
fn terminator_index_counts_the_units_before_the_first_zero() {
    assert_eq!(terminator_index(&[]), 0);
    assert_eq!(terminator_index(&[0]), 0);
    assert_eq!(terminator_index(&[7, 8, 9]), 3);
    assert_eq!(terminator_index(&[7, 8, 0, 9, 0]), 2);
    assert_eq!(terminator_index(&wide("Sub Main()\0")), 10);
}

#[test]
fn encode_closes_the_text_with_a_zero_byte() {
    assert_eq!(encode("abc"), vec![0x61, 0x62, 0x63, 0]);
    assert_eq!(encode("Sub Main()"), b"Sub Main()\0".to_vec());
}

#[test]
fn encode_of_the_empty_text_is_the_empty_payload() {
    assert_eq!(encode(""), vec![0]);
}

#[test]
fn encode_of_a_text_with_nul_is_the_empty_payload() {
    assert_eq!(encode("a\0b"), vec![0]);
    assert_eq!(encode("\0"), vec![0]);
    assert_eq!(encode("\0abc"), vec![0]);
    assert_eq!(encode("abc\0"), vec![0]);
    assert_eq!(encode("é\0日"), vec![0]);
}

#[test]
fn encode_writes_utf8() {
    assert_eq!(encode("é"), vec![0xC3, 0xA9, 0]);
    assert_eq!(encode("日"), vec![0xE6, 0x97, 0xA5, 0]);
    assert_eq!(encode("\u{1D11E}"), vec![0xF0, 0x9D, 0x84, 0x9E, 0]);
}

#[test]
fn every_payload_ends_with_its_only_zero_byte() {
    for text in ["", "x", "a\0b", "Sub Main()\r\n", "é日\u{1D11E}", "\0\0"] {
        let payload = encode(text);
        assert_eq!(payload.last(), Some(&0));
        assert!(payload[..payload.len() - 1].iter().all(|byte| *byte != 0));
    }
}

#[test]
fn ascii_text_comes_back_from_the_round_trip() {
    for text in ["", "a", "Sub Main()", "Private Sub Form_Load()\r\nEnd Sub", "~ !\t\x7f\x01"] {
        assert_eq!(decode(Some(widen(&encode(text)))), text);
    }
}

#[test]
fn every_ascii_character_but_nul_comes_back() {
    let text: String = (1u8..=127).map(|byte| byte as char).collect();
    let payload = encode(&text);
    assert_eq!(payload.len(), 128);
    assert_eq!(decode(Some(widen(&payload))), text);
}

#[test]
fn text_beyond_ascii_does_not_come_back_from_widened_bytes() {
    assert_eq!(decode(Some(widen(&encode("é")))), "\u{C3}\u{A9}");
}

#[test]
fn decoded_text_is_sent_back_in_full() {
    let replies: Vec<Vec<u16>> = vec![
        wide("Sub Main()\0"),
        vec![0xD834, 0x41, 0],
        vec![0x41, 0, 0x42],
        vec![0],
        vec![0xD834, 0xDD1E, 0x00E9],
    ];
    for reply in replies {
        let text = decode(Some(reply));
        assert!(!text.contains('\0'));
        let mut expected = text.as_bytes().to_vec();
        expected.push(0);
        assert_eq!(encode(&text), expected);
    }
}
