use tt_health_daemon::{decode, parse_u32, read_attribute, read_text, read_u32, trim_spaces, AttrFile, AttrValue, Encoding};

fn file(name: &str, content: &str) -> AttrFile {
    AttrFile { name: name.to_string(), content: Some(content.to_string()) }
}

#[test]
fn hex_clock_with_surrounding_space() {
    let v = decode(" 1a2b\n", Encoding::HexU32);
    assert!(matches!(v, Some(AttrValue::Number(6699))));
}

#[test]
fn decimal_and_hex_round_trip() {
    for n in [0u32, 1, 9, 10, 15, 16, 255, 1000, 65535, 123456789, u32::MAX] {
        assert_eq!(parse_u32(&format!("{}", n), 10), Some(n));
        assert_eq!(parse_u32(&format!("{:x}", n), 16), Some(n));
        assert_eq!(parse_u32(&format!("{:X}", n), 16), Some(n));
    }
}

#[test]
fn malformed_numbers_are_absent() {
    assert_eq!(parse_u32("", 10), None);
    assert_eq!(parse_u32("+", 10), None);
    assert_eq!(parse_u32("-1", 10), None);
    assert_eq!(parse_u32("12g", 16), None);
    assert_eq!(parse_u32("1a", 10), None);
    assert_eq!(parse_u32("0x10", 16), None);
    assert_eq!(parse_u32("4294967296", 10), None);
    assert_eq!(parse_u32("100000000", 16), None);
    assert_eq!(parse_u32("1 2", 10), None);
    assert!(decode("not a number\n", Encoding::DecU32).is_none());
}

#[test]
fn numbers_match_std_parsing() {
    for s in ["+5", "007", "ffffffff", "FfFf", "++1", "4294967295", "99999999999", "٣"] {
        assert_eq!(parse_u32(s, 10), u32::from_str_radix(s, 10).ok());
        assert_eq!(parse_u32(s, 16), u32::from_str_radix(s, 16).ok());
    }
}

#[test]
fn trim_removes_unicode_white_space() {
    assert_eq!(trim_spaces("  n150\n"), "n150");
    assert_eq!(trim_spaces("\u{a0}\u{3000}x y\t\r\n"), "x y");
    assert_eq!(trim_spaces(" \n\t "), "");
    assert_eq!(trim_spaces(""), "");
    let s = "\u{2028} mixed \u{85}";
    assert_eq!(trim_spaces(s), s.trim());
}

#[test]
fn text_attribute_is_trimmed() {
    match decode("  18.7.0.0\n", Encoding::Text) {
        Some(AttrValue::Text(t)) => assert_eq!(t, "18.7.0.0"),
        other => panic!("unexpected {:?}", other),
    }
}

#[test]
fn zero_is_distinct_from_absent() {
    let entries = vec![file("curr1_input", "0\n")];
    assert_eq!(read_u32(&entries, "curr1_input", Encoding::DecU32), Some(0));
    assert_eq!(read_u32(&entries, "power1_input", Encoding::DecU32), None);
}

#[test]
fn unreadable_or_missing_files_are_absent() {
    let entries = vec![
        AttrFile { name: "tt_serial".to_string(), content: None },
        file("tt_card_type", "n300\n"),
    ];
    assert_eq!(read_text(&entries, "tt_serial"), None);
    assert_eq!(read_text(&entries, "tt_asic_id"), None);
    assert_eq!(read_text(&entries, "tt_card_type"), Some("n300".to_string()));
    assert!(read_attribute(&entries, "tt_serial", Encoding::Text).is_none());
}

#[test]
fn first_file_of_a_name_is_read() {
    let entries = vec![file("tt_aiclk", "10"), file("tt_aiclk", "20")];
    assert_eq!(read_u32(&entries, "tt_aiclk", Encoding::HexU32), Some(16));
}

#[test]
fn padded_numbers_round_trip() {
    for n in [0u32, 7, 6699, 4294967295] {
        for (pre, post) in [("", ""), (" ", "\n"), ("\t\n ", "  \r\n"), ("\u{3000}", "\u{a0}")] {
            let dec = format!("{}{}{}", pre, n, post);
            assert!(matches!(decode(&dec, Encoding::DecU32), Some(AttrValue::Number(m)) if m == n));
            let hex = format!("{}{:x}{}", pre, n, post);
            assert!(matches!(decode(&hex, Encoding::HexU32), Some(AttrValue::Number(m)) if m == n));
        }
    }
}
