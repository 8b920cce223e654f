use keylime_agent::numbers::{parse_entry, parse_mask};
use keylime_agent::text::decimal_text;
use keylime_agent::unicode::{is_all_alphanumeric, is_blank};

#[test]
fn masks_are_read_as_hexadecimal() {
    assert_eq!(parse_mask("0x408000"), Some(0x408000));
    assert_eq!(parse_mask("408000"), Some(0x408000));
    assert_eq!(parse_mask("0x0x1F"), Some(0x1f));
    assert_eq!(parse_mask("00000000000000000000ffffffff"), Some(u32::MAX));
    assert_eq!(parse_mask("+f"), Some(15));
    for bad in ["", "0x", "+", "++1", "-1", "0xG", "0X1", "100000000", "1 ", "é", "f0xf"] {
        assert_eq!(parse_mask(bad), None, "{bad}");
    }
}

#[test]
fn masks_are_read_as_the_standard_library_reads_them() {
    for mask in ["", "0", "0x", "x", "0x1", "1x", "fF", "+", "+0", "-0", "ffffffff", "1ffffffff", "0xé"] {
        let expected = u32::from_str_radix(mask.trim_start_matches("0x"), 16).ok();
        assert_eq!(parse_mask(mask), expected, "{mask}");
    }
}

#[test]
fn hex_prefixes_are_optional() {
    for mask in ["", "1", "0x1", "zz"] {
        assert_eq!(parse_mask(&format!("0x{mask}")), parse_mask(mask));
    }
}

#[test]
fn entries_are_read_as_decimal() {
    assert_eq!(parse_entry(None), 0);
    for entry in ["0", "12", "+12", "012", "18446744073709551615", "18446744073709551616", "-1", "1a", "", " 1"] {
        assert_eq!(parse_entry(Some(entry)), entry.parse::<u64>().unwrap_or(0), "{entry}");
    }
}

#[test]
fn written_entries_are_read_back() {
    for n in [0u64, 9, 10, 1234567890, u64::MAX] {
        let text = decimal_text(n as u128);
        assert_eq!(text, n.to_string());
        assert_eq!(parse_entry(Some(&text)), n);
    }
    assert_eq!(decimal_text(u128::MAX), "340282366920938463463374607431768211455");
}

#[test]
fn letters_and_numbers_are_alphanumeric() {
    assert!(is_all_alphanumeric(""));
    assert!(is_all_alphanumeric("azAZ09"));
    assert!(is_all_alphanumeric("ßΩ京½"));
    for bad in ["/", ":", "@", "[", "`", "{", "_", " ", "a\u{301}", "💝"] {
        assert!(!is_all_alphanumeric(bad), "{bad}");
    }
    for c in 0..128u8 {
        let c = c as char;
        assert_eq!(is_all_alphanumeric(&c.to_string()), c.is_ascii_alphanumeric());
    }
}

#[test]
fn white_space_is_blank() {
    for c in 0..128u8 {
        let text = (c as char).to_string();
        assert_eq!(is_blank(&text), text.trim().is_empty());
    }
    for c in '\u{80}'..=char::MAX {
        let text = c.to_string();
        assert_eq!(is_blank(&text), text.trim().is_empty(), "{c:?}");
    }
    for text in ["", " \t\r\n", "\u{a0}\u{2003}", " 0x81000000 ", "\u{200b}"] {
        assert_eq!(is_blank(text), text.trim().is_empty());
    }
}
