use rbx_studio_mcp::encoding::encode_query_value;
use rbx_studio_mcp::text::is_blank_str;

#[test]
fn unreserved_characters_pass_through() {
    assert_eq!(encode_query_value("AZaz09-_.~"), "AZaz09-_.~");
}

#[test]
fn space_becomes_plus() {
    assert_eq!(encode_query_value("red car"), "red+car");
}

#[test]
fn reserved_bytes_are_percent_encoded_in_upper_case() {
    assert_eq!(encode_query_value("a&b=c#d?e/f+g%"), "a%26b%3Dc%23d%3Fe%2Ff%2Bg%25");
}

#[test]
fn multibyte_characters_encode_each_utf8_byte() {
    assert_eq!(encode_query_value("é"), "%C3%A9");
    assert_eq!(encode_query_value("日本"), "%E6%97%A5%E6%9C%AC");
}

#[test]
fn empty_value_encodes_to_empty() {
    assert_eq!(encode_query_value(""), "");
}

#[test]
fn encoded_values_hold_only_query_safe_characters() {
    let encoded = encode_query_value("tree & house = \"cozy\" #1\n\t☃");
    assert!(encoded
        .chars()
        .all(|c| c.is_ascii_alphanumeric() || "-_.~+%".contains(c)));
}

#[test]
fn blank_texts() {
    assert!(is_blank_str(""));
    assert!(is_blank_str(" \t\n\r\u{0b}\u{0c}"));
    assert!(is_blank_str("\u{85}\u{a0}\u{1680}\u{2000}\u{200a}\u{2028}\u{2029}\u{202f}\u{205f}\u{3000}"));
    assert!(!is_blank_str(" a "));
    assert!(!is_blank_str("\u{200b}"));
}

#[test]
fn blank_matches_std_trim() {
    for s in ["", "  ", "x", " \u{3000} ", "\u{feff}", "\u{180e}", " \u{2007} "] {
        assert_eq!(is_blank_str(s), s.trim().is_empty(), "{s:?}");
    }
}

fn decode(encoded: &str) -> Vec<u8> {
    let chars: Vec<char> = encoded.chars().collect();
    let mut out = Vec::new();
    let mut i = 0;
    while i < chars.len() {
        match chars[i] {
            '%' => {
                let hex: String = chars[i + 1..i + 3].iter().collect();
                out.push(u8::from_str_radix(&hex, 16).unwrap());
                i += 3;
            }
            '+' => {
                out.push(b' ');
                i += 1;
            }
            c => {
                out.push(c as u8);
                i += 1;
            }
        }
    }
    out
}

#[test]
fn decoding_gives_back_the_value() {
    for value in ["", "plain", "a b+c", "100% sure", "😀 emoji", "x=1&y=2#frag", "~-._"] {
        assert_eq!(decode(&encode_query_value(value)), value.as_bytes());
    }
}

#[test]
fn different_values_encode_differently() {
    let values = ["a b", "a+b", "a%20b", "a%2Bb", "a\u{a0}b"];
    for (i, x) in values.iter().enumerate() {
        for y in values.iter().skip(i + 1) {
            assert_ne!(encode_query_value(x), encode_query_value(y));
        }
    }
}
