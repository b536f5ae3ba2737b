use crypto_digest::url::{is_unreserved_byte, percent_encode, push_percent_encoded};

#[test]
fn unreserved_characters_stand_for_themselves() {
    let plain = "ABCDEFGHIJKLMNOPQRSTUVWXYZabcdefghijklmnopqrstuvwxyz0123456789-._~";
    assert_eq!(percent_encode(plain), plain);
    assert_eq!(percent_encode(""), "");
}

#[test]
fn every_other_byte_is_written_in_hexadecimal() {
    assert_eq!(percent_encode(" "), "%20");
    assert_eq!(percent_encode("a&b=c#d"), "a%26b%3Dc%23d");
    assert_eq!(percent_encode("100%"), "100%25");
    assert_eq!(percent_encode("a+b/c?d"), "a%2Bb%2Fc%3Fd");
    assert_eq!(percent_encode("\0\n\u{7f}"), "%00%0A%7F");
    assert_eq!(percent_encode("@[]`{|}"), "%40%5B%5D%60%7B%7C%7D");
}

#[test]
fn characters_beyond_ascii_are_written_byte_by_byte() {
    assert_eq!(percent_encode("é"), "%C3%A9");
    assert_eq!(percent_encode("€"), "%E2%82%AC");
    assert_eq!(percent_encode("🚀"), "%F0%9F%9A%80");
    assert_eq!(percent_encode("a\u{ff}z"), "a%C3%BFz");
}

#[test]
fn exactly_the_unreserved_bytes_are_kept() {
    for b in 0u8..=255 {
        let expected = b.is_ascii_alphanumeric() || b"-._~".contains(&b);
        assert_eq!(is_unreserved_byte(b), expected, "{}", b);
    }
    for c in (0u32..0x80).filter_map(char::from_u32) {
        let text = c.to_string();
        let expected = if is_unreserved_byte(c as u8) { text.clone() } else { format!("%{:02X}", c as u32) };
        assert_eq!(percent_encode(&text), expected);
    }
}

#[test]
fn encoding_is_appended_after_what_is_there() {
    let mut out = String::from("?q=");
    push_percent_encoded(&mut out, "a b");
    push_percent_encoded(&mut out, "&");
    assert_eq!(out, "?q=a%20b%26");
}
