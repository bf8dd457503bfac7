use dhl_wrapper::percent::{percent_decode, percent_encode};

#[test]
fn unreserved_characters_stand_for_themselves() {
    let text = "ABCDEFGHIJKLMNOPQRSTUVWXYZabcdefghijklmnopqrstuvwxyz0123456789-._~:@/,;!$'()*";
    assert_eq!(percent_encode(text), text);
    assert_eq!(percent_decode(text), Some(text.to_string()));
    assert_eq!(percent_encode(""), "");
    assert_eq!(percent_decode(""), Some(String::new()));
}

#[test]
fn other_bytes_are_written_in_upper_case_hex() {
    assert_eq!(percent_encode(" "), "%20");
    assert_eq!(percent_encode("%"), "%25");
    assert_eq!(percent_encode("&=?#+"), "%26%3D%3F%23%2B");
    assert_eq!(percent_encode("\"<>[]\\^`{|}"), "%22%3C%3E%5B%5D%5C%5E%60%7B%7C%7D");
    assert_eq!(percent_encode("\0\n\u{7f}"), "%00%0A%7F");
    assert_eq!(percent_encode("ö"), "%C3%B6");
    assert_eq!(percent_encode("€"), "%E2%82%AC");
    assert_eq!(percent_encode("\u{10FFFF}"), "%F4%8F%BF%BF");
    assert_eq!(percent_encode("Kohlhöfen 16"), "Kohlh%C3%B6fen%2016");
    assert_eq!(percent_encode("parcel:pick-up"), "parcel:pick-up");
    assert_eq!(percent_encode("a/b,c;d@e"), "a/b,c;d@e");
}

#[test]
fn every_byte_is_encoded_and_decoded() {
    for code in 0u32..0x800 {
        let text: String = char::from_u32(code).into_iter().collect();
        let encoded = percent_encode(&text);
        assert!(encoded.is_ascii());
        assert!(!encoded.contains(['&', '=', '?', ' ']));
        assert_eq!(percent_decode(&encoded), Some(text));
    }
}

#[test]
fn decoding_takes_only_what_encoding_writes() {
    assert_eq!(percent_decode("%20"), Some(" ".to_string()));
    assert_eq!(percent_decode("%C3%B6"), Some("ö".to_string()));
    assert_eq!(percent_decode("a%20b"), Some("a b".to_string()));
    assert_eq!(percent_decode("parcel:pick-up"), Some("parcel:pick-up".to_string()));
    for text in [
        " ", "a b", "ö", "&", "=", "+", "%", "%2", "%2G", "%G2", "%c3%b6", "%C3", "%FF", "%C3%28",
        "%41", "%7E", "%2D", "%30", "%3A", "%2F", "%40", "%ED%A0%80", "%C0%80", "a%", "%%",
        "%2%20", "#", "\"", "<", "[", "{",
    ] {
        assert_eq!(percent_decode(text), None, "{}", text);
    }
}
