use awsaml::codec::DecodeError;
use awsaml::codec::EncodedSAML;

const ENCODED_SAML_REQUEST: &str = "jZFRS8MwFIX%2fSsn72qZLXQxtIVs3GEyQTX3w7VKvrtAkNTed4q%2b369iToL5e7jmc75yCwHS90kM42j2%2bD0gh%2bjSdpZIN3ioH1JKyYJBUaNRB3%2b1UFqfKYIAXCMCibV2yjRS1lFLr%2bVKIFV9KIeaLXIu1zHha365Z9ISeWmdLNopHDdGAW0sBbBhPaZbPUj7jNw9cqJSrnMeLTD6f%2f%2b6BqD1hyV6hI2SRJkIfRqeVszQY9Af0p7bBx%2f2uZMcQelJJQu2bbW0MHxSDgS9n48aZ5AzKLmxqgv6dsPcuuMaNko3zDU4FXWNUxUTg%2f9MUXBOz6u98RXIxrork5y7VNw%3d%3d";

const ENCODED_EXAMPLE: &str = "yyotLlFIzFNIrUjMLchJBQA%3D";

#[test]
fn test_decode_to_raw_string() {
    let target = EncodedSAML::new(ENCODED_SAML_REQUEST.to_string());
    let result = target.to_raw_string().unwrap();
    assert!(result.starts_with("<samlp:AuthnRequest"));
}

#[test]
fn test_encode_decode() {
    let raw_string = "just an example".to_string();
    let target = EncodedSAML::from_raw_string(raw_string.to_string());
    let result = target.to_raw_string();
    assert!(result.is_ok());
    assert_eq!(result.unwrap(), raw_string);
}

#[test]
fn encode_example_matches_fixture() {
    let encoded = EncodedSAML::from_raw_string("just an example".to_string());
    assert_eq!(encoded.to_string(), ENCODED_EXAMPLE);
}

#[test]
fn decode_fixture_returns_example() {
    let encoded = EncodedSAML::new(ENCODED_EXAMPLE.to_string());
    assert_eq!(encoded.to_raw_string().unwrap(), "just an example");
}

#[test]
fn round_trip_empty_string() {
    let encoded = EncodedSAML::from_raw_string(String::new());
    assert_eq!(encoded.to_raw_string().unwrap(), "");
}

#[test]
fn round_trip_multi_byte() {
    let raw = "héllo wörld \u{2603} 日本語 <Tag attr=\"v&w\"/>".to_string();
    let encoded = EncodedSAML::from_raw_string(raw.clone());
    assert_eq!(encoded.to_raw_string().unwrap(), raw);
}

#[test]
fn encoded_text_is_transport_safe() {
    let samples = [
        "just an example",
        "",
        "a&b=c d",
        "<xml attr=\"x\">日本語</xml>",
        "\u{0}\u{1}\u{2}binary-ish",
    ];
    for raw in samples {
        let encoded = EncodedSAML::from_raw_string(raw.to_string()).to_string();
        assert!(!encoded.contains('&'), "unescaped & in {encoded}");
        assert!(!encoded.contains('='), "unescaped = in {encoded}");
        assert!(!encoded.contains(' '), "unescaped space in {encoded}");
    }
}

#[test]
fn decode_rejects_bad_percent_encoding() {
    // %FF percent-decodes to a byte that is not valid UTF-8.
    let encoded = EncodedSAML::new("%FF".to_string());
    assert_eq!(encoded.to_raw_string(), Err(DecodeError::Percent));
}

#[test]
fn decode_rejects_bad_base64() {
    let encoded = EncodedSAML::new("!!!".to_string());
    assert_eq!(encoded.to_raw_string(), Err(DecodeError::Base64));
}

#[test]
fn decode_rejects_bad_deflate_stream() {
    // "AAAA" is valid base64 for three zero bytes, which are not a
    // complete raw DEFLATE stream.
    let encoded = EncodedSAML::new("AAAA".to_string());
    assert_eq!(encoded.to_raw_string(), Err(DecodeError::Inflate));
}
