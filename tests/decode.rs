use git2page::base64::{base64_decode, decode_file_payload, DecodeError, PayloadError};

#[test]
fn decodes_text_with_newlines_and_padding() {
    let r = base64_decode("SGVsbG8s\nIHdvcmxk\r\nIQ==");
    assert_eq!(r, Ok("Hello, world!".to_string()));
}

#[test]
fn decodes_without_padding() {
    assert_eq!(base64_decode("YWJj"), Ok("abc".to_string()));
    assert_eq!(base64_decode("YWI"), Ok("ab".to_string()));
    assert_eq!(base64_decode(""), Ok(String::new()));
}

#[test]
fn stops_at_first_padding() {
    assert_eq!(base64_decode("QQ==QUJD"), Ok("A".to_string()));
}

#[test]
fn skips_unknown_symbols() {
    assert_eq!(base64_decode("Y*W!J j"), Ok("abc".to_string()));
}

#[test]
fn decodes_multibyte_text() {
    assert_eq!(base64_decode("w6k="), Ok("é".to_string()));
}

#[test]
fn rejects_invalid_utf8() {
    assert_eq!(base64_decode("/w=="), Err(DecodeError::InvalidText));
}

#[test]
fn payload_base64_is_decoded() {
    let r = decode_file_payload(Some("aGk=\n".to_string()), Some("base64".to_string()));
    assert_eq!(r, Ok("hi".to_string()));
}

#[test]
fn payload_other_encoding_is_refused() {
    let r = decode_file_payload(Some("aGk=".to_string()), Some("none".to_string()));
    assert_eq!(r, Err(PayloadError::UnexpectedEncoding));
    let r = decode_file_payload(None, Some("base64".to_string()));
    assert_eq!(r, Err(PayloadError::UnexpectedEncoding));
    let r = decode_file_payload(Some("aGk=".to_string()), None);
    assert_eq!(r, Err(PayloadError::UnexpectedEncoding));
}

#[test]
fn payload_invalid_text_is_refused() {
    let r = decode_file_payload(Some("/w==".to_string()), Some("base64".to_string()));
    assert_eq!(r, Err(PayloadError::InvalidText));
}
