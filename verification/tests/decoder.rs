use povorotnik::decoder::{decode, AccelSample, DecodeError};

fn sample(x: i64, y: i64, z: i64) -> AccelSample {
    AccelSample { x, y, z }
}

#[test]
fn round_trip_of_encoded_sample() {
    // The wire encoding of {x: 1.0, y: -0.3, z: 0.1}.
    let wire = b"{\"x\":1.0,\"y\":-0.3,\"z\":0.1}";
    assert_eq!(decode(wire), Ok(sample(1000, -300, 100)));
}

#[test]
fn non_utf8_payload_is_invalid_encoding() {
    assert_eq!(decode(&[0xff, 0xfe, 0x00]), Err(DecodeError::InvalidEncoding));
    // Overlong two-byte encoding of NUL.
    assert_eq!(decode(&[0xc0, 0x80]), Err(DecodeError::InvalidEncoding));
    // Truncated multi-byte run.
    assert_eq!(decode(&[0x7b, 0xc3]), Err(DecodeError::InvalidEncoding));
}

#[test]
fn missing_field_is_invalid_format() {
    assert_eq!(decode(b"{\"y\":1.0,\"z\":0.1}"), Err(DecodeError::InvalidFormat));
    assert_eq!(decode(b"{\"x\":1.0,\"y\":0.1}"), Err(DecodeError::InvalidFormat));
}

#[test]
fn arbitrary_text_is_invalid_format() {
    assert_eq!(decode(b"not json"), Err(DecodeError::InvalidFormat));
    assert_eq!(decode(b""), Err(DecodeError::InvalidFormat));
    assert_eq!(decode(b"{}"), Err(DecodeError::InvalidFormat));
    // Well-formed UTF-8 that is not the record: multi-byte text.
    assert_eq!(decode("résumé".as_bytes()), Err(DecodeError::InvalidFormat));
}

#[test]
fn wrong_value_type_is_invalid_format() {
    assert_eq!(decode(b"{\"x\":\"a\",\"y\":1.0,\"z\":0.1}"), Err(DecodeError::InvalidFormat));
    assert_eq!(decode(b"{\"x\":true,\"y\":1.0,\"z\":0.1}"), Err(DecodeError::InvalidFormat));
}

#[test]
fn duplicate_field_is_invalid_format() {
    assert_eq!(decode(b"{\"x\":1.0,\"x\":2.0,\"z\":0.1}"), Err(DecodeError::InvalidFormat));
}

#[test]
fn trailing_text_is_invalid_format() {
    assert_eq!(decode(b"{\"x\":1.0,\"y\":-0.3,\"z\":0.1}g"), Err(DecodeError::InvalidFormat));
}

#[test]
fn fields_accepted_in_any_order_with_blanks() {
    let wire = b" { \"z\" : 9.8 , \"x\" : 0.0 , \"y\" : 1.0 } ";
    assert_eq!(decode(wire), Ok(sample(0, 1000, 9800)));
}

#[test]
fn integer_values_scale_to_thousandths() {
    assert_eq!(decode(b"{\"x\":1,\"y\":0,\"z\":-2}"), Ok(sample(1000, 0, -2000)));
}

#[test]
fn long_fractions_truncate_to_thousandths() {
    assert_eq!(decode(b"{\"x\":0.1234,\"y\":-0.9876,\"z\":0.5}"), Ok(sample(123, -987, 500)));
}

#[test]
fn minus_zero_reads_as_zero() {
    assert_eq!(decode(b"{\"x\":-0.0,\"y\":0.0,\"z\":0.0}"), Ok(sample(0, 0, 0)));
}

#[test]
fn seven_integer_digits_are_the_limit() {
    assert_eq!(
        decode(b"{\"x\":9999999,\"y\":0,\"z\":0}"),
        Ok(sample(9_999_999_000, 0, 0))
    );
    assert_eq!(decode(b"{\"x\":10000000,\"y\":0,\"z\":0}"), Err(DecodeError::InvalidFormat));
}

#[test]
fn bare_point_or_sign_is_invalid_format() {
    assert_eq!(decode(b"{\"x\":.5,\"y\":0,\"z\":0}"), Err(DecodeError::InvalidFormat));
    assert_eq!(decode(b"{\"x\":1.,\"y\":0,\"z\":0}"), Err(DecodeError::InvalidFormat));
    assert_eq!(decode(b"{\"x\":-,\"y\":0,\"z\":0}"), Err(DecodeError::InvalidFormat));
}

#[test]
fn exponent_form_is_outside_the_grammar() {
    assert_eq!(decode(b"{\"x\":1e2,\"y\":0,\"z\":0}"), Err(DecodeError::InvalidFormat));
}

#[test]
fn unknown_field_is_invalid_format() {
    assert_eq!(
        decode(b"{\"x\":1.0,\"y\":-0.3,\"z\":0.1,\"w\":0.0}"),
        Err(DecodeError::InvalidFormat)
    );
}
