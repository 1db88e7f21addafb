use rtmidi::bindings::{status_result, RtMidiWrapper};
use rtmidi::error::RtMidiError;
use rtmidi::marshal::{decode_cstring, encode_string, finish_port_name, required_length};

#[test]
fn encode_appends_terminator() {
    let encoded = encode_string("hello").unwrap();
    assert_eq!(encoded, b"hello\0".to_vec());
}

#[test]
fn encode_decode_round_trips_ascii() {
    let encoded = encode_string("hello").unwrap();
    let decoded = decode_cstring(encoded).unwrap();
    assert_eq!(decoded, "hello");
}

#[test]
fn encode_decode_round_trips_multibyte() {
    let encoded = encode_string("víolá ❤").unwrap();
    let decoded = decode_cstring(encoded).unwrap();
    assert_eq!(decoded, "víolá ❤");
}

#[test]
fn encode_decode_round_trips_empty() {
    let encoded = encode_string("").unwrap();
    assert_eq!(encoded, vec![0u8]);
    let decoded = decode_cstring(encoded).unwrap();
    assert_eq!(decoded, "");
}

#[test]
fn encode_rejects_embedded_null() {
    assert_eq!(encode_string("a\0b"), Err(RtMidiError::EncodingError));
}

#[test]
fn encode_rejects_leading_null() {
    assert_eq!(encode_string("\0"), Err(RtMidiError::EncodingError));
}

#[test]
fn decode_stops_at_first_null() {
    let decoded = decode_cstring(b"ab\0cd\0".to_vec()).unwrap();
    assert_eq!(decoded, "ab");
}

#[test]
fn decode_without_terminator_is_marshalling_error() {
    assert_eq!(
        decode_cstring(b"abc".to_vec()),
        Err(RtMidiError::MarshallingError)
    );
}

#[test]
fn decode_empty_buffer_is_marshalling_error() {
    assert_eq!(decode_cstring(Vec::new()), Err(RtMidiError::MarshallingError));
}

#[test]
fn decode_invalid_text_is_decoding_error() {
    assert_eq!(
        decode_cstring(vec![0xFF, 0xFE, 0x00]),
        Err(RtMidiError::DecodingError)
    );
}

#[test]
fn required_length_translates_query_failure_to_invalid_port() {
    assert_eq!(required_length(-1, 7), Err(RtMidiError::InvalidPort));
    assert_eq!(required_length(3, 7), Err(RtMidiError::InvalidPort));
}

#[test]
fn required_length_rejects_non_positive_lengths() {
    assert_eq!(required_length(0, 0), Err(RtMidiError::MarshallingError));
    assert_eq!(required_length(0, -4), Err(RtMidiError::MarshallingError));
}

#[test]
fn required_length_accepts_positive_lengths() {
    assert_eq!(required_length(0, 7), Ok(7));
}

#[test]
fn finish_port_name_accepts_exact_written_count() {
    assert_eq!(finish_port_name(3, b"abc\0".to_vec()), Ok("abc".to_string()));
}

#[test]
fn finish_port_name_rejects_mismatched_written_count() {
    assert_eq!(
        finish_port_name(2, b"abc\0".to_vec()),
        Err(RtMidiError::MarshallingError)
    );
    assert_eq!(
        finish_port_name(-1, b"abc\0".to_vec()),
        Err(RtMidiError::MarshallingError)
    );
    assert_eq!(finish_port_name(0, Vec::new()), Err(RtMidiError::MarshallingError));
}

#[test]
fn status_of_successful_call_is_ok() {
    let w = RtMidiWrapper { ok: true, msg: None };
    assert_eq!(status_result(&w), Ok(()));
}

#[test]
fn status_of_failure_without_message_carries_placeholder() {
    let w = RtMidiWrapper { ok: false, msg: None };
    assert_eq!(
        status_result(&w),
        Err(RtMidiError::NativeFailure("unknown native error".to_string()))
    );
}

#[test]
fn status_of_failure_with_message_decodes_it() {
    let w = RtMidiWrapper {
        ok: false,
        msg: Some(b"driver error".to_vec()),
    };
    assert_eq!(
        status_result(&w),
        Err(RtMidiError::NativeFailure("driver error".to_string()))
    );
}

#[test]
fn status_of_failure_with_undecodable_message_is_decoding_error() {
    let w = RtMidiWrapper {
        ok: false,
        msg: Some(vec![0x80, 0x80]),
    };
    assert_eq!(status_result(&w), Err(RtMidiError::DecodingError));
}
