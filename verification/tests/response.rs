use tiktok_tts::error::{DecodeFailure, SpeechError};
use tiktok_tts::response::{
    audio_from_decoded, decode_response, parse_response, response_in, SynthesisResponse,
};

fn decode_audio_text(text: &str) -> Result<Vec<u8>, SpeechError> {
    SynthesisResponse { v_str: text.to_string() }.audio()
}

fn text_of(found: Option<SynthesisResponse>) -> Option<String> {
    found.map(|response| response.v_str)
}

fn failure_of(outcome: Result<Vec<u8>, SpeechError>) -> DecodeFailure {
    match outcome {
        Err(SpeechError::Decode(failure)) => failure,
        other => panic!("unexpected: {:?}", other),
    }
}

#[test]
fn reply_with_abc_decodes_to_three_bytes() {
    let audio = decode_response("{\"data\":{\"v_str\":\"QUJD\"}}").unwrap();
    assert_eq!(audio, vec![b'A', b'B', b'C']);
    assert_eq!(audio.len(), 3);
}

#[test]
fn reply_with_bad_base64_fails_by_encoding() {
    let outcome = decode_response("{\"data\":{\"v_str\":\"not-base64!!\"}}");
    assert_eq!(failure_of(outcome), DecodeFailure::Encoding);
}

#[test]
fn empty_object_fails_by_shape() {
    assert_eq!(failure_of(decode_response("{}")), DecodeFailure::Shape);
}

#[test]
fn shape_and_encoding_failures_differ_but_are_both_decode_errors() {
    let shape = decode_response("{}");
    let encoding = decode_response("{\"data\":{\"v_str\":\"not-base64!!\"}}");
    assert!(matches!(shape, Err(SpeechError::Decode(_))));
    assert!(matches!(encoding, Err(SpeechError::Decode(_))));
    assert_ne!(failure_of(shape), failure_of(encoding));
}

#[test]
fn body_that_is_not_json_fails_by_shape() {
    for body in ["", "<html>502 Bad Gateway</html>", "{\"data\":", "QUJD"] {
        assert_eq!(failure_of(decode_response(body)), DecodeFailure::Shape, "{:?}", body);
    }
}

#[test]
fn wrongly_typed_members_fail_by_shape() {
    for body in [
        "{\"data\":{}}",
        "{\"data\":null}",
        "{\"data\":\"QUJD\"}",
        "{\"data\":{\"v_str\":12}}",
        "{\"data\":{\"v_str\":null}}",
        "{\"data\":{\"v_str\":[\"QUJD\"]}}",
        "{\"v_str\":\"QUJD\"}",
        "{\"Data\":{\"v_str\":\"QUJD\"}}",
        "[{\"data\":{\"v_str\":\"QUJD\"}}]",
        "null",
    ] {
        assert_eq!(failure_of(decode_response(body)), DecodeFailure::Shape, "{:?}", body);
    }
}

#[test]
fn other_members_are_ignored() {
    let body = "{\"status_code\":0,\"data\":{\"duration\":\"1\",\"v_str\":\"SGVsbG8gd29ybGQ=\",\"s_key\":\"x\"},\"extra\":{\"log_id\":\"7\"}}";
    assert_eq!(decode_response(body).unwrap(), b"Hello world".to_vec());
}

#[test]
fn empty_payload_decodes_to_no_bytes() {
    assert_eq!(decode_response("{\"data\":{\"v_str\":\"\"}}").unwrap(), Vec::<u8>::new());
}

#[test]
fn padding_is_required() {
    assert_eq!(decode_audio_text("QQ==").unwrap(), vec![b'A']);
    assert_eq!(failure_of(decode_audio_text("QQ")), DecodeFailure::Encoding);
    assert_eq!(failure_of(decode_audio_text("QQ=")), DecodeFailure::Encoding);
}

#[test]
fn alphabet_is_the_standard_one() {
    assert_eq!(decode_audio_text("++++").unwrap(), vec![251, 239, 190]);
    assert_eq!(decode_audio_text("////").unwrap(), vec![255, 255, 255]);
    assert_eq!(failure_of(decode_audio_text("----")), DecodeFailure::Encoding);
    assert_eq!(failure_of(decode_audio_text("____")), DecodeFailure::Encoding);
}

#[test]
fn decoded_bytes_differ_from_the_text() {
    let audio = decode_audio_text("QUJD").unwrap();
    assert_ne!(audio, b"QUJD".to_vec());
    assert_eq!(audio, b"ABC".to_vec());
}

#[test]
fn audio_text_is_found_at_data_v_str() {
    let document = serde_json::from_str::<serde_json::Value>("{\"data\":{\"v_str\":\"QUJD\"}}");
    assert_eq!(text_of(response_in(&document)), Some("QUJD".to_string()));
    let document = serde_json::from_str::<serde_json::Value>("{\"data\":{\"v\":\"QUJD\"}}");
    assert_eq!(text_of(response_in(&document)), None);
    let document = serde_json::from_str::<serde_json::Value>("{");
    assert!(document.is_err());
    assert_eq!(text_of(response_in(&document)), None);
}

#[test]
fn parsed_reply_holds_the_text_as_it_stands() {
    let found = parse_response("{\"data\":{\"v_str\":\"not-base64!!\"}}");
    assert_eq!(text_of(found), Some("not-base64!!".to_string()));
    assert_eq!(text_of(parse_response("{}")), None);
    assert_eq!(text_of(parse_response("not json")), None);
}

#[test]
fn escaped_text_is_unescaped_before_decoding() {
    let audio = decode_response("{\"data\":{\"v_str\":\"QUJD\\u0051UJD\"}}").unwrap();
    assert_eq!(audio, b"ABCABC".to_vec());
}

#[test]
fn outcome_of_base64_maps_to_outcome_of_stage() {
    let ok = data_encoding::BASE64.decode(b"QUJD");
    assert_eq!(audio_from_decoded(ok).unwrap(), b"ABC".to_vec());
    let bad = data_encoding::BASE64.decode(b"!");
    assert!(bad.is_err());
    assert_eq!(failure_of(audio_from_decoded(bad)), DecodeFailure::Encoding);
}
