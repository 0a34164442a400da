use tiktok_tts::catalog::{
    default_voice_name, is_known_voice, resolve_voice, validate_voice, voices,
};
use tiktok_tts::error::{DecodeFailure, SpeechError};

const EXPECTED: [&str; 34] = [
    "en_us_ghostface",
    "en_us_chewbacca",
    "en_us_c3po",
    "en_us_stitch",
    "en_us_stormtrooper",
    "en_us_rocket",
    "en_au_001",
    "en_au_002",
    "en_uk_001",
    "en_uk_003",
    "en_us_001",
    "en_us_002",
    "en_us_006",
    "en_us_007",
    "en_us_009",
    "en_us_010",
    "fr_001",
    "fr_002",
    "de_001",
    "de_002",
    "es_002",
    "es_mx_002",
    "br_001",
    "br_003",
    "br_004",
    "br_005",
    "id_001",
    "jp_001",
    "jp_003",
    "jp_005",
    "jp_006",
    "kr_002",
    "kr_003",
    "kr_004",
];

#[test]
fn catalog_lists_the_voices_in_order() {
    let list = voices();
    assert_eq!(list.len(), 34);
    assert_eq!(list, EXPECTED.to_vec());
}

#[test]
fn catalog_has_no_voice_twice() {
    let list = voices();
    for i in 0..list.len() {
        for j in (i + 1)..list.len() {
            assert_ne!(list[i], list[j]);
        }
    }
}

#[test]
fn every_catalog_voice_is_accepted_unchanged() {
    for name in EXPECTED {
        assert!(is_known_voice(&name.to_string()));
        match validate_voice(name.to_string()) {
            Ok(voice) => assert_eq!(voice, name),
            Err(error) => panic!("{} was refused: {:?}", name, error),
        }
    }
}

#[test]
fn case_variant_is_refused() {
    assert!(!is_known_voice(&"EN_US_002".to_string()));
    match validate_voice("EN_US_002".to_string()) {
        Err(SpeechError::InvalidVoice(voice)) => assert_eq!(voice, "EN_US_002"),
        other => panic!("unexpected: {:?}", other),
    }
}

#[test]
fn near_misses_are_refused() {
    for name in ["", "en_us_00", "en_us_0020", " en_us_002", "en_us_002 ", "en-us-002", "en_us", "fr_003"] {
        assert!(!is_known_voice(&name.to_string()), "{:?}", name);
        match validate_voice(name.to_string()) {
            Err(SpeechError::InvalidVoice(voice)) => assert_eq!(voice, name),
            other => panic!("unexpected: {:?}", other),
        }
    }
}

#[test]
fn default_voice_is_en_us_002_and_known() {
    assert_eq!(default_voice_name(), "en_us_002");
    assert!(is_known_voice(&default_voice_name()));
}

#[test]
fn absent_voice_resolves_to_default() {
    assert_eq!(resolve_voice(None), "en_us_002");
    assert_eq!(resolve_voice(None), resolve_voice(Some("en_us_002".to_string())));
}

#[test]
fn given_voice_is_kept_verbatim() {
    assert_eq!(resolve_voice(Some("jp_001".to_string())), "jp_001");
    assert_eq!(resolve_voice(Some(" Not A Voice ".to_string())), " Not A Voice ");
}

#[test]
fn invalid_voice_message_names_the_voice() {
    let error = validate_voice("robot".to_string()).unwrap_err();
    assert_eq!(error.message(), "Invalid voice: robot");
}

#[test]
fn other_messages_are_fixed() {
    assert_eq!(SpeechError::Input.message(), "Could not read the text from standard input");
    assert_eq!(SpeechError::Network.message(), "Could not reach the speech endpoint");
    assert_eq!(SpeechError::Decode(DecodeFailure::Shape).message(), "The reply holds no audio");
    assert_eq!(
        SpeechError::Decode(DecodeFailure::Encoding).message(),
        "The audio in the reply is not valid base64"
    );
    assert_eq!(SpeechError::Output.message(), "Could not write the audio");
}
