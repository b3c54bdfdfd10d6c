use wit_owo::client::WitClient;
use wit_owo::dictation::{DictationQuery, Encoding};
use wit_owo::server::{
    parse_deleted, split_entity_role, DetailedEntity, Keyword, LookupStrategy, ServerClient,
};
use wit_owo::speech::SpeechQuery;
use wit_owo::synthesize::{is_valid_query, SynthesizeCodec, SynthesizeQuery};
use wit_owo::voice::{Voice, VoiceGender, VoicesResponse};
use wit_owo::voices::VoicesList;

#[test]
fn client_holds_token() {
    let client = WitClient::new("TOKEN");
    assert_eq!(client.token(), "TOKEN");
    let server = ServerClient::new("TOKEN");
    assert_eq!(server.token, "TOKEN");
}

#[test]
fn dictation_content_types() {
    assert_eq!(
        DictationQuery::new(Encoding::Wav).content_type().as_deref(),
        Some("audio/wav")
    );
    assert_eq!(
        DictationQuery::new(Encoding::Mp3).content_type().as_deref(),
        Some("audio/mpeg3")
    );
    assert_eq!(
        DictationQuery::new(Encoding::Ogg).content_type().as_deref(),
        Some("audio/ogg")
    );
    assert_eq!(
        DictationQuery::new(Encoding::Ulaw).content_type().as_deref(),
        Some("audio/ulaw")
    );
}

#[test]
fn dictation_raw_content_type_needs_all_parameters() {
    let incomplete = DictationQuery::new(Encoding::Raw).with_bits(16);
    assert!(incomplete.content_type().is_none());

    let complete = DictationQuery::new(Encoding::Raw)
        .with_raw_encoding("signed-integer".to_string())
        .with_bits(16)
        .with_sample_rate(16000)
        .with_endian(true);
    assert_eq!(
        complete.content_type().as_deref(),
        Some("audio/raw;encoding=signed-integer;bits=16;rate=16000;endian=little")
    );

    let big = DictationQuery::new(Encoding::Raw)
        .with_raw_encoding("unsigned-integer".to_string())
        .with_bits(8)
        .with_sample_rate(8000)
        .with_endian(false);
    assert_eq!(
        big.content_type().as_deref(),
        Some("audio/raw;encoding=unsigned-integer;bits=8;rate=8000;endian=big")
    );
}

#[test]
fn speech_raw_content_type_appends_set_parts() {
    let q = SpeechQuery::new(Encoding::Raw).with_bits(16).with_endian(true);
    assert_eq!(q.content_type(), "audio/raw;bits=16;endian=little");
    let q = SpeechQuery::new(Encoding::Wav);
    assert_eq!(q.content_type(), "audio/wav");
}

#[test]
fn speech_to_url_carries_parameters() {
    let q = SpeechQuery::new(Encoding::Wav)
        .with_tag("t".to_string())
        .with_n(3);
    let url = q.to_url().unwrap();
    assert!(url.path().ends_with("/speech"));
    let pairs: Vec<(String, String)> = url.query_pairs().into_owned().collect();
    assert_eq!(pairs[0], ("tag".to_string(), "t".to_string()));
    assert_eq!(pairs[1], ("n".to_string(), "3".to_string()));
}

#[test]
fn synthesize_query_validity() {
    let q = SynthesizeQuery::new("Hello".to_string(), "wit$Rebecca".to_string());
    assert!(is_valid_query(&q));
    assert!(!is_valid_query(&q.clone().with_speed(5)));
    assert!(!is_valid_query(&q.clone().with_speed(401)));
    assert!(is_valid_query(&q.clone().with_speed(10)));
    assert!(!is_valid_query(&q.clone().with_pitch(24)));
    assert!(is_valid_query(&q.clone().with_pitch(400)));
}

#[test]
fn synthesize_body_renders_modifiers() {
    let q = SynthesizeQuery::new("Hello, world!".to_string(), "wit$Rebecca".to_string())
        .with_style("formal".to_string())
        .with_speed(120)
        .with_pitch(90);
    assert_eq!(
        q.body_json(),
        r#"{"q":"Hello, world!","voice":"wit$Rebecca","style":"formal","speed":120,"pitch":90}"#
    );
    let plain = SynthesizeQuery::new("Hi".to_string(), "v".to_string());
    assert_eq!(plain.body_json(), r#"{"q":"Hi","voice":"v"}"#);
}

#[test]
fn synthesize_len_skips_ssml_tags() {
    let q = SynthesizeQuery::new("<speak>hi</speak>".to_string(), "v".to_string());
    assert_eq!(q.len(), 2);
    let plain = SynthesizeQuery::new("hello".to_string(), "v".to_string());
    assert_eq!(plain.len(), 5);
}

#[test]
fn synthesize_codec_mime_types() {
    assert_eq!(SynthesizeCodec::Pcm.mime_type(), "audio/pcm16");
    assert_eq!(SynthesizeCodec::Mp3.mime_type(), "audio/mpeg");
    assert_eq!(SynthesizeCodec::Wav.mime_type(), "audio/wav");
    let url = SynthesizeQuery::new("Hi".to_string(), "v".to_string())
        .to_url()
        .unwrap();
    assert!(url.path().ends_with("/synthesize"));
}

#[test]
fn lookups_parse_each_strategy() {
    let mut entity = DetailedEntity {
        id: "1".to_string(),
        name: "color".to_string(),
        lookups: vec!["free-text".to_string()],
        keywords: vec![Keyword { keyword: "red".to_string(), synonyms: vec![] }],
    };
    assert_eq!(entity.lookups(), LookupStrategy::FreeText);
    entity.lookups = vec!["keywords".to_string()];
    assert_eq!(entity.lookups(), LookupStrategy::Keywords);
    entity.lookups = vec!["keywords".to_string(), "free-text".to_string()];
    assert_eq!(entity.lookups(), LookupStrategy::Both);
    entity.lookups = vec![];
    assert_eq!(entity.lookups(), LookupStrategy::Both);
}

#[test]
fn lookup_strategy_round_trips_to_strings() {
    assert_eq!(LookupStrategy::FreeText.to_strings(), vec!["free-text"]);
    assert_eq!(LookupStrategy::Keywords.to_strings(), vec!["keywords"]);
    assert_eq!(
        LookupStrategy::Both.to_strings(),
        vec!["keywords", "free-text"]
    );
}

#[test]
fn split_entity_role_at_last_colon() {
    assert_eq!(
        split_entity_role("car:color"),
        ("car".to_string(), "color".to_string())
    );
    assert_eq!(
        split_entity_role("a:b:c"),
        ("a:b".to_string(), "c".to_string())
    );
    assert_eq!(split_entity_role("color"), ("".to_string(), "color".to_string()));
}

#[test]
fn parse_deleted_reads_field() {
    assert_eq!(
        parse_deleted(r#"{"deleted":"car"}"#),
        Some("car".to_string())
    );
    assert_eq!(parse_deleted(r#"{"other":"x"}"#), None);
    assert_eq!(parse_deleted("nope"), None);
}

#[test]
fn voice_features_and_styles() {
    let voice = Voice {
        name: "wit$Rebecca".to_string(),
        locale: "en_US".to_string(),
        gender: "female".to_string(),
        styles: vec!["default".to_string(), "soft".to_string()],
        supported_features: vec!["pitch".to_string(), "speed".to_string()],
    };
    assert!(voice.supports_feature("pitch"));
    assert!(!voice.supports_feature("sfx"));
    assert!(voice.supports_style("soft"));
    assert!(!voice.supports_style("formal"));
    assert!(voice.is_locale("en_US"));
    assert!(!voice.is_locale("en_GB"));
    assert_eq!(voice.gender_enum(), Some(VoiceGender::Female));

    let other = Voice { gender: "robot".to_string(), ..voice };
    assert_eq!(other.gender_enum(), None);
}

#[test]
fn voices_response_groups_by_locale() {
    let rebecca = Voice {
        name: "wit$Rebecca".to_string(),
        locale: "en_US".to_string(),
        gender: "female".to_string(),
        styles: vec![],
        supported_features: vec![],
    };
    let colin = Voice {
        name: "wit$Colin".to_string(),
        locale: "en_GB".to_string(),
        gender: "male".to_string(),
        styles: vec![],
        supported_features: vec![],
    };
    let mut resp = VoicesResponse::new();
    assert!(resp.add_locale("en_US".to_string(), vec![rebecca.clone()]));
    assert!(resp.add_locale("en_GB".to_string(), vec![colin]));
    assert!(!resp.add_locale("en_US".to_string(), vec![]));

    assert_eq!(resp.locales(), vec!["en_US", "en_GB"]);
    let us = resp.voices_for_locale("en_US").unwrap();
    assert_eq!(us.len(), 1);
    assert_eq!(us[0].name, "wit$Rebecca");
    assert!(resp.voices_for_locale("fr_FR").is_none());

    let all = resp.all_voices();
    assert_eq!(all.len(), 2);
    assert_eq!(all[0].name, "wit$Rebecca");
    assert_eq!(all[1].name, "wit$Colin");
}

#[test]
fn voices_list_get_by_locale() {
    let voice = wit_owo::voices::Voice {
        name: "Rebecca".to_string(),
        locale: "en_US".to_string(),
        gender: wit_owo::voices::VoiceGender::Female,
        styles: vec!["default".to_string()],
    };
    let mut list = VoicesList::new();
    assert!(list.add_locale("en_US".to_string(), vec![voice]));
    let us = list.get("en_US").unwrap();
    assert_eq!(us[0].name, "Rebecca");
    assert_eq!(us[0].gender, wit_owo::voices::VoiceGender::Female);
    assert!(list.get("de_DE").is_none());
}
