use zundux_tts::tts::voiceger::{
    adjust_args, error_detail, error_reply_detail, voiceger_error_message, voiceger_emotions, voiceger_languages, VoicegerEngine,
};

#[test]
fn list_speakers_returns_one_speaker_with_five_styles() {
    let engine = VoicegerEngine::new("http://localhost:9880", "", "", "ja");
    let speakers = engine.list_speakers();

    assert_eq!(speakers.len(), 1);
    let speaker = &speakers[0];
    assert_eq!(speaker.styles.len(), 5);
}

#[test]
fn style_ids_match_language_order() {
    let engine = VoicegerEngine::new("http://localhost:9880", "", "", "ja");
    let speakers = engine.list_speakers();
    let styles = &speakers[0].styles;

    assert_eq!(styles[0].id, 0); // ja
    assert_eq!(styles[1].id, 1); // en
    assert_eq!(styles[2].id, 2); // zh
    assert_eq!(styles[3].id, 3); // ko
    assert_eq!(styles[4].id, 4); // yue
}

#[test]
fn lang_for_speaker_id_maps_correctly() {
    assert_eq!(VoicegerEngine::lang_for_speaker_id(0), "ja");
    assert_eq!(VoicegerEngine::lang_for_speaker_id(1), "en");
    assert_eq!(VoicegerEngine::lang_for_speaker_id(2), "zh");
    assert_eq!(VoicegerEngine::lang_for_speaker_id(3), "ko");
    assert_eq!(VoicegerEngine::lang_for_speaker_id(4), "yue");
}

#[test]
fn lang_for_unknown_speaker_id_defaults_to_ja() {
    assert_eq!(VoicegerEngine::lang_for_speaker_id(99), "ja");
}

#[test]
fn should_auto_ref_free_for_short_ascii_tokens() {
    assert!(VoicegerEngine::should_auto_ref_free("wa"));
    assert!(VoicegerEngine::should_auto_ref_free("ok!"));
    assert!(!VoicegerEngine::should_auto_ref_free("hello"));
    assert!(!VoicegerEngine::should_auto_ref_free(""));
}

#[test]
fn should_auto_ref_free_for_short_japanese_snippets() {
    assert!(VoicegerEngine::should_auto_ref_free("いいかな？"));
    assert!(VoicegerEngine::should_auto_ref_free("ねえ、どう？"));
    assert!(!VoicegerEngine::should_auto_ref_free(
        "これは短文ではないので通常モードで読む"
    ));
}

#[test]
fn should_auto_ref_free_when_long_text_contains_short_clause() {
    assert!(VoicegerEngine::should_auto_ref_free_in_text(
        "これは長文です。少し説明します。いいかな？ありがとう。"
    ));
    assert!(!VoicegerEngine::should_auto_ref_free_in_text(
        "これはそれなりに長い文で、短い挿入句もないため通常モードのままです。"
    ));
}

#[test]
fn speaker_and_style_names() {
    let engine = VoicegerEngine::new("http://localhost:9880/", "", "", "ja");
    assert_eq!(engine.base_url, "http://localhost:9880");
    let speakers = engine.list_speakers();
    assert_eq!(speakers[0].name, "ずんだもん (Voiceger)");
    assert_eq!(speakers[0].speaker_uuid, "voiceger-zundamon");
    let names: Vec<&str> = speakers[0].styles.iter().map(|s| s.name.as_str()).collect();
    assert_eq!(names, vec!["日本語", "English", "中文", "한국어", "粤語"]);
}

#[test]
fn languages_and_emotions_tables() {
    let langs = voiceger_languages();
    assert_eq!(langs[4], ("yue", "粤語", 4));
    let emotions = voiceger_emotions();
    assert_eq!(emotions.len(), 8);
    assert_eq!(emotions[0], ("ノーマル", "01_ref_emoNormal026.wav"));
    assert_eq!(emotions[7], ("泣き", "08_ref_emoSobbing026.wav"));
}

#[test]
fn request_uses_reference_unless_text_is_short() {
    let engine = VoicegerEngine::new("http://localhost:9880", "/ref.wav", "プロンプト", "ja");
    let r = engine.synthesis_request("これは短文ではないので通常モードで読む", 1, None, false);
    assert_eq!(r.url, "http://localhost:9880/tts");
    assert_eq!(r.text_lang, "en");
    assert!(!r.ref_free);
    assert_eq!(r.ref_audio_path, "/ref.wav");
    assert_eq!(r.prompt_text, "プロンプト");
    assert_eq!(r.prompt_lang, "ja");

    let short = engine.synthesis_request("ok!", 0, None, false);
    assert!(short.ref_free);
    assert_eq!(short.prompt_text, "");

    let forced = engine.synthesis_request("これは短文ではないので通常モードで読む", 0, Some("/other.wav"), true);
    assert!(forced.ref_free);
    assert_eq!(forced.ref_audio_path, "/other.wav");

    let blank = engine.synthesis_request("これは短文ではないので通常モードで読む", 0, Some("  "), false);
    assert!(blank.ref_free);
    assert_eq!(blank.ref_audio_path, "/ref.wav");
}

#[test]
fn weights_are_sent_once() {
    let mut engine = VoicegerEngine::new("http://h:1", "", "", "ja")
        .with_weights(Some("g.ckpt".to_string()), Some("s.pth".to_string()));
    let reqs = engine.weight_requests();
    assert_eq!(
        reqs,
        vec![
            ("http://h:1/set_gpt_weights".to_string(), "g.ckpt".to_string()),
            ("http://h:1/set_sovits_weights".to_string(), "s.pth".to_string())
        ]
    );
    assert!(engine.begin_weight_load());
    assert!(!engine.begin_weight_load());
    assert_eq!(engine.health_url(), "http://h:1/");
}

#[test]
fn error_detail_keeps_last_traceback_line() {
    assert_eq!(
        error_detail(Some("tts failed"), Some("Traceback:\n  File x\nValueError: bad\n\n")),
        "tts failed: ValueError: bad"
    );
    assert_eq!(error_detail(None, None), "unknown error");
}

#[test]
fn adjust_args_join_filters() {
    let filters = vec!["asetrate=32000*1.000000,aresample=32000".to_string(), "volume=1.5000".to_string()];
    assert_eq!(
        adjust_args("in.wav", &filters, "out.wav"),
        vec![
            "-y",
            "-i",
            "in.wav",
            "-af",
            "asetrate=32000*1.000000,aresample=32000,volume=1.5000",
            "-loglevel",
            "error",
            "out.wav"
        ]
    );
}

#[test]
fn error_reply_with_traceback() {
    let body = "{\"message\":\"bad\",\"Exception\":\"Traceback\\nValueError: x\\n\"}";
    assert_eq!(error_reply_detail(body), "bad: ValueError: x");
}

#[test]
fn error_reply_without_fields() {
    assert_eq!(error_reply_detail("{}"), "unknown error");
    assert_eq!(error_reply_detail("{\"message\":\"busy\"}"), "busy");
    assert_eq!(error_reply_detail("{\"Exception\":\"E\"}"), "unknown error: E");
}

#[test]
fn error_reply_not_json_is_kept() {
    assert_eq!(error_reply_detail("Internal Server Error"), "Internal Server Error");
}

#[test]
fn error_message_from_parsed_fields() {
    assert_eq!(voiceger_error_message("raw", None), "raw");
    assert_eq!(
        voiceger_error_message("raw", Some((Some("m".to_string()), Some("a\n  b  \n\n".to_string())))),
        "m: b"
    );
    assert_eq!(voiceger_error_message("raw", Some((None, None))), "unknown error");
}
