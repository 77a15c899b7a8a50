use zundux_tts::tts::voicevox::{
    halfwidth_to_fullwidth, hiragana_to_katakana, to_fullwidth, to_katakana, VoicevoxEngine,
};

#[test]
fn hiragana_becomes_katakana() {
    assert_eq!(hiragana_to_katakana('あ'), 'ア');
    assert_eq!(hiragana_to_katakana('ゖ'), 'ヶ');
    assert_eq!(hiragana_to_katakana('ア'), 'ア');
    assert_eq!(hiragana_to_katakana('a'), 'a');
    assert_eq!(to_katakana("ずんだもん"), "ズンダモン");
}

#[test]
fn ascii_becomes_full_width() {
    assert_eq!(halfwidth_to_fullwidth('A'), 'Ａ');
    assert_eq!(halfwidth_to_fullwidth('!'), '！');
    assert_eq!(halfwidth_to_fullwidth('~'), '～');
    assert_eq!(halfwidth_to_fullwidth(' '), '\u{3000}');
    assert_eq!(halfwidth_to_fullwidth('あ'), 'あ');
    assert_eq!(to_fullwidth("VRChat 1"), "ＶＲＣｈａｔ\u{3000}１");
}

#[test]
fn conversions_are_idempotent_on_examples() {
    for c in ['あ', 'A', ' ', 'ア', 'Ａ'] {
        assert_eq!(hiragana_to_katakana(hiragana_to_katakana(c)), hiragana_to_katakana(c));
        assert_eq!(halfwidth_to_fullwidth(halfwidth_to_fullwidth(c)), halfwidth_to_fullwidth(c));
    }
}

#[test]
fn engine_urls_and_queries() {
    let e = VoicevoxEngine::new("http://127.0.0.1:50021//");
    assert_eq!(e.base_url, "http://127.0.0.1:50021");
    assert_eq!(e.endpoint("/speakers"), "http://127.0.0.1:50021/speakers");
    assert_eq!(e.delete_word_url("abc"), "http://127.0.0.1:50021/user_dict_word/abc");
    assert_eq!(
        VoicevoxEngine::add_word_query("VRC", "ぶいあーるしー"),
        vec![
            ("surface".to_string(), "ＶＲＣ".to_string()),
            ("pronunciation".to_string(), "ブイアールシー".to_string()),
            ("accent_type".to_string(), "1".to_string())
        ]
    );
    assert_eq!(
        VoicevoxEngine::audio_query_params("hi", 3),
        vec![
            ("text".to_string(), "ｈｉ".to_string()),
            ("speaker".to_string(), "3".to_string())
        ]
    );
    assert_eq!(
        VoicevoxEngine::synthesis_params(42),
        vec![("speaker".to_string(), "42".to_string())]
    );
    assert_eq!(
        VoicevoxEngine::refusal_message("422 Unprocessable Entity", "bad"),
        "VOICEVOX returned 422 Unprocessable Entity : bad"
    );
}
