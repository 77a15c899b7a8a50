use zundux_tts::config::{
    autostart_entry, conda_candidates, default_presets, default_templates,
    default_voiceger_prompt_lang, default_voiceger_url, effective_voiceger_launch_cmd,
    prompt_text_or_default, sanitize_presets, sanitize_templates, sanitize_voicevox_url,
    voiceger_base_dir, voiceger_base_dir_of, voiceger_launch_cmd, voiceger_script_word, SpeakerPreset, TtsEngineType,
    DEFAULT_VOICEGER_PROMPT_LANG, DEFAULT_VOICEGER_PROMPT_TEXT,
};

#[test]
fn defaults() {
    assert_eq!(default_voiceger_url(), "http://127.0.0.1:9880");
    assert_eq!(default_voiceger_prompt_lang(), "ja");
    assert_eq!(DEFAULT_VOICEGER_PROMPT_LANG, "ja");
    assert_eq!(TtsEngineType::default(), TtsEngineType::Voicevox);
    assert_eq!(
        default_templates(),
        vec!["こんにちは！", "ありがとう！", "おつかれさまなのだ！", "了解なのだ！"]
    );
}

#[test]
fn eight_default_presets() {
    let p = default_presets(7u8);
    assert_eq!(p.len(), 8);
    assert_eq!(p[0].name, "デフォルト：ずんだもん");
    assert_eq!(p[0].speaker_id, 3);
    assert_eq!(p[1].speaker_id, 2);
    assert_eq!(p[2].name, "デフォルト：つむぎ");
    assert_eq!(p[2].speaker_id, 8);
    assert_eq!(p[2].engine, TtsEngineType::Voicevox);
    assert_eq!(p[3].name, "Voiceger：日本語");
    assert_eq!(p[3].engine, TtsEngineType::Voiceger);
    assert_eq!(p[7].name, "Voiceger：粤語");
    assert_eq!(p[7].speaker_id, 4);
    assert!(p.iter().all(|q| q.synth_params == 7 && q.voiceger_emotion.is_empty()));
}

fn preset(name: &str) -> SpeakerPreset<u8> {
    SpeakerPreset {
        name: name.to_string(),
        speaker_id: 1,
        synth_params: 9,
        engine: TtsEngineType::Voiceger,
        voiceger_emotion: "甘え".to_string(),
        voiceger_ref_audio_override: String::new(),
    }
}

#[test]
fn presets_are_capped_and_names_cut() {
    let long = "あ".repeat(70);
    let mut presets: Vec<SpeakerPreset<u8>> = (0..60).map(|_| preset("p")).collect();
    presets[0] = preset(&long);
    let r = sanitize_presets(&presets, 0u8);
    assert_eq!(r.len(), 50);
    assert_eq!(r[0].name, "あ".repeat(64));
    assert_eq!(r[0].voiceger_emotion, "甘え");
    assert_eq!(r[0].synth_params, 9);
    assert_eq!(r[1].name, "p");
}

#[test]
fn missing_presets_become_the_defaults() {
    let r = sanitize_presets(&Vec::<SpeakerPreset<u8>>::new(), 5u8);
    assert_eq!(r.len(), 8);
    assert_eq!(r[5].name, "Voiceger：中文");
    assert_eq!(r[5].synth_params, 5);
}

#[test]
fn templates_are_capped_and_cut() {
    let mut t: Vec<String> = (0..120).map(|i| format!("t{i}")).collect();
    t[1] = "x".repeat(600);
    t[2] = "ず".repeat(300);
    let r = sanitize_templates(&t);
    assert_eq!(r.len(), 100);
    assert_eq!(r[0], "t0");
    assert_eq!(r[1].chars().count(), 512);
    assert_eq!(r[2], "ず".repeat(300));
    assert_eq!(r[99], "t99");
}

#[test]
fn voicevox_url_falls_back() {
    assert_eq!(sanitize_voicevox_url("http://localhost:50021"), "http://localhost:50021");
    assert_eq!(sanitize_voicevox_url("http://evil.com"), "http://127.0.0.1:50021");
}

#[test]
fn voiceger_launch_command() {
    assert_eq!(effective_voiceger_launch_cmd("   "), None);
    assert_eq!(
        effective_voiceger_launch_cmd("python api.py"),
        Some("python api.py".to_string())
    );
    assert_eq!(
        conda_candidates("/home/u"),
        vec!["conda", "/home/u/miniconda3/bin/conda", "/home/u/anaconda3/bin/conda"]
    );
    assert_eq!(
        voiceger_launch_cmd(Some("conda"), "/v/GPT-SoVITS/api_v2.py"),
        "conda run -n voiceger --no-capture-output python /v/GPT-SoVITS/api_v2.py"
    );
    assert_eq!(voiceger_launch_cmd(None, "/a.py"), "python /a.py");
}

#[test]
fn script_word_prefers_python_script() {
    assert_eq!(
        voiceger_script_word(" /usr/bin/python /home/user/voiceger_v2/api.py "),
        Some("/home/user/voiceger_v2/api.py".to_string())
    );
    assert_eq!(
        voiceger_script_word("/opt/run --flag"),
        Some("/opt/run".to_string())
    );
    assert_eq!(voiceger_script_word("python"), None);
    assert_eq!(voiceger_script_word("python \"unterminated"), None);
}

#[test]
fn prompt_text_fallback() {
    assert_eq!(prompt_text_or_default(Some("  こんにちは\n")), "こんにちは");
    assert_eq!(prompt_text_or_default(Some(" \n ")), DEFAULT_VOICEGER_PROMPT_TEXT);
    assert_eq!(
        prompt_text_or_default(None),
        "私はいつもミネラルウォーターを持ち歩いています"
    );
}

#[test]
fn autostart_desktop_entry() {
    assert_eq!(
        autostart_entry("/usr/bin/zundux_tts"),
        "[Desktop Entry]\nType=Application\nName=ZunduxTTS\nComment=VOICEVOX TTS virtual microphone\nExec=/usr/bin/zundux_tts\nTerminal=false\nX-GNOME-Autostart-enabled=true\n"
    );
}

#[test]
fn voiceger_base_dir_from_launch_command() {
    assert_eq!(
        voiceger_base_dir("python /home/user/voiceger_v2/api.py").as_deref(),
        Some("/home/user/voiceger_v2")
    );
    assert_eq!(
        voiceger_base_dir("conda run -n voiceger python /v/GPT-SoVITS/api_v2.py").as_deref(),
        Some("/v")
    );
    assert_eq!(voiceger_base_dir("python"), None);
    assert_eq!(voiceger_base_dir("python 'unterminated"), None);
}

#[test]
fn voiceger_base_dir_of_script() {
    assert_eq!(voiceger_base_dir_of("/GPT-SoVITS/api_v2.py").as_deref(), Some("/"));
    assert_eq!(voiceger_base_dir_of("/opt/voiceger/api.py").as_deref(), Some("/opt/voiceger"));
    assert_eq!(voiceger_base_dir_of("/opt/voiceger/").as_deref(), Some("/opt"));
    assert_eq!(voiceger_base_dir_of("/opt//voiceger/./api.py").as_deref(), Some("/opt//voiceger"));
    assert_eq!(voiceger_base_dir_of("./api.py").as_deref(), Some("."));
    assert_eq!(voiceger_base_dir_of("api.py").as_deref(), Some(""));
    assert_eq!(voiceger_base_dir_of("GPT-SoVITS/api_v2.py").as_deref(), Some(""));
    assert_eq!(voiceger_base_dir_of("/"), None);
    assert_eq!(voiceger_base_dir_of("//"), None);
}

#[test]
fn voiceger_base_dir_trailing_slash() {
    assert_eq!(voiceger_base_dir("run /opt/voiceger/").as_deref(), Some("/opt"));
    assert_eq!(voiceger_base_dir("run /"), None);
}
