use zundux_tts::ui::input::{text_to_send, truncate_text, TEMPLATE_MAX_DISPLAY_LEN};
use zundux_tts::ui::settings::{
    classify_dictionary_input, is_white, new_template, parse_port, rgb_hex, with_rgb,
    DictionaryInput,
};
use zundux_tts::ui::soundboard::{sound_stem, truncate_name, BUTTON_MAX_DISPLAY_LEN};
use zundux_tts::ui::theme::{parse_hex, to_hex};
use zundux_tts::ui::Screen;

#[test]
fn template_text_is_shortened() {
    assert_eq!(truncate_text("こんにちは！", TEMPLATE_MAX_DISPLAY_LEN), "こんにちは！");
    assert_eq!(truncate_text("abcdefghijklmnop", 12), "abcdefghijkl...");
    assert_eq!(truncate_text("", 3), "");
}

#[test]
fn sound_names_lose_their_extension() {
    assert_eq!(sound_stem("clap.wav"), "clap");
    assert_eq!(sound_stem("song.flac"), "song");
    assert_eq!(sound_stem("voice.OGG"), "voice.OGG");
    assert_eq!(truncate_name("a_very_long_sound_name.mp3", BUTTON_MAX_DISPLAY_LEN), "a_very_long_so...");
    assert_eq!(truncate_name("短い.ogg", 14), "短い");
}

#[test]
fn hex_colours() {
    assert_eq!(parse_hex("#FF8000"), Some([255, 128, 0, 255]));
    assert_eq!(parse_hex("#11223344"), Some([0x11, 0x22, 0x33, 0x44]));
    assert_eq!(parse_hex("zz"), None);
    assert_eq!(to_hex([1, 2, 171, 255]), "#0102ABFF");
    let c = [12, 34, 56, 78];
    assert_eq!(parse_hex(&to_hex(c)), Some(c));
    assert_eq!(rgb_hex([255, 0, 16, 3]), "#FF0010");
    assert_eq!(with_rgb([1, 2, 3, 4], [9, 8, 7, 6]), [9, 8, 7, 4]);
    assert!(is_white([255, 255, 255, 0]));
    assert!(!is_white([255, 255, 254, 255]));
}

#[test]
fn dictionary_inputs() {
    let silent = vec!["えーと".to_string()];
    assert!(matches!(classify_dictionary_input(" ", "よみ", &silent), DictionaryInput::Ignore));
    assert!(matches!(
        classify_dictionary_input(" えーと ", "{silent}", &silent),
        DictionaryInput::AlreadySilent
    ));
    match classify_dictionary_input("あのー", " {silent} ", &silent) {
        DictionaryInput::AddSilent(w) => assert_eq!(w, "あのー"),
        _ => panic!("expected a silent word"),
    }
    match classify_dictionary_input(" VRChat ", " ぶいあーるちゃっと", &silent) {
        DictionaryInput::AddWord { surface, pronunciation } => {
            assert_eq!(surface, "VRChat");
            assert_eq!(pronunciation, "ぶいあーるちゃっと");
        }
        _ => panic!("expected a dictionary word"),
    }
}

#[test]
fn settings_inputs() {
    assert_eq!(new_template("  やあ  "), Some("やあ".to_string()));
    assert_eq!(new_template(" "), None);
    assert_eq!(parse_port("9000"), Some(9000));
    assert_eq!(parse_port("+9001"), Some(9001));
    assert_eq!(parse_port("65536"), None);
    assert_eq!(parse_port("-1"), None);
    assert_eq!(parse_port(""), None);
}

#[test]
fn screens_compare() {
    assert_eq!(Screen::Input, Screen::Input);
    assert_ne!(Screen::Soundboard, Screen::Settings);
}

#[test]
fn enter_sends_trimmed_text() {
    assert_eq!(text_to_send(true, false, true, false, "  hello \n").as_deref(), Some("hello"));
    assert_eq!(text_to_send(true, false, true, true, "hello"), None);
    assert_eq!(text_to_send(true, true, true, false, "hello"), None);
    assert_eq!(text_to_send(false, false, true, false, "hello"), None);
    assert_eq!(text_to_send(true, false, false, false, "hello"), None);
    assert_eq!(text_to_send(true, false, true, false, " \n "), None);
}
