use zundux_tts::validation::{
    check_config_file_size, is_valid_device_name, is_valid_pa_name, is_valid_voicevox_url,
    sanitize_device_name, ValidationError, DEFAULT_DEVICE_NAME, DEFAULT_VOICEVOX_URL,
};

#[test]
fn valid_device_names() {
    assert!(is_valid_device_name("ZundamonVRC"));
    assert!(is_valid_device_name("my-device_01"));
    assert!(is_valid_device_name("a"));
}

#[test]
fn invalid_device_names() {
    assert!(!is_valid_device_name(""));
    assert!(!is_valid_device_name("has spaces"));
    assert!(!is_valid_device_name("semi;colon"));
    assert!(!is_valid_device_name("eq=uals"));
    assert!(!is_valid_device_name(&"a".repeat(65)));
    assert!(is_valid_device_name(&"a".repeat(64)));
}

#[test]
fn sanitize_falls_back_to_default() {
    assert_eq!(sanitize_device_name("valid-name"), "valid-name");
    assert_eq!(sanitize_device_name("has spaces"), "ZundamonVRC");
    assert_eq!(sanitize_device_name(""), "ZundamonVRC");
    assert_eq!(DEFAULT_DEVICE_NAME, "ZundamonVRC");
}

#[test]
fn pa_names_allow_dots_and_colons() {
    assert!(is_valid_pa_name("alsa_input.pci-0000_00_1f.3.analog-stereo"));
    assert!(is_valid_pa_name("@DEFAULT_SOURCE@"));
    assert!(!is_valid_pa_name("bad name"));
}

#[test]
fn local_urls_are_accepted() {
    assert!(is_valid_voicevox_url("http://127.0.0.1:50021").is_ok());
    assert!(is_valid_voicevox_url("http://localhost:50021").is_ok());
    assert!(is_valid_voicevox_url("http://[::1]:50021").is_ok());
    assert!(is_valid_voicevox_url(DEFAULT_VOICEVOX_URL).is_ok());
}

#[test]
fn other_urls_are_refused() {
    let e = is_valid_voicevox_url("http://evil.com:50021").err().unwrap();
    assert!(matches!(e, ValidationError::NotLocalhost(ref h) if h == "evil.com"));
    assert_eq!(e.message(), "VOICEVOX URL must point to localhost, got: evil.com");
    let e = is_valid_voicevox_url("https://127.0.0.1:50021").err().unwrap();
    assert_eq!(e.message(), "VOICEVOX URL must use http scheme, got: https");
    let e = is_valid_voicevox_url("ftp://127.0.0.1").err().unwrap();
    assert!(matches!(e, ValidationError::NotHttp(_)));
    let e = is_valid_voicevox_url("not a url").err().unwrap();
    assert!(matches!(e, ValidationError::InvalidUrl(_)));
    assert_eq!(e.message(), "Invalid URL: relative URL without a base");
}

#[test]
fn config_size_limit() {
    assert!(check_config_file_size(1_048_576).is_ok());
    let e = check_config_file_size(1_048_577).err().unwrap();
    assert!(matches!(e, ValidationError::ConfigTooLarge(1_048_577)));
    assert_eq!(e.message(), "Config file too large: 1048577 bytes (max 1048576 bytes)");
}
