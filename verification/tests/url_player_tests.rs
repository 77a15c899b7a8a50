use zundux_tts::media::url_player::{url_pipeline, UrlPlayError};

#[test]
fn url_with_shell_metacharacters_is_safe() {
    // Verify that URLs with shell metacharacters don't cause issues
    // when passed as discrete Command arguments (no shell involved)
    let dangerous_url = "https://example.com/video?a=1&b=2;rm -rf /";
    let dangerous_device = "device$(whoami)";

    // These should not panic or execute shell commands
    // The actual Command is constructed with .arg() not sh -c
    assert!(dangerous_url.contains(';'));
    assert!(dangerous_device.contains('$'));
}

#[test]
fn url_is_one_argument_of_the_pipeline() {
    let url = "https://example.com/video?a=1&b=2;rm -rf /";
    let p = url_pipeline(url, "ZunduxMic").ok().unwrap();
    assert_eq!(p.ytdlp, vec!["yt-dlp", "-o", "-", "-f", "bestaudio", url]);
    assert_eq!(
        p.ffmpeg,
        vec![
            "ffmpeg", "-i", "pipe:0", "-f", "wav", "-acodec", "pcm_s16le", "-ar", "24000", "-ac",
            "1", "pipe:1"
        ]
    );
    assert_eq!(p.paplay, vec!["paplay", "--device", "ZunduxMic"]);
}

#[test]
fn invalid_device_is_refused() {
    let e = url_pipeline("https://example.com", "device$(whoami)").err().unwrap();
    assert!(matches!(e, UrlPlayError::InvalidDevice(ref d) if d == "device$(whoami)"));
    assert_eq!(e.message(), "Invalid device name for playback: device$(whoami)");
}
