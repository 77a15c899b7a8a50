use zundux_tts::audio::loudness::{decode_pcm, sample_from_le_bytes, spawn_failure, LoudnessError};
use zundux_tts::audio::playback::{
    ffmpeg_pcm_args, paplay_raw_args, player_exit_error, poll_playback, temp_wav_name,
    PollDecision,
};

#[test]
fn samples_are_little_endian() {
    assert_eq!(sample_from_le_bytes(0x34, 0x12), 0x1234);
    assert_eq!(sample_from_le_bytes(0xff, 0xff), -1);
    assert_eq!(sample_from_le_bytes(0x00, 0x80), i16::MIN);
    let r = decode_pcm(true, &[1, 0, 0xff, 0x7f, 9], "").ok().unwrap();
    assert_eq!(r, vec![1, i16::MAX]);
}

#[test]
fn decoder_failures() {
    let e = decode_pcm(false, &[], &"x".repeat(300)).err().unwrap();
    match &e {
        LoudnessError::DecodeFailed(m) => assert_eq!(*m, format!("ffmpeg failed: {}", "x".repeat(200))),
        _ => panic!("expected a decode failure"),
    }
    let e = decode_pcm(true, &[], "").err().unwrap();
    assert_eq!(e.message(), "invalid format: ffmpeg produced no output");
    let e = decode_pcm(true, &[7], "").err().unwrap();
    assert_eq!(e.message(), "invalid format: no samples");
    assert_eq!(
        spawn_failure("No such file").message(),
        "decode failed: ffmpeg spawn failed: No such file"
    );
}

#[test]
fn player_arguments() {
    assert_eq!(
        ffmpeg_pcm_args("a.wav", Some("volume=-3dB")),
        vec![
            "-i", "a.wav", "-af", "volume=-3dB", "-f", "s16le", "-acodec", "pcm_s16le", "-ac", "1",
            "-ar", "48000", "-loglevel", "error", "pipe:1"
        ]
    );
    assert_eq!(ffmpeg_pcm_args("b.mp3", None).len(), 13);
    assert_eq!(
        paplay_raw_args(Some("ZunduxMic")),
        vec!["--device", "ZunduxMic", "--raw", "--format=s16le", "--rate=48000", "--channels=1"]
    );
    assert_eq!(paplay_raw_args(None).len(), 4);
    assert_eq!(temp_wav_name(false, 42), "zundux_tts_42.wav");
    assert_eq!(temp_wav_name(true, 0), "zundux_monitor_0.wav");
}

#[test]
fn player_exit_is_judged() {
    assert_eq!(player_exit_error(true, Some(0)), None);
    assert_eq!(player_exit_error(false, None), None);
    assert_eq!(player_exit_error(false, Some(1)), Some("paplay exited with status 1".to_string()));
    assert_eq!(player_exit_error(false, Some(-2)), Some("paplay exited with status -2".to_string()));
    assert!(matches!(poll_playback(true, Some((false, Some(1)))), PollDecision::Stop));
    assert!(matches!(poll_playback(false, None), PollDecision::Wait));
    assert!(matches!(poll_playback(false, Some((true, Some(0)))), PollDecision::Finish(None)));
}
