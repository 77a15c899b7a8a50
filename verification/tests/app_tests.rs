use zundux_tts::app::{
    auto_select_mic_source, docker_ps_args, docker_stop_args, error_toast_expired,
    health_check_due, health_check_interval_secs, is_sound_file_extension, lists_container,
    mic_source_or_default, name_order, status_error_text, strip_silent_words, EngineStatus,
    SpeechStatus,
    ErrorUpdate, LaunchAction, LaunchEvent, LaunchPhase, ProcessStatus, ProcessUpdate,
    VoicevoxLaunch,
};

#[test]
fn silent_words_are_removed_then_trimmed() {
    let words = vec!["えーと".to_string(), "あのー".to_string()];
    assert_eq!(strip_silent_words(" えーと、こんにちはあのー ", &words), "、こんにちは");
    assert_eq!(strip_silent_words("えーと", &words), "");
    assert_eq!(strip_silent_words(" abc ", &Vec::new()), "abc");
    let overlapping = vec!["aa".to_string()];
    assert_eq!(strip_silent_words("aaa", &overlapping), "a");
}

#[test]
fn health_checks_are_faster_while_launching() {
    assert_eq!(health_check_interval_secs(true), 1);
    assert_eq!(health_check_interval_secs(false), 5);
    assert!(health_check_due(1, true));
    assert!(!health_check_due(4, false));
    assert!(health_check_due(5, false));
}

#[test]
fn reconnect_reloads_speakers() {
    let mut s = EngineStatus { connected: false, launching: true };
    assert!(s.on_health_check(true));
    assert!(s.connected && !s.launching);
    assert!(!s.on_health_check(true));
    assert!(!s.on_health_check(false));
    assert!(!s.connected);
}

#[test]
fn microphone_choice() {
    assert_eq!(mic_source_or_default(None), "@DEFAULT_SOURCE@");
    assert_eq!(mic_source_or_default(Some("alsa_input.usb")), "alsa_input.usb");
    let sources = vec![("mic1".to_string(), "Mic 1".to_string()), ("mic2".to_string(), "Mic 2".to_string())];
    assert_eq!(auto_select_mic_source(None, &sources), Some("mic1".to_string()));
    assert_eq!(auto_select_mic_source(Some("mic2".to_string()), &sources), Some("mic2".to_string()));
    assert_eq!(auto_select_mic_source(None, &Vec::new()), None);
}

#[test]
fn status_bar_errors() {
    assert_eq!(status_error_text(&"e".repeat(80)), "e".repeat(60));
    assert!(error_toast_expired(false, 5_000_000_001));
    assert!(!error_toast_expired(false, 5_000_000_000));
    assert!(!error_toast_expired(true, 9_000_000_000));
}

#[test]
fn sound_extensions() {
    assert!(is_sound_file_extension("wav"));
    assert!(is_sound_file_extension("MP3"));
    assert!(is_sound_file_extension("Ogg"));
    assert!(!is_sound_file_extension("flac"));
    assert!(!is_sound_file_extension("wave"));
}

#[test]
fn names_sort_stably() {
    let names: Vec<String> = ["b", "a", "ab", "a", "B", "あ"].iter().map(|s| s.to_string()).collect();
    let order = name_order(&names);
    assert_eq!(order, vec![4, 1, 3, 2, 0, 5]);
    let mut sorted = names.clone();
    sorted.sort();
    let by_order: Vec<String> = order.iter().map(|&i| names[i].clone()).collect();
    assert_eq!(by_order, sorted);
    assert!(name_order(&Vec::new()).is_empty());
}

#[test]
fn docker_arguments() {
    assert_eq!(
        docker_ps_args(false),
        vec!["ps", "--filter", "name=zundux-voicevox", "--format", "{{.Names}}"]
    );
    assert_eq!(
        docker_ps_args(true),
        vec!["ps", "-a", "--filter", "name=zundux-voicevox", "--filter", "status=exited", "--format", "{{.Names}}"]
    );
    assert!(lists_container("zundux-voicevox\n"));
    assert!(!lists_container("other\n"));
    assert_eq!(docker_stop_args(true), vec!["stop", "-t", "5", "zundux-voicevox"]);
    assert_eq!(docker_stop_args(false), vec!["stop", "zundux-voicevox"]);
}

#[test]
fn blank_command_launches_nothing() {
    let (l, a) = VoicevoxLaunch::start("   ");
    assert_eq!(l.phase, LaunchPhase::Done);
    match a {
        LaunchAction::Finish(o) => {
            assert_eq!(o.process, ProcessUpdate::Keep);
            assert!(o.launching.is_none() && o.docker.is_none());
            assert!(matches!(o.error, ErrorUpdate::Keep));
        }
        _ => panic!("expected the attempt to end"),
    }
}

#[test]
fn running_container_is_reused() {
    let (mut l, a) = VoicevoxLaunch::start("docker run -p 50021:50021 img");
    assert!(matches!(a, LaunchAction::QueryContainer(_)));
    match l.advance(LaunchEvent::Listed(true)) {
        LaunchAction::Finish(o) => {
            assert_eq!(o.launching, Some(true));
            assert_eq!(o.process, ProcessUpdate::Keep);
        }
        _ => panic!("expected the attempt to end"),
    }
}

#[test]
fn stopped_container_is_restarted() {
    let (mut l, _) = VoicevoxLaunch::start("docker run img");
    assert!(matches!(l.advance(LaunchEvent::Listed(false)), LaunchAction::PollProcess));
    match l.advance(LaunchEvent::Process(ProcessStatus::Exited)) {
        LaunchAction::QueryContainer(args) => assert!(args.contains(&"status=exited".to_string())),
        _ => panic!("expected a container query"),
    }
    match l.advance(LaunchEvent::Listed(true)) {
        LaunchAction::Spawn { command, piped } => {
            assert!(piped);
            assert_eq!(command.program, "docker");
            assert_eq!(command.args, vec!["start", "zundux-voicevox"]);
        }
        _ => panic!("expected a restart"),
    }
    match l.advance(LaunchEvent::Spawned(Err("boom".to_string()))) {
        LaunchAction::Finish(o) => {
            assert_eq!(o.process, ProcessUpdate::Forget);
            assert_eq!(o.launching, Some(false));
            match o.error {
                ErrorUpdate::Show(m) => assert_eq!(m, "VOICEVOX再起動失敗: boom"),
                _ => panic!("expected an error"),
            }
        }
        _ => panic!("expected the attempt to end"),
    }
}

#[test]
fn local_engine_is_started() {
    let (mut l, a) = VoicevoxLaunch::start(" /opt/voicevox/run ");
    assert!(matches!(a, LaunchAction::PollProcess));
    match l.advance(LaunchEvent::Process(ProcessStatus::NoProcess)) {
        LaunchAction::Spawn { command, piped } => {
            assert!(!piped);
            assert_eq!(command.program, "/opt/voicevox/run");
        }
        _ => panic!("expected a spawn"),
    }
    match l.advance(LaunchEvent::Spawned(Ok(()))) {
        LaunchAction::Finish(o) => {
            assert_eq!(o.process, ProcessUpdate::Started);
            assert_eq!(o.docker, Some(false));
            assert_eq!(o.launching, Some(true));
            assert!(matches!(o.error, ErrorUpdate::Clear));
        }
        _ => panic!("expected the attempt to end"),
    }
}

#[test]
fn refused_command_reports_its_error() {
    let (mut l, _) = VoicevoxLaunch::start("voicevox --host 0.0.0.0");
    match l.advance(LaunchEvent::Process(ProcessStatus::NoProcess)) {
        LaunchAction::Finish(o) => match o.error {
            ErrorUpdate::Show(m) => assert_eq!(
                m,
                "VOICEVOX起動失敗: Local VOICEVOX launch accepts executable path only (no arguments allowed)"
            ),
            _ => panic!("expected an error"),
        },
        _ => panic!("expected the attempt to end"),
    }
}

#[test]
fn running_process_is_kept() {
    let (mut l, _) = VoicevoxLaunch::start("/opt/voicevox/run");
    match l.advance(LaunchEvent::Process(ProcessStatus::Running)) {
        LaunchAction::Finish(o) => assert_eq!(o.process, ProcessUpdate::Keep),
        _ => panic!("expected the attempt to end"),
    }
    assert!(matches!(l.advance(LaunchEvent::Listed(true)), LaunchAction::Finish(_)));
}

#[test]
fn speech_request_then_answers() {
    let words = vec!["えーと".to_string()];
    let mut status = SpeechStatus { synthesizing: false, last_error: Some("old".to_string()) };
    assert_eq!(status.on_send("  えーと ", &words), None);
    assert!(!status.synthesizing);
    assert_eq!(status.last_error.as_deref(), Some("old"));

    assert_eq!(status.on_send(" えーとこんにちは ", &words).as_deref(), Some("こんにちは"));
    assert!(status.synthesizing);
    assert_eq!(status.last_error, None);

    status.on_failure("engine down".to_string());
    assert!(!status.synthesizing);
    assert_eq!(status.last_error.as_deref(), Some("engine down"));

    assert!(status.on_send("again", &words).is_some());
    status.on_audio_ready();
    assert!(!status.synthesizing);
    assert_eq!(status.last_error, None);
}
