use zundux_tts::audio::virtual_device::VirtualDevice;
use zundux_tts::audio::AudioManager;
use zundux_tts::media::desktop_capture::DesktopCapture;
use zundux_tts::pactl::{
    parse_module_id, unload_command, unload_listed_command, CommandOutcome, CommandOutput,
    PactlError, PactlStep,
};

fn ok(stdout: &str) -> CommandOutcome {
    CommandOutcome::Finished(CommandOutput {
        success: true,
        stdout: stdout.to_string(),
        stderr: String::new(),
    })
}

fn failed(stderr: &str) -> CommandOutcome {
    CommandOutcome::Finished(CommandOutput {
        success: false,
        stdout: String::new(),
        stderr: stderr.to_string(),
    })
}

fn args(step: &PactlStep) -> Vec<String> {
    match step {
        PactlStep::Run(a) => a.clone(),
        PactlStep::Done(_) => panic!("expected a command"),
    }
}

#[test]
fn module_ids_are_parsed() {
    assert_eq!(parse_module_id("42\n"), Some(42));
    assert_eq!(parse_module_id(" 7 "), Some(7));
    assert_eq!(parse_module_id("x"), None);
}

#[test]
fn unload_commands() {
    assert_eq!(unload_command(12), vec!["unload-module", "12"]);
    assert_eq!(unload_listed_command("13"), vec!["unload-module", "13"]);
}

#[test]
fn device_names() {
    let m = AudioManager::new("ZunduxMic");
    assert_eq!(m.virtual_device.source_name(), "ZunduxMic_mic");
    assert_eq!(m.virtual_device.denoised_source_name(), "ZunduxMic_denoised");
    assert!(!m.virtual_device.is_mic_passthrough());
}

#[test]
fn creating_a_missing_device() {
    let mut dev = VirtualDevice::new("ZunduxMic");
    let (mut op, step) = dev.create();
    assert_eq!(args(&step), vec!["list", "short", "sinks"]);
    let step = op.advance(&mut dev, ok("1\talsa_output\tmodule\n"));
    assert_eq!(
        args(&step),
        vec![
            "load-module",
            "module-null-sink",
            "sink_name=ZunduxMic",
            "sink_properties=device.description=\"ZunduxMic_Virtual_Mic\""
        ]
    );
    let step = op.advance(&mut dev, ok("25\n"));
    assert_eq!(args(&step), vec!["set-sink-mute", "ZunduxMic", "0"]);
    let step = op.advance(&mut dev, ok(""));
    assert_eq!(args(&step), vec!["set-sink-volume", "ZunduxMic", "100%"]);
    let step = op.advance(&mut dev, ok(""));
    assert_eq!(args(&step), vec!["list", "short", "sources"]);
    let step = op.advance(&mut dev, ok(""));
    assert_eq!(args(&step)[1], "module-virtual-source");
    let step = op.advance(&mut dev, ok("26\n"));
    assert!(matches!(step, PactlStep::Done(Ok(()))));
}

#[test]
fn failed_null_sink_reports_stderr() {
    let mut dev = VirtualDevice::new("ZunduxMic");
    let (mut op, _) = dev.create();
    op.advance(&mut dev, ok(""));
    let step = op.advance(&mut dev, failed("no such module"));
    match step {
        PactlStep::Done(Err(e)) => {
            assert!(matches!(e, PactlError::NullSinkFailed(_)));
            assert_eq!(e.message(), "pactl load-module (null-sink) failed: no such module");
        }
        _ => panic!("expected the failure"),
    }
}

#[test]
fn device_existence_from_listing() {
    let dev = VirtualDevice::new("ZunduxMic");
    assert_eq!(dev.exists_in_listing(&ok("3\tZunduxMic\tmodule-null-sink.c\n")).ok(), Some(true));
    assert_eq!(dev.exists_in_listing(&ok("3\tOther\n")).ok(), Some(false));
    assert!(dev.exists_in_listing(&CommandOutcome::NotStarted).is_err());
}

#[test]
fn passthrough_on_and_off() {
    let mut dev = VirtualDevice::new("ZunduxMic");
    let (mut op, step) = dev.enable_mic_passthrough("mic", false, false);
    assert_eq!(
        args(&step),
        vec!["load-module", "module-loopback", "source=mic", "sink=ZunduxMic", "latency_msec=30"]
    );
    let step = op.advance(&mut dev, ok("31\n"));
    assert!(matches!(step, PactlStep::Done(Ok(()))));
    assert!(dev.is_mic_passthrough());
    let (mut off, step) = dev.disable_mic_passthrough();
    assert_eq!(args(&step), vec!["unload-module", "31"]);
    let _ = off.advance(&mut dev, ok(""));
    assert!(!dev.is_mic_passthrough());
}

#[test]
fn noise_suppression_uses_rnnoise_first() {
    let dev = VirtualDevice::new("ZunduxMic");
    let (_, step) = dev.enable_mic_passthrough("mic", true, true);
    assert_eq!(
        args(&step),
        vec![
            "load-module",
            "module-ladspa-source",
            "source_name=ZunduxMic_denoised",
            "master=mic",
            "plugin=librnnoise_ladspa",
            "label=noise_suppressor_mono"
        ]
    );
}

#[test]
fn sources_and_stale_modules() {
    let listing = "Source #1\n\tName: mic1\n\tDescription: Built-in Mic\nSource #2\n\tName: mic2\n\tDescription: USB Mic\n";
    let sources = VirtualDevice::list_sources(listing);
    assert_eq!(
        sources,
        vec![
            ("mic1".to_string(), "Built-in Mic".to_string()),
            ("mic2".to_string(), "USB Mic".to_string())
        ]
    );
    let dev = VirtualDevice::new("ZunduxMic");
    let stale = dev.stale_module_ids("12\tmodule-loopback\tsource=x sink=ZunduxMic\n13\tmodule-loopback\tsink=Other\n");
    assert_eq!(stale, vec!["12"]);
}

#[test]
fn capture_stops_to_idle() {
    let mut cap = DesktopCapture::new();
    assert!(!cap.is_capturing());
    assert!(cap.stop_capture().is_empty());
    let (cmds, _, _) = cap.restart_capture("ZunduxMic", false);
    assert!(cmds.is_empty());
    let stale = DesktopCapture::cleanup_stale("5\tmodule-combine-sink\tsink_name=ZunduxCombined slaves=a\n6\tmodule-null-sink\n");
    assert_eq!(stale, vec!["5"]);
}

#[test]
fn released_device_is_destroyed_without_commands() {
    let mut dev = VirtualDevice::new("ZunduxMic");
    let (mut op, _) = dev.create();
    op.advance(&mut dev, ok(""));
    op.advance(&mut dev, ok("25\n"));
    let (_, step) = dev.destroy();
    assert_eq!(args(&step), vec!["unload-module", "25"]);
    dev.forget_modules();
    let (_, step) = dev.destroy();
    assert!(matches!(step, PactlStep::Done(Ok(()))));
}

#[test]
fn passthrough_follows_last_routing_change() {
    let mut dev = VirtualDevice::new("ZunduxMic");
    assert!(!dev.is_mic_passthrough());

    let (mut op, _) = dev.enable_mic_passthrough("mic", false, false);
    op.advance(&mut dev, ok("not a module id\n"));
    assert!(!dev.is_mic_passthrough());

    let (mut op, _) = dev.enable_mic_passthrough("mic", false, false);
    op.advance(&mut dev, ok("40\n"));
    assert!(dev.is_mic_passthrough());

    let (mut off, step) = dev.disable_mic_passthrough();
    assert_eq!(args(&step), vec!["unload-module", "40"]);
    assert!(!dev.is_mic_passthrough());
    let done = off.advance(&mut dev, CommandOutcome::NotStarted);
    assert!(matches!(done, PactlStep::Done(Err(_))));
    assert!(!dev.is_mic_passthrough());

    let (mut op, _) = dev.enable_mic_passthrough("mic", false, false);
    op.advance(&mut dev, ok("41\n"));
    assert!(dev.is_mic_passthrough());
    let (_, step) = dev.destroy();
    assert_eq!(args(&step), vec!["unload-module", "41"]);
    assert!(!dev.is_mic_passthrough());
}

#[test]
fn failed_loopback_leaves_passthrough_off() {
    let mut dev = VirtualDevice::new("ZunduxMic");
    let (mut op, _) = dev.enable_mic_passthrough("mic", false, false);
    let step = op.advance(&mut dev, failed("no such source"));
    assert!(matches!(step, PactlStep::Done(Err(_))));
    assert!(!dev.is_mic_passthrough());
}
