//! The commands that play audio on a PulseAudio device, and how their exit is
//! judged.
use vstd::prelude::*;
use crate::launch::string_views;
use crate::text::{i32_to_string, signed_decimal, decimal, u32_to_string};

verus! {

/// The decoder arguments after the input: mono, 48 kHz, signed 16-bit
/// little-endian PCM on standard output, errors only.
pub open spec fn pcm_output_args() -> Seq<Seq<char>> {
    seq![
        "-f"@,
        "s16le"@,
        "-acodec"@,
        "pcm_s16le"@,
        "-ac"@,
        "1"@,
        "-ar"@,
        "48000"@,
        "-loglevel"@,
        "error"@,
        "pipe:1"@,
    ]
}

/// Arguments of the `ffmpeg` run that decodes `input` to raw PCM, with the audio
/// filter `filter` (such as a volume change) where there is one.
pub fn ffmpeg_pcm_args(input: &str, filter: Option<&str>) -> (r: Vec<String>)
    ensures
        string_views(r@) == seq!["-i"@, input@] + (match filter {
            Some(f) => seq!["-af"@, f@],
            None => Seq::<Seq<char>>::empty(),
        }) + pcm_output_args(),
{
    let mut r: Vec<String> = Vec::new();
    r.push(String::from_str("-i"));
    r.push(String::from_str(input));
    if let Some(f) = filter {
        r.push(String::from_str("-af"));
        r.push(String::from_str(f));
    }
    r.push(String::from_str("-f"));
    r.push(String::from_str("s16le"));
    r.push(String::from_str("-acodec"));
    r.push(String::from_str("pcm_s16le"));
    r.push(String::from_str("-ac"));
    r.push(String::from_str("1"));
    r.push(String::from_str("-ar"));
    r.push(String::from_str("48000"));
    r.push(String::from_str("-loglevel"));
    r.push(String::from_str("error"));
    r.push(String::from_str("pipe:1"));
    proof {
        assert(string_views(r@) =~= seq!["-i"@, input@] + (match filter {
            Some(f) => seq!["-af"@, f@],
            None => Seq::<Seq<char>>::empty(),
        }) + pcm_output_args());
    }
    r
}

/// Arguments of the `paplay` run that plays raw 48 kHz mono PCM from standard
/// input, on `device` where one is given, else on the default output.
pub fn paplay_raw_args(device: Option<&str>) -> (r: Vec<String>)
    ensures
        string_views(r@) == (match device {
            Some(d) => seq!["--device"@, d@],
            None => Seq::<Seq<char>>::empty(),
        }) + seq!["--raw"@, "--format=s16le"@, "--rate=48000"@, "--channels=1"@],
{
    let mut r: Vec<String> = Vec::new();
    if let Some(d) = device {
        r.push(String::from_str("--device"));
        r.push(String::from_str(d));
    }
    r.push(String::from_str("--raw"));
    r.push(String::from_str("--format=s16le"));
    r.push(String::from_str("--rate=48000"));
    r.push(String::from_str("--channels=1"));
    proof {
        assert(string_views(r@) =~= (match device {
            Some(d) => seq!["--device"@, d@],
            None => Seq::<Seq<char>>::empty(),
        }) + seq!["--raw"@, "--format=s16le"@, "--rate=48000"@, "--channels=1"@]);
    }
    r
}

/// Name of the temporary WAV file written for playback (`monitor` for the copy
/// played on the default output), made unique by the clock's `nanos`.
pub fn temp_wav_name(monitor: bool, nanos: u32) -> (r: String)
    ensures
        r@ == (if monitor {
            "zundux_monitor_"@
        } else {
            "zundux_tts_"@
        }) + decimal(nanos as nat) + ".wav"@,
{
    let mut r = if monitor {
        String::from_str("zundux_monitor_")
    } else {
        String::from_str("zundux_tts_")
    };
    let d = u32_to_string(nanos);
    r.append(d.as_str());
    r.append(".wav");
    r
}

/// The error of a finished player: none where it succeeded or was ended by a
/// signal (no exit code: stopped on purpose), else its exit status.
pub fn player_exit_error(success: bool, code: Option<i32>) -> (r: Option<String>)
    ensures
        success ==> r is None,
        !success && code is None ==> r is None,
        !success ==> (code matches Some(c) ==> (r matches Some(m) && m@
            == "paplay exited with status "@ + signed_decimal(c as int))),
{
    if success {
        return None;
    }
    match code {
        None => None,
        Some(c) => {
            let mut m = String::from_str("paplay exited with status ");
            let d = i32_to_string(c);
            m.append(d.as_str());
            Some(m)
        },
    }
}

/// What a playback loop does on one turn.
pub enum PollDecision {
    /// Kill the players and stop, successfully.
    Stop,
    /// The player has exited: end with this error, if any.
    Finish(Option<String>),
    /// The player is still running: wait a little and look again.
    Wait,
}

/// One turn of a playback loop: a stop request wins; else an exited player ends the
/// loop, judged by `player_exit_error`; else the loop waits.
pub fn poll_playback(cancelled: bool, exit: Option<(bool, Option<i32>)>) -> (d: PollDecision)
    ensures
        cancelled ==> d is Stop,
        !cancelled && exit is None ==> d is Wait,
        !cancelled ==> (exit matches Some((success, code)) ==> (d matches PollDecision::Finish(e)
            && (e is None <==> (success || code is None)) && (e matches Some(m) ==> (code
            matches Some(c) && m@ == "paplay exited with status "@ + signed_decimal(c as int))))),
{
    if cancelled {
        return PollDecision::Stop;
    }
    match exit {
        None => PollDecision::Wait,
        Some((success, code)) => PollDecision::Finish(player_exit_error(success, code)),
    }
}

} // verus!
