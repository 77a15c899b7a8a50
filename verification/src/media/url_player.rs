//! Playing the audio of a web page's media on the virtual device through a
//! `yt-dlp | ffmpeg | paplay` pipeline.
use vstd::prelude::*;
use crate::launch::string_views;
use crate::validation::{is_valid_device_name, valid_device_name};

verus! {

/// The three commands of the pipeline, each as a program and its arguments; each
/// reads the previous one's standard output.
pub struct UrlPipeline {
    pub ytdlp: Vec<String>,
    pub ffmpeg: Vec<String>,
    pub paplay: Vec<String>,
}

/// Why a URL could not be played.
pub enum UrlPlayError {
    /// The device name is not a valid device name; the name.
    InvalidDevice(String),
}

impl UrlPlayError {
    /// A human-readable description of the error.
    pub fn message(&self) -> (m: String)
        ensures
            m@ == (match self {
                UrlPlayError::InvalidDevice(d) => "Invalid device name for playback: "@ + d@,
            }),
    {
        match self {
            UrlPlayError::InvalidDevice(d) => {
                let mut m = String::from_str("Invalid device name for playback: ");
                m.append(d.as_str());
                m
            },
        }
    }
}

/// `yt-dlp` writing the best audio stream of `url` to standard output.
pub open spec fn ytdlp_command(url: Seq<char>) -> Seq<Seq<char>> {
    seq!["yt-dlp"@, "-o"@, "-"@, "-f"@, "bestaudio"@, url]
}

/// `ffmpeg` turning its input into 24 kHz mono 16-bit WAV on standard output.
pub open spec fn ffmpeg_wav_command() -> Seq<Seq<char>> {
    seq![
        "ffmpeg"@,
        "-i"@,
        "pipe:0"@,
        "-f"@,
        "wav"@,
        "-acodec"@,
        "pcm_s16le"@,
        "-ar"@,
        "24000"@,
        "-ac"@,
        "1"@,
        "pipe:1"@,
    ]
}

/// `paplay` playing its input on `device`.
pub open spec fn paplay_command(device: Seq<char>) -> Seq<Seq<char>> {
    seq!["paplay"@, "--device"@, device]
}

fn strings(words: &[&str]) -> (r: Vec<String>)
    ensures
        r.len() == words.len(),
        forall|i: int| 0 <= i < r.len() ==> (#[trigger] r[i])@ == words[i]@,
{
    let mut r: Vec<String> = Vec::new();
    let mut i: usize = 0;
    while i < words.len()
        invariant
            0 <= i <= words.len(),
            r.len() == i,
            forall|j: int| 0 <= j < i ==> (#[trigger] r[j])@ == words[j]@,
        decreases words.len() - i,
    {
        r.push(String::from_str(words[i]));
        i = i + 1;
    }
    r
}

/// The pipeline that plays the audio of `url` on `device_name`, refused where the
/// device name is not a valid device name. Each command gets its arguments directly,
/// with no shell in between.
pub fn url_pipeline(url: &str, device_name: &str) -> (r: Result<UrlPipeline, UrlPlayError>)
    ensures
        !valid_device_name(device_name@) ==> (r matches Err(UrlPlayError::InvalidDevice(d)) && d@
            == device_name@),
        valid_device_name(device_name@) ==> (r matches Ok(p) && string_views(p.ytdlp@)
            == ytdlp_command(url@) && string_views(p.ffmpeg@) == ffmpeg_wav_command()
            && string_views(p.paplay@) == paplay_command(device_name@)),
{
    if !is_valid_device_name(device_name) {
        return Err(UrlPlayError::InvalidDevice(String::from_str(device_name)));
    }
    let ytdlp = strings(&["yt-dlp", "-o", "-", "-f", "bestaudio", url]);
    let ffmpeg = strings(
        &[
            "ffmpeg",
            "-i",
            "pipe:0",
            "-f",
            "wav",
            "-acodec",
            "pcm_s16le",
            "-ar",
            "24000",
            "-ac",
            "1",
            "pipe:1",
        ],
    );
    let paplay = strings(&["paplay", "--device", device_name]);
    proof {
        assert(string_views(ytdlp@) =~= ytdlp_command(url@));
        assert(string_views(ffmpeg@) =~= ffmpeg_wav_command());
        assert(string_views(paplay@) =~= paplay_command(device_name@));
    }
    Ok(UrlPipeline { ytdlp, ffmpeg, paplay })
}

} // verus!
