//! Decoding the PCM stream that `ffmpeg` makes of a sound file for loudness
//! analysis, and the errors of that analysis.
use vstd::prelude::*;
use crate::text::{take_chars, first_chars};

verus! {

/// Why a sound file could not be analysed.
pub enum LoudnessError {
    /// Running the decoder failed; what went wrong.
    DecodeFailed(String),
    /// The decoder's output holds no audio; why.
    InvalidFormat(String),
}

impl LoudnessError {
    /// A human-readable description of the error.
    pub fn message(&self) -> (m: String)
        ensures
            m@ == (match self {
                LoudnessError::DecodeFailed(s) => "decode failed: "@ + s@,
                LoudnessError::InvalidFormat(s) => "invalid format: "@ + s@,
            }),
    {
        match self {
            LoudnessError::DecodeFailed(s) => {
                let mut m = String::from_str("decode failed: ");
                m.append(s.as_str());
                m
            },
            LoudnessError::InvalidFormat(s) => {
                let mut m = String::from_str("invalid format: ");
                m.append(s.as_str());
                m
            },
        }
    }
}

/// The decoder could not be started; `detail` says why.
pub fn spawn_failure(detail: &str) -> (e: LoudnessError)
    ensures
        e matches LoudnessError::DecodeFailed(s) && s@ == "ffmpeg spawn failed: "@ + detail@,
{
    let mut s = String::from_str("ffmpeg spawn failed: ");
    s.append(detail);
    LoudnessError::DecodeFailed(s)
}

/// The value of the signed 16-bit little-endian sample with bytes `lo`, `hi`.
pub open spec fn le_i16(lo: u8, hi: u8) -> int {
    if hi < 128 {
        hi * 256 + lo
    } else {
        hi * 256 + lo - 65536
    }
}

/// `samples` are the 16-bit little-endian samples of `bytes`, a trailing odd byte
/// left out.
pub open spec fn are_le_samples(samples: Seq<i16>, bytes: Seq<u8>) -> bool {
    &&& samples.len() == bytes.len() / 2
    &&& forall|i: int|
        0 <= i < samples.len() ==> #[trigger] samples[i] == le_i16(bytes[2 * i], bytes[2 * i + 1])
}

/// The sample with little-endian bytes `lo`, `hi` (`i16::from_le_bytes`).
pub fn sample_from_le_bytes(lo: u8, hi: u8) -> (s: i16)
    ensures
        s == le_i16(lo, hi),
{
    let v: u32 = (hi as u32) * 256 + (lo as u32);
    if hi < 128 {
        v as i16
    } else {
        ((v as i32) - 65536) as i16
    }
}

/// Most characters of the decoder's error output kept in the error.
pub const MAX_DECODER_ERROR_CHARS: usize = 200;

/// The samples of a finished decoder run (mono, signed 16-bit little-endian PCM on
/// its standard output), or why there are none: the decoder failed (the first 200
/// characters of what it wrote to its error output are kept), wrote nothing, or
/// wrote less than one sample.
pub fn decode_pcm(success: bool, stdout: &[u8], stderr: &str) -> (r: Result<Vec<i16>, LoudnessError>)
    ensures
        !success ==> (r matches Err(LoudnessError::DecodeFailed(s)) && s@ == "ffmpeg failed: "@
            + first_chars(stderr@, MAX_DECODER_ERROR_CHARS as nat)),
        success && stdout.len() == 0 ==> (r matches Err(LoudnessError::InvalidFormat(s)) && s@
            == "ffmpeg produced no output"@),
        success && stdout.len() == 1 ==> (r matches Err(LoudnessError::InvalidFormat(s)) && s@
            == "no samples"@),
        success && stdout.len() >= 2 ==> (r matches Ok(v) && are_le_samples(v@, stdout@)),
{
    if !success {
        let mut s = String::from_str("ffmpeg failed: ");
        let head = take_chars(stderr, MAX_DECODER_ERROR_CHARS);
        s.append(head.as_str());
        return Err(LoudnessError::DecodeFailed(s));
    }
    if stdout.len() == 0 {
        return Err(LoudnessError::InvalidFormat(String::from_str("ffmpeg produced no output")));
    }
    let n = stdout.len() / 2;
    if n == 0 {
        return Err(LoudnessError::InvalidFormat(String::from_str("no samples")));
    }
    let mut v: Vec<i16> = Vec::new();
    let mut i: usize = 0;
    while i < n
        invariant
            0 <= i <= n,
            n == stdout.len() / 2,
            v.len() == i,
            forall|j: int|
                0 <= j < i ==> #[trigger] v@[j] == le_i16(stdout@[2 * j], stdout@[2 * j + 1]),
        decreases n - i,
    {
        v.push(sample_from_le_bytes(stdout[2 * i], stdout[2 * i + 1]));
        i = i + 1;
    }
    Ok(v)
}

} // verus!
