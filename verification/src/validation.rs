//! Checks on user-supplied names, URLs and file sizes.
use vstd::prelude::*;
use crate::text::{chars_of, decimal};

verus! {

/// The device name used when the configured one is not valid.
pub const DEFAULT_DEVICE_NAME: &'static str = "ZundamonVRC";

/// The VOICEVOX engine's default address.
pub const DEFAULT_VOICEVOX_URL: &'static str = "http://127.0.0.1:50021";

/// Largest configuration file accepted, in bytes (1 MiB).
pub const MAX_CONFIG_FILE_SIZE: u64 = 1_048_576;

/// Whether `c` may appear in a device name: `[a-zA-Z0-9_-]`.
pub open spec fn is_device_name_char(c: char) -> bool {
    ('a' <= c && c <= 'z') || ('A' <= c && c <= 'Z') || ('0' <= c && c <= '9') || c == '_' || c
        == '-'
}

/// A valid device name: one to 64 characters, all from `[a-zA-Z0-9_-]`.
pub open spec fn valid_device_name(s: Seq<char>) -> bool {
    &&& 0 < s.len() <= 64
    &&& forall|i: int| 0 <= i < s.len() ==> is_device_name_char(#[trigger] s[i])
}

/// Whether `c` may appear in a PulseAudio object name read back from `pactl`:
/// `[a-zA-Z0-9_.:@-]`.
pub open spec fn is_pa_name_char(c: char) -> bool {
    is_device_name_char(c) || c == '.' || c == ':' || c == '@'
}

/// A PulseAudio object name (or index) that may be handed back to `pactl`: one to 255
/// characters from `[a-zA-Z0-9_.:@-]`.
pub open spec fn valid_pa_name(s: Seq<char>) -> bool {
    &&& 0 < s.len() <= 255
    &&& forall|i: int| 0 <= i < s.len() ==> is_pa_name_char(#[trigger] s[i])
}

/// Validate a PulseAudio device name: `[a-zA-Z0-9_-]+`, at most 64 characters.
pub fn is_valid_device_name(name: &str) -> (ok: bool)
    ensures
        ok == valid_device_name(name@),
{
    let v = chars_of(name);
    if v.len() == 0 || v.len() > 64 {
        return false;
    }
    let mut i: usize = 0;
    while i < v.len()
        invariant
            0 <= i <= v.len(),
            v@ == name@,
            forall|j: int| 0 <= j < i ==> is_device_name_char(#[trigger] v@[j]),
        decreases v.len() - i,
    {
        let c = v[i];
        if !(('a' <= c && c <= 'z') || ('A' <= c && c <= 'Z') || ('0' <= c && c <= '9') || c == '_'
            || c == '-') {
            return false;
        }
        i = i + 1;
    }
    true
}

/// Validate a PulseAudio object name (or index) read from `pactl` output:
/// `[a-zA-Z0-9_.:@-]+`, at most 255 characters.
pub fn is_valid_pa_name(name: &str) -> (ok: bool)
    ensures
        ok == valid_pa_name(name@),
{
    let v = chars_of(name);
    if v.len() == 0 || v.len() > 255 {
        return false;
    }
    let mut i: usize = 0;
    while i < v.len()
        invariant
            0 <= i <= v.len(),
            v@ == name@,
            forall|j: int| 0 <= j < i ==> is_pa_name_char(#[trigger] v@[j]),
        decreases v.len() - i,
    {
        let c = v[i];
        if !(('a' <= c && c <= 'z') || ('A' <= c && c <= 'Z') || ('0' <= c && c <= '9') || c == '_'
            || c == '-' || c == '.' || c == ':' || c == '@') {
            return false;
        }
        i = i + 1;
    }
    true
}

/// The name itself when it is a valid device name, else the default device name;
/// the result is always valid.
pub fn sanitize_device_name(name: &str) -> (r: &str)
    ensures
        r@ == (if valid_device_name(name@) {
            name@
        } else {
            DEFAULT_DEVICE_NAME@
        }),
        valid_device_name(r@),
{
    if is_valid_device_name(name) {
        name
    } else {
        proof {
            reveal_strlit("ZundamonVRC");
        }
        DEFAULT_DEVICE_NAME
    }
}

// ---------------------------------------------------------------------------
// VOICEVOX URL
// ---------------------------------------------------------------------------

/// The scheme and the host (where there is one) of the URL that `url::Url::parse`
/// makes of `s`, or, where it refuses `s`, the text of its error.
pub uninterp spec fn url_parts(s: Seq<char>) -> Result<(Seq<char>, Option<Seq<char>>), Seq<char>>;

/// The view of an optional string.
pub open spec fn opt_view(o: Option<String>) -> Option<Seq<char>> {
    match o {
        Some(s) => Some(s@),
        None => None,
    }
}

/// Calls `url::Url::parse` (WHATWG URL parsing) and reads the scheme and the host of
/// the result with `Url::scheme` and `Url::host_str`, or the error's text (its
/// `Display`). The result is named `url_parts`; nothing more is claimed of it.
#[verifier::external_body]
fn parse_url_parts(s: &str) -> (r: Result<(String, Option<String>), String>)
    ensures
        r is Ok <==> url_parts(s@) is Ok,
        r matches Ok(p) ==> (url_parts(s@) matches Ok(q) && q.0 == p.0@ && q.1 == opt_view(p.1)),
        r matches Err(e) ==> (url_parts(s@) matches Err(m) && m == e@),
{
    match url::Url::parse(s) {
        Ok(u) => Ok((u.scheme().to_string(), u.host_str().map(str::to_string))),
        Err(e) => Err(e.to_string()),
    }
}

/// Why a value was refused.
pub enum ValidationError {
    /// The text is not a URL; the URL parser's error.
    InvalidUrl(String),
    /// The URL's scheme is not `http`; the scheme.
    NotHttp(String),
    /// The URL's host is not the local machine; the host.
    NotLocalhost(String),
    /// The URL has no host.
    NoHost,
    /// The configuration file is larger than allowed; its size in bytes.
    ConfigTooLarge(u64),
}

impl ValidationError {
    /// A human-readable description of the error.
    pub fn message(&self) -> (m: String)
        ensures
            m@ == (match self {
                ValidationError::InvalidUrl(e) => "Invalid URL: "@ + e@,
                ValidationError::NotHttp(s) => "VOICEVOX URL must use http scheme, got: "@ + s@,
                ValidationError::NotLocalhost(h) => "VOICEVOX URL must point to localhost, got: "@
                    + h@,
                ValidationError::NoHost => "VOICEVOX URL has no host"@,
                ValidationError::ConfigTooLarge(n) => "Config file too large: "@ + decimal(
                    *n as nat,
                ) + " bytes (max 1048576 bytes)"@,
            }),
    {
        match self {
            ValidationError::InvalidUrl(e) => {
                let mut m = String::from_str("Invalid URL: ");
                m.append(e.as_str());
                m
            },
            ValidationError::NotHttp(s) => {
                let mut m = String::from_str("VOICEVOX URL must use http scheme, got: ");
                m.append(s.as_str());
                m
            },
            ValidationError::NotLocalhost(h) => {
                let mut m = String::from_str("VOICEVOX URL must point to localhost, got: ");
                m.append(h.as_str());
                m
            },
            ValidationError::NoHost => String::from_str("VOICEVOX URL has no host"),
            ValidationError::ConfigTooLarge(n) => {
                let mut m = String::from_str("Config file too large: ");
                let digits = crate::text::decimal_chars_u64(*n);
                let d = crate::text::string_from_chars(digits.as_slice());
                m.append(d.as_str());
                m.append(" bytes (max 1048576 bytes)");
                m
            },
        }
    }
}

/// A host that names the local machine.
pub open spec fn is_local_host(h: Seq<char>) -> bool {
    h == "127.0.0.1"@ || h == "localhost"@ || h == "[::1]"@
}

/// Validate the VOICEVOX URL: it must parse, use `http`, and point to `127.0.0.1`,
/// `localhost` or `[::1]`.
pub fn is_valid_voicevox_url(url_str: &str) -> (r: Result<(), ValidationError>)
    ensures
        match url_parts(url_str@) {
            Err(e) => r matches Err(ValidationError::InvalidUrl(m)) && m@ == e,
            Ok((scheme, host)) => if scheme != "http"@ {
                r matches Err(ValidationError::NotHttp(s)) && s@ == scheme
            } else {
                match host {
                    None => r matches Err(ValidationError::NoHost),
                    Some(h) => if is_local_host(h) {
                        r is Ok
                    } else {
                        r matches Err(ValidationError::NotLocalhost(x)) && x@ == h
                    },
                }
            },
        },
{
    let (scheme, host) = match parse_url_parts(url_str) {
        Ok(p) => p,
        Err(e) => {
            return Err(ValidationError::InvalidUrl(e));
        },
    };
    if !crate::text::str_eq(scheme.as_str(), "http") {
        return Err(ValidationError::NotHttp(scheme));
    }
    match host {
        None => Err(ValidationError::NoHost),
        Some(h) => {
            if crate::text::str_eq(h.as_str(), "127.0.0.1") || crate::text::str_eq(
                h.as_str(),
                "localhost",
            ) || crate::text::str_eq(h.as_str(), "[::1]") {
                Ok(())
            } else {
                Err(ValidationError::NotLocalhost(h))
            }
        },
    }
}

/// Checks the size of the configuration file, `len` bytes, against the limit of
/// 1 MiB.
pub fn check_config_file_size(len: u64) -> (r: Result<(), ValidationError>)
    ensures
        len <= MAX_CONFIG_FILE_SIZE ==> r is Ok,
        len > MAX_CONFIG_FILE_SIZE ==> r == Err::<(), ValidationError>(
            ValidationError::ConfigTooLarge(len),
        ),
{
    if len > MAX_CONFIG_FILE_SIZE {
        Err(ValidationError::ConfigTooLarge(len))
    } else {
        Ok(())
    }
}

} // verus!
