//! The VOICEVOX engine: its endpoints and the text conversions made for its user
//! dictionary.
use vstd::prelude::*;
use crate::text::{char_from_u32, chars_of, decimal, string_from_chars, u32_to_string};
use crate::tts::voiceger::{trim_trailing_slashes, without_trailing_slashes};

verus! {

/// Hiragana (U+3041 to U+3096) to the katakana 0x60 code points further on; any other
/// character unchanged.
pub open spec fn katakana_of(c: char) -> char {
    if '\u{3041}' <= c && c <= '\u{3096}' {
        ((c as u32 + 0x60) as u32) as char
    } else {
        c
    }
}

/// Half-width ASCII to full width: the space to U+3000, `!` to `~` to U+FF01 to
/// U+FF5E; any other character unchanged.
pub open spec fn fullwidth_of(c: char) -> char {
    if c == ' ' {
        '\u{3000}'
    } else if '!' <= c && c <= '~' {
        ((c as u32 + 0xfee0) as u32) as char
    } else {
        c
    }
}

/// Convert a hiragana character to katakana. Other characters are passed through.
pub fn hiragana_to_katakana(c: char) -> (r: char)
    ensures
        r == katakana_of(c),
{
    if '\u{3041}' <= c && c <= '\u{3096}' {
        match char_from_u32(c as u32 + 0x60) {
            Some(k) => k,
            None => c,
        }
    } else {
        c
    }
}

/// Convert half-width ASCII to its full-width form, as VOICEVOX dictionary entries
/// are matched in full width. Other characters are passed through.
pub fn halfwidth_to_fullwidth(c: char) -> (r: char)
    ensures
        r == fullwidth_of(c),
{
    if c == ' ' {
        '\u{3000}'
    } else if '!' <= c && c <= '~' {
        match char_from_u32(c as u32 + 0xfee0) {
            Some(f) => f,
            None => c,
        }
    } else {
        c
    }
}

/// Converting a character to katakana twice gives what converting it once gives.
pub proof fn lemma_katakana_idempotent(c: char)
    ensures
        katakana_of(katakana_of(c)) == katakana_of(c),
{
}

/// Converting a character to full width twice gives what converting it once gives.
pub proof fn lemma_fullwidth_idempotent(c: char)
    ensures
        fullwidth_of(fullwidth_of(c)) == fullwidth_of(c),
{
}

/// Every character of `s` converted to full width.
pub fn to_fullwidth(s: &str) -> (r: String)
    ensures
        r@ == s@.map_values(|c: char| fullwidth_of(c)),
{
    let v = chars_of(s);
    let mut out: Vec<char> = Vec::new();
    let mut i: usize = 0;
    while i < v.len()
        invariant
            0 <= i <= v.len(),
            v@ == s@,
            out@ == v@.take(i as int).map_values(|c: char| fullwidth_of(c)),
        decreases v.len() - i,
    {
        out.push(halfwidth_to_fullwidth(v[i]));
        assert(v@.take(i + 1).map_values(|c: char| fullwidth_of(c)) =~= v@.take(i as int).map_values(
            |c: char| fullwidth_of(c),
        ).push(fullwidth_of(v@[i as int])));
        i = i + 1;
    }
    assert(v@.take(v.len() as int) =~= v@);
    string_from_chars(out.as_slice())
}

/// Every character of `s` converted to katakana.
pub fn to_katakana(s: &str) -> (r: String)
    ensures
        r@ == s@.map_values(|c: char| katakana_of(c)),
{
    let v = chars_of(s);
    let mut out: Vec<char> = Vec::new();
    let mut i: usize = 0;
    while i < v.len()
        invariant
            0 <= i <= v.len(),
            v@ == s@,
            out@ == v@.take(i as int).map_values(|c: char| katakana_of(c)),
        decreases v.len() - i,
    {
        out.push(hiragana_to_katakana(v[i]));
        assert(v@.take(i + 1).map_values(|c: char| katakana_of(c)) =~= v@.take(i as int).map_values(
            |c: char| katakana_of(c),
        ).push(katakana_of(v@[i as int])));
        i = i + 1;
    }
    assert(v@.take(v.len() as int) =~= v@);
    string_from_chars(out.as_slice())
}

/// The address of a VOICEVOX engine.
pub struct VoicevoxEngine {
    pub base_url: String,
}

impl VoicevoxEngine {
    /// An engine at `base_url`, trailing `/` removed.
    pub fn new(base_url: &str) -> (e: Self)
        ensures
            e.base_url@ == trim_trailing_slashes(base_url@),
    {
        VoicevoxEngine { base_url: without_trailing_slashes(base_url) }
    }

    /// `base_url` followed by `path`.
    pub fn endpoint(&self, path: &str) -> (r: String)
        ensures
            r@ == self.base_url@ + path@,
    {
        let mut r = self.base_url.clone();
        r.append(path);
        r
    }

    /// The URL that deletes dictionary word `word_uuid`.
    pub fn delete_word_url(&self, word_uuid: &str) -> (r: String)
        ensures
            r@ == self.base_url@ + "/user_dict_word/"@ + word_uuid@,
    {
        let mut r = self.endpoint("/user_dict_word/");
        r.append(word_uuid);
        r
    }

    /// The query that adds a dictionary word: the surface in full width, the
    /// pronunciation in katakana, and accent type 1.
    pub fn add_word_query(surface: &str, pronunciation: &str) -> (r: Vec<(String, String)>)
        ensures
            r@.len() == 3,
            r@[0].0@ == "surface"@,
            r@[0].1@ == surface@.map_values(|c: char| fullwidth_of(c)),
            r@[1].0@ == "pronunciation"@,
            r@[1].1@ == pronunciation@.map_values(|c: char| katakana_of(c)),
            r@[2].0@ == "accent_type"@,
            r@[2].1@ == "1"@,
    {
        let mut r: Vec<(String, String)> = Vec::new();
        r.push((String::from_str("surface"), to_fullwidth(surface)));
        r.push((String::from_str("pronunciation"), to_katakana(pronunciation)));
        r.push((String::from_str("accent_type"), String::from_str("1")));
        r
    }

    /// The query of the request that builds an audio query: the text in full width
    /// (so that dictionary entries match) and the speaker (style) id.
    pub fn audio_query_params(text: &str, speaker_id: u32) -> (r: Vec<(String, String)>)
        ensures
            r@.len() == 2,
            r@[0].0@ == "text"@,
            r@[0].1@ == text@.map_values(|c: char| fullwidth_of(c)),
            r@[1].0@ == "speaker"@,
            r@[1].1@ == decimal(speaker_id as nat),
    {
        let mut r: Vec<(String, String)> = Vec::new();
        r.push((String::from_str("text"), to_fullwidth(text)));
        r.push((String::from_str("speaker"), u32_to_string(speaker_id)));
        r
    }

    /// The query of the synthesis request: the speaker (style) id.
    pub fn synthesis_params(speaker_id: u32) -> (r: Vec<(String, String)>)
        ensures
            r@.len() == 1,
            r@[0].0@ == "speaker"@,
            r@[0].1@ == decimal(speaker_id as nat),
    {
        let mut r: Vec<(String, String)> = Vec::new();
        r.push((String::from_str("speaker"), u32_to_string(speaker_id)));
        r
    }

    /// The error for a refused dictionary request: the HTTP status as text and the
    /// response body.
    pub fn refusal_message(status: &str, body: &str) -> (r: String)
        ensures
            r@ == "VOICEVOX returned "@ + status@ + " : "@ + body@,
    {
        let mut r = String::from_str("VOICEVOX returned ");
        r.append(status);
        r.append(" : ");
        r.append(body);
        r
    }
}

} // verus!
