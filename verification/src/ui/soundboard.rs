//! The soundboard screen: how sound files are named on their buttons.
use vstd::prelude::*;
use crate::text::{chars_of, ends_with, str_ends_with, string_from_chars, sub_chars};
use crate::ui::input::{ellipsized, truncate_text};

verus! {

/// Most characters of a sound's name shown on its button.
pub const BUTTON_MAX_DISPLAY_LEN: usize = 14;

/// `name` without a trailing `.wav`, `.mp3`, `.ogg` or `.flac`.
pub open spec fn stem_of(name: Seq<char>) -> Seq<char> {
    if ends_with(name, ".wav"@) {
        name.take(name.len() - 4)
    } else if ends_with(name, ".mp3"@) {
        name.take(name.len() - 4)
    } else if ends_with(name, ".ogg"@) {
        name.take(name.len() - 4)
    } else if ends_with(name, ".flac"@) {
        name.take(name.len() - 5)
    } else {
        name
    }
}

/// The name of a sound file without its audio extension.
pub fn sound_stem(name: &str) -> (r: String)
    ensures
        r@ == stem_of(name@),
{
    let v = chars_of(name);
    proof {
        reveal_strlit(".wav");
        reveal_strlit(".mp3");
        reveal_strlit(".ogg");
        reveal_strlit(".flac");
    }
    let cut: usize = if str_ends_with(name, ".wav") || str_ends_with(name, ".mp3")
        || str_ends_with(name, ".ogg") {
        4
    } else if str_ends_with(name, ".flac") {
        5
    } else {
        0
    };
    let w = sub_chars(v.as_slice(), 0, v.len() - cut);
    proof {
        if cut == 0 {
            assert(w@ =~= name@);
        }
    }
    string_from_chars(w.as_slice())
}

/// The name shown on a sound's button: the file name without its audio extension,
/// shortened to at most `max_len` characters and an ellipsis.
pub fn truncate_name(name: &str, max_len: usize) -> (r: String)
    ensures
        r@ == ellipsized(stem_of(name@), max_len as nat),
{
    let stem = sound_stem(name);
    truncate_text(stem.as_str(), max_len)
}

} // verus!
