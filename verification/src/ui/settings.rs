//! The settings screen: what its inputs add to the configuration.
use vstd::prelude::*;
use crate::text::{chars_of, parse_u32, parse_u32_chars, str_eq, string_from_chars, trim, trim_chars};
use crate::launch::string_views;
use crate::ui::theme::{to_hex, to_hex_spec};

verus! {

/// The pronunciation that marks a dictionary entry as a silent word.
pub const SILENT_MARK: &'static str = "{silent}";

/// What adding a dictionary entry does.
pub enum DictionaryInput {
    /// A field is blank: nothing.
    Ignore,
    /// The word becomes a silent word (it is removed before synthesis).
    AddSilent(String),
    /// The word is a silent word already: nothing changes.
    AlreadySilent,
    /// The word and its reading go to the engine's user dictionary.
    AddWord { surface: String, pronunciation: String },
}

/// What adding the dictionary entry `surface` read as `pronunciation` does, both
/// trimmed: blank fields are ignored; the reading `{silent}` makes the word a silent
/// word unless it is one already; any other reading is sent to the engine.
pub fn classify_dictionary_input(
    surface: &str,
    pronunciation: &str,
    silent_words: &Vec<String>,
) -> (r: DictionaryInput)
    ensures
        trim(surface@).len() == 0 || trim(pronunciation@).len() == 0 ==> r is Ignore,
        trim(surface@).len() > 0 && trim(pronunciation@).len() > 0 ==> {
            if trim(pronunciation@) == SILENT_MARK@ {
                if string_views(silent_words@).contains(trim(surface@)) {
                    r is AlreadySilent
                } else {
                    r matches DictionaryInput::AddSilent(w) && w@ == trim(surface@)
                }
            } else {
                r matches DictionaryInput::AddWord { surface: s, pronunciation: p } && s@ == trim(
                    surface@,
                ) && p@ == trim(pronunciation@)
            }
        },
{
    let sv = chars_of(surface);
    let st = trim_chars(sv.as_slice());
    let pv = chars_of(pronunciation);
    let pt = trim_chars(pv.as_slice());
    if st.len() == 0 || pt.len() == 0 {
        return DictionaryInput::Ignore;
    }
    let s = string_from_chars(st.as_slice());
    let p = string_from_chars(pt.as_slice());
    if !str_eq(p.as_str(), SILENT_MARK) {
        return DictionaryInput::AddWord { surface: s, pronunciation: p };
    }
    let ghost ws = string_views(silent_words@);
    let mut i: usize = 0;
    while i < silent_words.len()
        invariant
            0 <= i <= silent_words.len(),
            ws == string_views(silent_words@),
            s@ == trim(surface@),
            p@ == trim(pronunciation@),
            s@.len() > 0,
            p@.len() > 0,
            p@ == SILENT_MARK@,
            forall|j: int| 0 <= j < i ==> ws[j] != s@,
        decreases silent_words.len() - i,
    {
        if str_eq(silent_words[i].as_str(), s.as_str()) {
            assert(ws[i as int] == s@);
            return DictionaryInput::AlreadySilent;
        }
        i = i + 1;
    }
    DictionaryInput::AddSilent(s)
}

/// The template added from the input field: the trimmed text, unless blank.
pub fn new_template(text: &str) -> (r: Option<String>)
    ensures
        trim(text@).len() == 0 ==> r is None,
        trim(text@).len() > 0 ==> (r matches Some(t) && t@ == trim(text@)),
{
    let v = chars_of(text);
    let t = trim_chars(v.as_slice());
    if t.len() == 0 {
        None
    } else {
        Some(string_from_chars(t.as_slice()))
    }
}

/// The port typed into the OSC port field (`u16::from_str`), where it is one.
pub fn parse_port(s: &str) -> (r: Option<u16>)
    ensures
        r == (match parse_u32(s@) {
            Some(v) if v <= 65535 => Some(v as u16),
            _ => None::<u16>,
        }),
{
    let v = chars_of(s);
    match parse_u32_chars(v.as_slice()) {
        Some(n) => {
            if n <= 65535 {
                Some(n as u16)
            } else {
                None
            }
        },
        None => None,
    }
}

/// A colour as `#RRGGBB`, the form the colour editor shows.
pub fn rgb_hex(rgba: [u8; 4]) -> (s: String)
    ensures
        s@ == to_hex_spec(rgba@).take(7),
{
    let full = to_hex(rgba);
    let v = chars_of(full.as_str());
    let w = crate::text::sub_chars(v.as_slice(), 0, 7);
    string_from_chars(w.as_slice())
}

/// The colour `current` with the red, green and blue of `parsed` and its own
/// opacity.
pub fn with_rgb(current: [u8; 4], parsed: [u8; 4]) -> (r: [u8; 4])
    ensures
        r@ == seq![parsed@[0], parsed@[1], parsed@[2], current@[3]],
{
    let r = [parsed[0], parsed[1], parsed[2], current[3]];
    assert(r@ =~= seq![parsed@[0], parsed@[1], parsed@[2], current@[3]]);
    r
}

/// Whether the colour is white, whose opacity cannot be changed (its alpha is
/// premultiplied).
pub fn is_white(rgba: [u8; 4]) -> (b: bool)
    ensures
        b == (rgba@[0] == 255 && rgba@[1] == 255 && rgba@[2] == 255),
{
    rgba[0] == 255 && rgba[1] == 255 && rgba[2] == 255
}

} // verus!
