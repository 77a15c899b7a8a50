//! The text input screen: how phrase templates are shown on their chips, and when
//! a key press sends the typed text.
use vstd::prelude::*;
use crate::text::{chars_of, concat_chars, string_from_chars, sub_chars, trim, trim_chars};

verus! {

/// Most characters of a template shown on its chip.
pub const TEMPLATE_MAX_DISPLAY_LEN: usize = 12;

/// `s` where it has at most `n` characters, else its first `n` characters followed
/// by `...`.
pub open spec fn ellipsized(s: Seq<char>, n: nat) -> Seq<char> {
    if s.len() <= n {
        s
    } else {
        s.take(n as int) + "..."@
    }
}

/// `text` shortened for display to at most `max_len` characters and an ellipsis.
pub fn truncate_text(text: &str, max_len: usize) -> (r: String)
    ensures
        r@ == ellipsized(text@, max_len as nat),
{
    let v = chars_of(text);
    if v.len() <= max_len {
        string_from_chars(v.as_slice())
    } else {
        let head = sub_chars(v.as_slice(), 0, max_len);
        let dots = chars_of("...");
        let w = concat_chars(head.as_slice(), dots.as_slice());
        proof {
            assert(head@ =~= text@.take(max_len as int));
        }
        string_from_chars(w.as_slice())
    }
}

/// Whether a frame's key state sends the input text: Enter without Shift, in the
/// focused field, while no input method is composing.
pub open spec fn sends(focused: bool, ime_active: bool, enter: bool, shift: bool) -> bool {
    focused && !ime_active && enter && !shift
}

/// The text a frame of the input field sends: the trimmed text, when the key state
/// sends and the trimmed text is not empty. Shift+Enter inserts a line break instead.
pub fn text_to_send(focused: bool, ime_active: bool, enter: bool, shift: bool, text: &str) -> (r:
    Option<String>)
    ensures
        r is Some <==> (sends(focused, ime_active, enter, shift) && trim(text@).len() > 0),
        r matches Some(t) ==> t@ == trim(text@),
{
    if !(focused && !ime_active && enter && !shift) {
        return None;
    }
    let v = chars_of(text);
    let t = trim_chars(v.as_slice());
    if t.len() == 0 {
        None
    } else {
        Some(string_from_chars(t.as_slice()))
    }
}

} // verus!
