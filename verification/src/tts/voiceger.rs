//! The Voiceger (GPT-SoVITS) engine: languages, the reference-free decision and the
//! shape of synthesis requests.
use vstd::prelude::*;
use crate::text::{
    chars_of, concat_chars, is_whitespace, is_ws, lines, lines_of, string_from_chars, trim,
    trim_chars, views,
};
use crate::tts::types::{Speaker, Style};
use crate::launch::string_views;
use crate::text::{join, join_strings};
use crate::validation::opt_view;

verus! {

// ---------------------------------------------------------------------------
// Languages and emotions
// ---------------------------------------------------------------------------

/// Language code of a style id: 0 ja, 1 en, 2 zh, 3 ko, 4 yue; any other id is ja.
pub open spec fn lang_code(id: u32) -> Seq<char> {
    if id == 1 {
        "en"@
    } else if id == 2 {
        "zh"@
    } else if id == 3 {
        "ko"@
    } else if id == 4 {
        "yue"@
    } else {
        "ja"@
    }
}

/// Display name of the language with style id `id` (for ids 0 to 4).
pub open spec fn lang_name(id: u32) -> Seq<char> {
    if id == 0 {
        "日本語"@
    } else if id == 1 {
        "English"@
    } else if id == 2 {
        "中文"@
    } else if id == 3 {
        "한국어"@
    } else {
        "粤語"@
    }
}

/// The supported languages as (code, display name, style id), in style-id order.
pub fn voiceger_languages() -> (r: Vec<(&'static str, &'static str, u32)>)
    ensures
        r.len() == 5,
        forall|i: int|
            0 <= i < 5 ==> (#[trigger] r[i]).2 == i && r[i].0@ == lang_code(i as u32) && r[i].1@
                == lang_name(i as u32),
{
    let mut r: Vec<(&'static str, &'static str, u32)> = Vec::new();
    r.push(("ja", "日本語", 0));
    r.push(("en", "English", 1));
    r.push(("zh", "中文", 2));
    r.push(("ko", "한국어", 3));
    r.push(("yue", "粤語", 4));
    r
}

/// The `i`-th reference-audio emotion as (display name, file in the `reference/`
/// directory).
pub open spec fn emotion(i: int) -> (Seq<char>, Seq<char>) {
    if i == 0 {
        ("ノーマル"@, "01_ref_emoNormal026.wav"@)
    } else if i == 1 {
        ("甘え"@, "02_ref_emoAma026.wav"@)
    } else if i == 2 {
        ("ツン"@, "03_ref_emoTsun026.wav"@)
    } else if i == 3 {
        ("セクシー"@, "04_ref_emoSexy026.wav"@)
    } else if i == 4 {
        ("さっさ"@, "05_ref_emoSasa026.wav"@)
    } else if i == 5 {
        ("ぼそぼそ"@, "06_ref_emoMurmur026.wav"@)
    } else if i == 6 {
        ("ヒーロー"@, "07_ref_emoHero026.wav"@)
    } else {
        ("泣き"@, "08_ref_emoSobbing026.wav"@)
    }
}

/// The reference-audio emotions as (display name, file in the `reference/` directory).
pub fn voiceger_emotions() -> (r: Vec<(&'static str, &'static str)>)
    ensures
        r.len() == 8,
        forall|i: int| 0 <= i < 8 ==> (#[trigger] r[i]).0@ == emotion(i).0 && r[i].1@ == emotion(i).1,
{
    let mut r: Vec<(&'static str, &'static str)> = Vec::new();
    r.push(("ノーマル", "01_ref_emoNormal026.wav"));
    r.push(("甘え", "02_ref_emoAma026.wav"));
    r.push(("ツン", "03_ref_emoTsun026.wav"));
    r.push(("セクシー", "04_ref_emoSexy026.wav"));
    r.push(("さっさ", "05_ref_emoSasa026.wav"));
    r.push(("ぼそぼそ", "06_ref_emoMurmur026.wav"));
    r.push(("ヒーロー", "07_ref_emoHero026.wav"));
    r.push(("泣き", "08_ref_emoSobbing026.wav"));
    r
}

// ---------------------------------------------------------------------------
// Reference-free decision
// ---------------------------------------------------------------------------

/// An ASCII letter.
pub open spec fn is_ascii_alpha(c: char) -> bool {
    ('a' <= c && c <= 'z') || ('A' <= c && c <= 'Z')
}

/// Characters allowed in a short ASCII token: ASCII letters and digits, ASCII
/// whitespace, and `- _ . , ! ?`.
pub open spec fn is_short_token_char(c: char) -> bool {
    ||| is_ascii_alpha(c)
    ||| ('0' <= c && c <= '9')
    ||| c == ' ' || c == '\t' || c == '\n' || c == '\u{c}' || c == '\r'
    ||| c == '-' || c == '_' || c == '.' || c == ',' || c == '!' || c == '?'
}

/// Characters not counted in the length of a Japanese snippet: whitespace and
/// common punctuation.
pub open spec fn is_snippet_filler(c: char) -> bool {
    ||| is_ws(c)
    ||| c == '。' || c == '、' || c == '！' || c == '？' || c == '…' || c == 'ー' || c == '〜'
    ||| c == '～' || c == '・' || c == '「' || c == '」' || c == '『' || c == '』' || c == '（'
    ||| c == '）' || c == '(' || c == ')' || c == '.' || c == ',' || c == '!' || c == '?'
}

/// Kana and CJK ideographs.
pub open spec fn is_japanese_char(c: char) -> bool {
    ('\u{3040}' <= c && c <= '\u{30ff}') || ('\u{3400}' <= c && c <= '\u{9fff}')
}

/// Number of ASCII letters in `s`.
pub open spec fn ascii_alpha_count(s: Seq<char>) -> nat
    decreases s.len(),
{
    if s.len() == 0 {
        0
    } else {
        ascii_alpha_count(s.drop_last()) + if is_ascii_alpha(s.last()) {
            1nat
        } else {
            0nat
        }
    }
}

/// Number of characters of `s` that are not filler.
pub open spec fn core_len(s: Seq<char>) -> nat
    decreases s.len(),
{
    if s.len() == 0 {
        0
    } else {
        core_len(s.drop_last()) + if !is_snippet_filler(s.last()) {
            1nat
        } else {
            0nat
        }
    }
}

/// `s` has a non-filler Japanese character.
pub open spec fn has_japanese(s: Seq<char>) -> bool {
    exists|i: int| 0 <= i < s.len() && !is_snippet_filler(#[trigger] s[i]) && is_japanese_char(s[i])
}

/// Very short inputs are synthesized without reference audio: once trimmed, either
/// an ASCII token with one to three letters, or a Japanese snippet of one to eight
/// characters besides whitespace and punctuation.
pub open spec fn auto_ref_free(s: Seq<char>) -> bool {
    let t = trim(s);
    &&& t.len() > 0
    &&& {
        ||| (forall|i: int| 0 <= i < t.len() ==> is_short_token_char(#[trigger] t[i]))
            && 0 < ascii_alpha_count(t) <= 3
        ||| has_japanese(t) && 0 < core_len(t) <= 8
    }
}

/// A character of a short ASCII token, as the tokens are written: an ASCII letter
/// or digit (`char::is_ascii_alphanumeric`), ASCII whitespace
/// (`char::is_ascii_whitespace`), or one of `- _ . , ! ?`.
pub open spec fn plain_ascii_token_char(c: char) -> bool {
    ||| ('a' <= c && c <= 'z')
    ||| ('A' <= c && c <= 'Z')
    ||| ('0' <= c && c <= '9')
    ||| c == ' ' || c == '\t' || c == '\n' || c == '\u{c}' || c == '\r'
    ||| c == '-' || c == '_' || c == '.' || c == ',' || c == '!' || c == '?'
}

/// The letter-count rule is for plain ASCII tokens only: once a trimmed text holds a
/// character outside them (a kana, say), it goes reference-free only as a short
/// Japanese snippet, with a non-filler Japanese character and one to eight
/// non-filler characters, however few ASCII letters it has.
pub proof fn lemma_letter_rule_only_for_ascii_tokens(s: Seq<char>, i: int)
    requires
        0 <= i < trim(s).len(),
        !plain_ascii_token_char(trim(s)[i]),
        auto_ref_free(s),
    ensures
        has_japanese(trim(s)),
        0 < core_len(trim(s)) <= 8,
{
    let t = trim(s);
    if !(has_japanese(t) && 0 < core_len(t) <= 8) {
        assert(is_short_token_char(t[i]));
    }
}

/// A trimmed text made only of plain ASCII token characters goes reference-free
/// exactly when it has one to three ASCII letters.
pub proof fn lemma_ascii_token_rule(s: Seq<char>)
    requires
        forall|i: int| 0 <= i < trim(s).len() ==> plain_ascii_token_char(#[trigger] trim(s)[i]),
    ensures
        auto_ref_free(s) <==> (trim(s).len() > 0 && 0 < ascii_alpha_count(trim(s)) <= 3),
{
    let t = trim(s);
    assert forall|i: int| 0 <= i < t.len() implies is_short_token_char(#[trigger] t[i]) by {
        assert(plain_ascii_token_char(t[i]));
    }
    assert(!has_japanese(t)) by {
        if has_japanese(t) {
            let i = choose|i: int| 0 <= i < t.len() && !is_snippet_filler(#[trigger] t[i]) && is_japanese_char(t[i]);
            assert(plain_ascii_token_char(t[i]));
        }
    }
}

/// A trimmed text with a non-filler Japanese character and one to eight non-filler
/// characters goes reference-free, whatever else it holds.
pub proof fn lemma_short_japanese_snippet_ref_free(s: Seq<char>)
    requires
        has_japanese(trim(s)),
        0 < core_len(trim(s)) <= 8,
    ensures
        auto_ref_free(s),
{
}

/// Ends a clause: `。 ！ ？ ! ?` or a line feed.
pub open spec fn is_clause_end(c: char) -> bool {
    c == '。' || c == '！' || c == '？' || c == '!' || c == '?' || c == '\n'
}

/// Index of the first clause end in `s`, or `s.len()`.
pub open spec fn first_clause_end(s: Seq<char>) -> nat
    decreases s.len(),
{
    if s.len() == 0 {
        0
    } else if is_clause_end(s[0]) {
        0
    } else {
        1 + first_clause_end(s.drop_first())
    }
}

/// Some clause of `s` (a stretch up to and including a clause end, or the rest after
/// the last one) qualifies for reference-free synthesis.
pub open spec fn some_clause_ref_free(s: Seq<char>) -> bool
    decreases s.len(),
{
    if s.len() == 0 {
        false
    } else {
        let k = first_clause_end(s);
        if k >= s.len() {
            auto_ref_free(s)
        } else {
            auto_ref_free(s.take(k as int + 1)) || some_clause_ref_free(s.skip(k as int + 1))
        }
    }
}

/// The whole text, or one of its clauses, qualifies for reference-free synthesis.
pub open spec fn auto_ref_free_in_text(s: Seq<char>) -> bool {
    auto_ref_free(s) || some_clause_ref_free(s)
}

/// A text that qualifies for reference-free synthesis as a whole also qualifies when
/// its clauses are looked at.
pub proof fn lemma_whole_text_qualifies(s: Seq<char>)
    requires
        auto_ref_free(s),
    ensures
        auto_ref_free_in_text(s),
{
}

proof fn lemma_first_clause_end(s: Seq<char>, k: int)
    requires
        0 <= k <= s.len(),
        forall|j: int| 0 <= j < k ==> !is_clause_end(s[j]),
        k == s.len() || is_clause_end(s[k]),
    ensures
        first_clause_end(s) == k,
    decreases k,
{
    if k > 0 {
        lemma_first_clause_end(s.drop_first(), k - 1);
    }
}

fn is_short_token_char_exec(c: char) -> (b: bool)
    ensures
        b == is_short_token_char(c),
{
    ('a' <= c && c <= 'z') || ('A' <= c && c <= 'Z') || ('0' <= c && c <= '9') || c == ' ' || c
        == '\t' || c == '\n' || c == '\u{c}' || c == '\r' || c == '-' || c == '_' || c == '.' || c
        == ',' || c == '!' || c == '?'
}

fn is_snippet_filler_exec(c: char) -> (b: bool)
    ensures
        b == is_snippet_filler(c),
{
    is_whitespace(c) || c == '。' || c == '、' || c == '！' || c == '？' || c == '…' || c == 'ー'
        || c == '〜' || c == '～' || c == '・' || c == '「' || c == '」' || c == '『' || c == '』'
        || c == '（' || c == '）' || c == '(' || c == ')' || c == '.' || c == ',' || c == '!' || c
        == '?'
}

/// The reference-free test on a sequence of characters.
fn auto_ref_free_chars(s: &[char]) -> (b: bool)
    ensures
        b == auto_ref_free(s@),
{
    let t = trim_chars(s);
    if t.len() == 0 {
        return false;
    }
    let mut alpha: usize = 0;
    let mut short_only = true;
    let mut core: usize = 0;
    let mut japanese = false;
    let mut i: usize = 0;
    while i < t.len()
        invariant
            0 <= i <= t.len(),
            t@ == trim(s@),
            alpha == ascii_alpha_count(t@.take(i as int)),
            core == core_len(t@.take(i as int)),
            alpha <= i,
            core <= i,
            short_only == (forall|j: int| 0 <= j < i ==> is_short_token_char(#[trigger] t@[j])),
            japanese == (exists|j: int|
                0 <= j < i && !is_snippet_filler(#[trigger] t@[j]) && is_japanese_char(t@[j])),
        decreases t.len() - i,
    {
        let c = t[i];
        assert(t@.take(i + 1).drop_last() =~= t@.take(i as int));
        if ('a' <= c && c <= 'z') || ('A' <= c && c <= 'Z') {
            alpha = alpha + 1;
        }
        if !is_short_token_char_exec(c) {
            short_only = false;
        }
        if !is_snippet_filler_exec(c) {
            core = core + 1;
            if ('\u{3040}' <= c && c <= '\u{30ff}') || ('\u{3400}' <= c && c <= '\u{9fff}') {
                japanese = true;
            }
        }
        i = i + 1;
    }
    assert(t@.take(t.len() as int) =~= t@);
    (short_only && 0 < alpha && alpha <= 3) || (japanese && 0 < core && core <= 8)
}

/// Index of the first clause end in `v` at or after `from`, or `v.len()`.
fn find_clause_end(v: &[char], from: usize) -> (k: usize)
    requires
        from <= v.len(),
    ensures
        from <= k <= v.len(),
        forall|j: int| from <= j < k ==> !is_clause_end(v@[j]),
        k == v.len() || is_clause_end(v@[k as int]),
{
    let mut k = from;
    while k < v.len() && !(v[k] == '。' || v[k] == '！' || v[k] == '？' || v[k] == '!' || v[k] == '?'
        || v[k] == '\n')
        invariant
            from <= k <= v.len(),
            forall|j: int| from <= j < k ==> !is_clause_end(v@[j]),
        decreases v.len() - k,
    {
        k = k + 1;
    }
    k
}

/// The characters of `v` from `lo` up to `hi`.
fn slice_chars(v: &[char], lo: usize, hi: usize) -> (r: Vec<char>)
    requires
        lo <= hi <= v.len(),
    ensures
        r@ == v@.subrange(lo as int, hi as int),
{
    crate::text::sub_chars(v, lo, hi)
}

// ---------------------------------------------------------------------------
// The engine
// ---------------------------------------------------------------------------

/// `s` with every trailing `/` removed (`str::trim_end_matches('/')`).
pub open spec fn trim_trailing_slashes(s: Seq<char>) -> Seq<char>
    decreases s.len(),
{
    if s.len() > 0 && s.last() == '/' {
        trim_trailing_slashes(s.drop_last())
    } else {
        s
    }
}

/// `s` with every trailing `/` removed.
pub fn without_trailing_slashes(s: &str) -> (r: String)
    ensures
        r@ == trim_trailing_slashes(s@),
{
    let v = chars_of(s);
    let mut hi: usize = v.len();
    assert(v@.subrange(0, hi as int) =~= v@);
    while hi > 0 && v[hi - 1] == '/'
        invariant
            0 <= hi <= v.len(),
            v@ == s@,
            trim_trailing_slashes(s@) == trim_trailing_slashes(v@.subrange(0, hi as int)),
        decreases hi,
    {
        assert(v@.subrange(0, hi as int).drop_last() =~= v@.subrange(0, hi - 1));
        hi = hi - 1;
    }
    let w = slice_chars(v.as_slice(), 0, hi);
    string_from_chars(w.as_slice())
}

/// The settings that a Voiceger synthesis request is built from.
pub struct VoicegerEngine {
    pub base_url: String,
    pub ref_audio_path: String,
    pub prompt_text: String,
    pub prompt_lang: String,
    /// Fine-tuned model weights to load into the server, where they were found.
    pub gpt_weights_path: Option<String>,
    pub sovits_weights_path: Option<String>,
    /// Whether the weights have been sent to the running server.
    pub weights_loaded: bool,
}

/// What goes into a Voiceger `/tts` request besides the numeric parameters.
pub struct VoicegerRequest {
    pub url: String,
    pub text: String,
    pub text_lang: String,
    pub ref_audio_path: String,
    pub prompt_text: String,
    pub prompt_lang: String,
    pub ref_free: bool,
}

impl VoicegerEngine {
    /// An engine for the server at `base_url` (trailing `/` removed), with no model
    /// weights to load.
    pub fn new(base_url: &str, ref_audio_path: &str, prompt_text: &str, prompt_lang: &str) -> (e:
        Self)
        ensures
            e.base_url@ == trim_trailing_slashes(base_url@),
            e.ref_audio_path@ == ref_audio_path@,
            e.prompt_text@ == prompt_text@,
            e.prompt_lang@ == prompt_lang@,
            e.gpt_weights_path is None,
            e.sovits_weights_path is None,
            !e.weights_loaded,
    {
        VoicegerEngine {
            base_url: without_trailing_slashes(base_url),
            ref_audio_path: String::from_str(ref_audio_path),
            prompt_text: String::from_str(prompt_text),
            prompt_lang: String::from_str(prompt_lang),
            gpt_weights_path: None,
            sovits_weights_path: None,
            weights_loaded: false,
        }
    }

    /// The same engine, set to load the given model weights into the server.
    pub fn with_weights(self, gpt: Option<String>, sovits: Option<String>) -> (e: Self)
        ensures
            e.base_url == self.base_url,
            e.ref_audio_path == self.ref_audio_path,
            e.prompt_text == self.prompt_text,
            e.prompt_lang == self.prompt_lang,
            e.gpt_weights_path == gpt,
            e.sovits_weights_path == sovits,
            e.weights_loaded == self.weights_loaded,
    {
        VoicegerEngine { gpt_weights_path: gpt, sovits_weights_path: sovits, ..self }
    }

    /// The language code for a speaker id (style id): 0 ja, 1 en, 2 zh, 3 ko, 4 yue,
    /// anything else ja.
    pub fn lang_for_speaker_id(speaker_id: u32) -> (r: &'static str)
        ensures
            r@ == lang_code(speaker_id),
    {
        if speaker_id == 1 {
            "en"
        } else if speaker_id == 2 {
            "zh"
        } else if speaker_id == 3 {
            "ko"
        } else if speaker_id == 4 {
            "yue"
        } else {
            "ja"
        }
    }

    /// The one speaker this engine offers, with one style per language.
    pub fn list_speakers(&self) -> (r: Vec<Speaker>)
        ensures
            r.len() == 1,
            r[0].name@ == "ずんだもん (Voiceger)"@,
            r[0].speaker_uuid@ == "voiceger-zundamon"@,
            r[0].styles.len() == 5,
            forall|i: int|
                0 <= i < 5 ==> (#[trigger] r[0].styles[i]).id == i && r[0].styles[i].name@
                    == lang_name(i as u32),
    {
        let langs = voiceger_languages();
        let mut styles: Vec<Style> = Vec::new();
        let mut i: usize = 0;
        while i < langs.len()
            invariant
                0 <= i <= langs.len(),
                langs.len() == 5,
                forall|j: int|
                    0 <= j < 5 ==> (#[trigger] langs[j]).2 == j && langs[j].1@ == lang_name(
                        j as u32,
                    ),
                styles.len() == i,
                forall|j: int|
                    0 <= j < i ==> (#[trigger] styles[j]).id == j && styles[j].name@ == lang_name(
                        j as u32,
                    ),
            decreases langs.len() - i,
        {
            let (_, name, id) = langs[i];
            styles.push(Style { name: String::from_str(name), id });
            i = i + 1;
        }
        let mut r: Vec<Speaker> = Vec::new();
        r.push(
            Speaker {
                name: String::from_str("ずんだもん (Voiceger)"),
                speaker_uuid: String::from_str("voiceger-zundamon"),
                styles,
            },
        );
        r
    }

    /// Whether `text`, once trimmed, is so short that reference-free synthesis is used:
    /// an ASCII token with one to three letters, or a Japanese snippet of one to eight
    /// characters besides whitespace and punctuation.
    pub fn should_auto_ref_free(text: &str) -> (b: bool)
        ensures
            b == auto_ref_free(text@),
    {
        let v = chars_of(text);
        auto_ref_free_chars(v.as_slice())
    }

    /// Whether the whole text, or any of its clauses, qualifies for reference-free
    /// synthesis; a clause runs up to and including `。 ！ ？ ! ?` or a line feed.
    pub fn should_auto_ref_free_in_text(text: &str) -> (b: bool)
        ensures
            b == auto_ref_free_in_text(text@),
    {
        let v = chars_of(text);
        if auto_ref_free_chars(v.as_slice()) {
            return true;
        }
        let mut start: usize = 0;
        assert(v@.skip(0) =~= v@);
        while start < v.len()
            invariant
                0 <= start <= v.len(),
                v@ == text@,
                !auto_ref_free(v@),
                some_clause_ref_free(v@) == some_clause_ref_free(v@.skip(start as int)),
            decreases v.len() - start,
        {
            let k = find_clause_end(v.as_slice(), start);
            let ghost s = v@.skip(start as int);
            proof {
                lemma_first_clause_end(s, (k - start) as int);
            }
            if k == v.len() {
                let rest = slice_chars(v.as_slice(), start, k);
                assert(rest@ =~= s);
                return auto_ref_free_chars(rest.as_slice());
            }
            let clause = slice_chars(v.as_slice(), start, k + 1);
            proof {
                assert(clause@ =~= s.take((k - start) + 1));
                assert(s.skip((k - start) + 1) =~= v@.skip(k + 1));
            }
            if auto_ref_free_chars(clause.as_slice()) {
                return true;
            }
            start = k + 1;
        }
        assert(v@.skip(start as int) =~= Seq::<char>::empty());
        false
    }

    /// The request for synthesizing `text` with the style `speaker_id`.
    ///
    /// The reference audio is `aux_ref_audio` where given, else the engine's. Synthesis
    /// is reference-free when that reference is blank, when `force_ref_free` is set, or
    /// when the text qualifies on its own (see `should_auto_ref_free_in_text`);
    /// reference-free requests carry an empty prompt text. A blank reference is
    /// replaced by the engine's configured path.
    pub fn synthesis_request(
        &self,
        text: &str,
        speaker_id: u32,
        aux_ref_audio: Option<&str>,
        force_ref_free: bool,
    ) -> (r: VoicegerRequest)
        ensures
            r.url@ == self.base_url@ + "/tts"@,
            r.text@ == text@,
            r.text_lang@ == lang_code(speaker_id),
            ({
                let chosen = match aux_ref_audio {
                    Some(a) => a@,
                    None => self.ref_audio_path@,
                };
                let available = trim(chosen).len() > 0;
                &&& r.ref_free == (!available || force_ref_free || auto_ref_free_in_text(text@))
                &&& r.ref_audio_path@ == (if available {
                    chosen
                } else {
                    self.ref_audio_path@
                })
            }),
            r.prompt_text@ == (if r.ref_free {
                Seq::<char>::empty()
            } else {
                self.prompt_text@
            }),
            r.prompt_lang@ == self.prompt_lang@,
    {
        let chosen: &str = match aux_ref_audio {
            Some(a) => a,
            None => self.ref_audio_path.as_str(),
        };
        let cv = chars_of(chosen);
        let available = trim_chars(cv.as_slice()).len() > 0;
        let ref_free = !available || force_ref_free || Self::should_auto_ref_free_in_text(text);
        let mut url = self.base_url.clone();
        url.append("/tts");
        let ref_audio_path = if available {
            String::from_str(chosen)
        } else {
            self.ref_audio_path.clone()
        };
        let prompt_text = if ref_free {
            String::new()
        } else {
            self.prompt_text.clone()
        };
        VoicegerRequest {
            url,
            text: String::from_str(text),
            text_lang: String::from_str(Self::lang_for_speaker_id(speaker_id)),
            ref_audio_path,
            prompt_text,
            prompt_lang: self.prompt_lang.clone(),
            ref_free,
        }
    }

    /// The URL probed by the health check.
    pub fn health_url(&self) -> (r: String)
        ensures
            r@ == self.base_url@ + "/"@,
    {
        let mut url = self.base_url.clone();
        url.append("/");
        url
    }

    /// After a successful health check: whether the model weights are to be sent now.
    /// They are sent once per engine.
    pub fn begin_weight_load(&mut self) -> (send: bool)
        ensures
            send == !old(self).weights_loaded,
            final(self).weights_loaded,
            final(self).base_url == old(self).base_url,
            final(self).gpt_weights_path == old(self).gpt_weights_path,
            final(self).sovits_weights_path == old(self).sovits_weights_path,
    {
        let send = !self.weights_loaded;
        self.weights_loaded = true;
        send
    }

    /// The weight-loading calls: (endpoint URL, weights path) for the GPT weights and
    /// then the SoVITS weights, each where a path is set.
    pub fn weight_requests(&self) -> (r: Vec<(String, String)>)
        ensures
            r@.len() == (if self.gpt_weights_path is Some { 1int } else { 0 }) + (
            if self.sovits_weights_path is Some {
                1int
            } else {
                0
            }),
            self.gpt_weights_path matches Some(g) ==> r[0].0@ == self.base_url@
                + "/set_gpt_weights"@ && r[0].1@ == g@,
            self.sovits_weights_path matches Some(s) ==> r[r@.len() - 1].0@ == self.base_url@
                + "/set_sovits_weights"@ && r[r@.len() - 1].1@ == s@,
    {
        let mut r: Vec<(String, String)> = Vec::new();
        match &self.gpt_weights_path {
            Some(g) => {
                let mut url = self.base_url.clone();
                url.append("/set_gpt_weights");
                r.push((url, g.clone()));
            },
            None => {},
        }
        match &self.sovits_weights_path {
            Some(s) => {
                let mut url = self.base_url.clone();
                url.append("/set_sovits_weights");
                r.push((url, s.clone()));
            },
            None => {},
        }
        r
    }
}

// ---------------------------------------------------------------------------
// Error replies
// ---------------------------------------------------------------------------

/// Index (plus one) of the last line of `ls` that is not blank, or 0 when all are.
pub open spec fn last_nonblank(ls: Seq<Seq<char>>) -> nat
    decreases ls.len(),
{
    if ls.len() == 0 {
        0
    } else if trim(ls.last()).len() > 0 {
        ls.len()
    } else {
        last_nonblank(ls.drop_last())
    }
}

/// The most informative line of a traceback: its last non-blank line, trimmed, or the
/// whole traceback trimmed when every line is blank.
pub open spec fn traceback_tail(exc: Seq<char>) -> Seq<char> {
    let ls = lines(exc);
    let k = last_nonblank(ls);
    if k == 0 {
        trim(exc)
    } else {
        trim(ls[k - 1])
    }
}

/// The view of an optional string slice.
pub open spec fn str_view(o: Option<&str>) -> Option<Seq<char>> {
    match o {
        Some(s) => Some(s@),
        None => None,
    }
}

/// The detail of an error reply with fields `message` and `exception`: the message
/// (or `unknown error` when it is absent), followed by `: ` and the last non-blank
/// traceback line when there is a traceback.
pub open spec fn detail_text(message: Option<Seq<char>>, exception: Option<Seq<char>>) -> Seq<
    char,
> {
    let msg = match message {
        Some(m) => m,
        None => "unknown error"@,
    };
    match exception {
        Some(e) => msg + ": "@ + traceback_tail(e),
        None => msg,
    }
}

/// The detail of a JSON error reply with fields `message` and `Exception`: the
/// message (or `unknown error` when it is absent), followed by `: ` and the last
/// non-blank traceback line when there is a traceback.
pub fn error_detail(message: Option<&str>, exception: Option<&str>) -> (r: String)
    ensures
        r@ == detail_text(str_view(message), str_view(exception)),
{
    let msg: &str = match message {
        Some(m) => m,
        None => "unknown error",
    };
    match exception {
        None => String::from_str(msg),
        Some(exc) => {
            let ev = chars_of(exc);
            let ls = lines_of(ev.as_slice());
            let ghost lv = views(ls@);
            let mut k: usize = ls.len();
            assert(lv.take(k as int) =~= lv);
            while k > 0 && trim_chars(ls[k - 1].as_slice()).len() == 0
                invariant
                    0 <= k <= ls.len(),
                    lv == views(ls@),
                    lv == lines(exc@),
                    last_nonblank(lv) == last_nonblank(lv.take(k as int)),
                decreases k,
            {
                assert(lv.take(k as int).drop_last() =~= lv.take(k - 1));
                k = k - 1;
            }
            let tail = if k == 0 {
                trim_chars(ev.as_slice())
            } else {
                trim_chars(ls[k - 1].as_slice())
            };
            let mut r = String::from_str(msg);
            r.append(": ");
            let t = string_from_chars(tail.as_slice());
            r.append(t.as_str());
            r
        },
    }
}

/// Arguments of the `ffmpeg` run that applies the audio filters `filters` (joined
/// with commas) to the WAV file `input`, writing `output`.
pub fn adjust_args(input: &str, filters: &Vec<String>, output: &str) -> (r: Vec<String>)
    ensures
        string_views(r@) == seq![
            "-y"@,
            "-i"@,
            input@,
            "-af"@,
            join(string_views(filters@), ","@),
            "-loglevel"@,
            "error"@,
            output@,
        ],
{
    let mut r: Vec<String> = Vec::new();
    r.push(String::from_str("-y"));
    r.push(String::from_str("-i"));
    r.push(String::from_str(input));
    r.push(String::from_str("-af"));
    r.push(join_strings(filters, ","));
    r.push(String::from_str("-loglevel"));
    r.push(String::from_str("error"));
    r.push(String::from_str(output));
    proof {
        assert(string_views(filters@) =~= filters@.map_values(|w: String| w@));
        assert(string_views(r@) =~= seq![
            "-y"@,
            "-i"@,
            input@,
            "-af"@,
            join(string_views(filters@), ","@),
            "-loglevel"@,
            "error"@,
            output@,
        ]);
    }
    r
}

/// The `message` and `Exception` string fields of the JSON value that
/// `serde_json::from_str` reads from `body` (each `None` where absent or not a
/// string), or `None` where `body` is not JSON.
pub uninterp spec fn json_error_fields(body: Seq<char>) -> Option<(Option<Seq<char>>, Option<Seq<char>>)>;

/// Calls `serde_json::from_str::<serde_json::Value>` on a reply body and reads its
/// `message` and `Exception` fields with `Value::get` and `Value::as_str`. The result
/// is named `json_error_fields`; nothing more is claimed of it.
#[verifier::external_body]
fn parse_error_reply(body: &str) -> (r: Option<(Option<String>, Option<String>)>)
    ensures
        r is Some <==> json_error_fields(body@) is Some,
        r matches Some(p) ==> (json_error_fields(body@) matches Some(q) && q.0 == opt_view(p.0)
            && q.1 == opt_view(p.1)),
{
    match serde_json::from_str::<serde_json::Value>(body) {
        Ok(v) => Some((
            v.get("message").and_then(serde_json::Value::as_str).map(str::to_string),
            v.get("Exception").and_then(serde_json::Value::as_str).map(str::to_string),
        )),
        Err(_) => None,
    }
}

/// The detail of a refused synthesis with reply body `body`, given its fields
/// `fields` as read from JSON: worded by `detail_text`, or, where the body is not
/// JSON, the body as it is.
pub open spec fn reply_detail(body: Seq<char>, fields: Option<(Option<Seq<char>>, Option<Seq<char>>)>) -> Seq<char> {
    match fields {
        Some((m, e)) => detail_text(m, e),
        None => body,
    }
}

/// The views of the fields of a parsed error reply.
pub open spec fn fields_view(p: Option<(Option<String>, Option<String>)>) -> Option<(Option<Seq<char>>, Option<Seq<char>>)> {
    match p {
        Some((m, e)) => Some((opt_view(m), opt_view(e))),
        None => None,
    }
}

/// The detail of a refused synthesis from its reply body `body` and the fields
/// `parsed` that reading the body as JSON gave (`None` where it is not JSON).
pub fn voiceger_error_message(body: &str, parsed: Option<(Option<String>, Option<String>)>) -> (r: String)
    ensures
        r@ == reply_detail(body@, fields_view(parsed)),
{
    match parsed {
        Some((m, e)) => {
            let mr: Option<&str> = match &m {
                Some(x) => Some(x.as_str()),
                None => None,
            };
            let er: Option<&str> = match &e {
                Some(x) => Some(x.as_str()),
                None => None,
            };
            error_detail(mr, er)
        },
        None => String::from_str(body),
    }
}

/// The detail of a refused synthesis from its reply body: the body is read as JSON
/// and worded by `voiceger_error_message`.
pub fn error_reply_detail(body: &str) -> (r: String)
    ensures
        r@ == reply_detail(body@, json_error_fields(body@)),
{
    let parsed = parse_error_reply(body);
    proof {
        assert(fields_view(parsed) == json_error_fields(body@));
    }
    voiceger_error_message(body, parsed)
}

} // verus!
