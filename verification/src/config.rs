//! The engine choice, speaker presets, phrase templates and the checks applied to a
//! configuration after it is read.
use vstd::prelude::*;
use crate::launch::{shell_split, split_words, string_views};
use crate::text::{
    chars_of, ends_with, first_chars, str_ends_with, string_from_chars, sub_chars, take_chars, trim,
    trim_chars,
};
use crate::validation::{
    is_local_host, is_valid_voicevox_url, url_parts, DEFAULT_VOICEVOX_URL,
};

verus! {

// ---------------------------------------------------------------------------
// Engine and defaults
// ---------------------------------------------------------------------------

/// The speech engine that a preset (or the application) uses.
#[derive(Debug, Clone, Copy, PartialEq, Eq, Structural)]
pub enum TtsEngineType {
    Voicevox,
    Voiceger,
}

impl Default for TtsEngineType {
    fn default() -> (r: Self)
        ensures
            r == TtsEngineType::Voicevox,
    {
        TtsEngineType::Voicevox
    }
}

/// Default address of the Voiceger (GPT-SoVITS) API server.
pub fn default_voiceger_url() -> (s: String)
    ensures
        s@ == "http://127.0.0.1:9880"@,
{
    String::from_str("http://127.0.0.1:9880")
}

/// Language of the reference audio's transcript when nothing else is configured.
pub const DEFAULT_VOICEGER_PROMPT_LANG: &'static str = "ja";

/// Default language of the reference audio's transcript.
pub fn default_voiceger_prompt_lang() -> (s: String)
    ensures
        s@ == DEFAULT_VOICEGER_PROMPT_LANG@,
{
    String::from_str(DEFAULT_VOICEGER_PROMPT_LANG)
}

/// Transcript of the bundled `_026` reference recordings (JSUT utterance 026).
pub const DEFAULT_VOICEGER_PROMPT_TEXT: &'static str = "私はいつもミネラルウォーターを持ち歩いています";

/// The prompt text read from the reference folder's `ref_text.txt`, trimmed, where
/// the file could be read and holds more than whitespace; else the default
/// transcript.
pub fn prompt_text_or_default(file_text: Option<&str>) -> (r: String)
    ensures
        r@ == (match file_text {
            Some(t) if trim(t@).len() > 0 => trim(t@),
            _ => DEFAULT_VOICEGER_PROMPT_TEXT@,
        }),
{
    if let Some(t) = file_text {
        let v = chars_of(t);
        let w = trim_chars(v.as_slice());
        if w.len() > 0 {
            return string_from_chars(w.as_slice());
        }
    }
    String::from_str(DEFAULT_VOICEGER_PROMPT_TEXT)
}

/// The phrase templates of a fresh configuration.
pub fn default_templates() -> (r: Vec<String>)
    ensures
        r.len() == 4,
        r[0]@ == "こんにちは！"@,
        r[1]@ == "ありがとう！"@,
        r[2]@ == "おつかれさまなのだ！"@,
        r[3]@ == "了解なのだ！"@,
{
    let mut r: Vec<String> = Vec::new();
    r.push(String::from_str("こんにちは！"));
    r.push(String::from_str("ありがとう！"));
    r.push(String::from_str("おつかれさまなのだ！"));
    r.push(String::from_str("了解なのだ！"));
    r
}

// ---------------------------------------------------------------------------
// Speaker presets
// ---------------------------------------------------------------------------

/// A named speaker selection. `P` holds the synthesis parameters, which the
/// library carries but does not read.
pub struct SpeakerPreset<P> {
    pub name: String,
    pub speaker_id: u32,
    pub synth_params: P,
    pub engine: TtsEngineType,
    /// Voiceger emotion name; empty for the normal voice.
    pub voiceger_emotion: String,
    /// Voiceger only: a reference recording that takes precedence over the emotion.
    pub voiceger_ref_audio_override: String,
}

/// Name of the `i`-th built-in preset.
pub open spec fn default_preset_name(i: int) -> Seq<char> {
    if i == 0 {
        "デフォルト：ずんだもん"@
    } else if i == 1 {
        "デフォルト：めたん"@
    } else if i == 2 {
        "デフォルト：つむぎ"@
    } else if i == 3 {
        "Voiceger：日本語"@
    } else if i == 4 {
        "Voiceger：English"@
    } else if i == 5 {
        "Voiceger：中文"@
    } else if i == 6 {
        "Voiceger：한국어"@
    } else {
        "Voiceger：粤語"@
    }
}

/// Speaker (style) id of the `i`-th built-in preset.
pub open spec fn default_preset_speaker(i: int) -> u32 {
    if i == 0 {
        3
    } else if i == 1 {
        2
    } else if i == 2 {
        8
    } else {
        (i - 3) as u32
    }
}

/// Engine of the `i`-th built-in preset: the first three are VOICEVOX voices, the
/// other five the Voiceger languages.
pub open spec fn default_preset_engine(i: int) -> TtsEngineType {
    if i < 3 {
        TtsEngineType::Voicevox
    } else {
        TtsEngineType::Voiceger
    }
}

/// `p` is the `i`-th built-in preset with parameters `params`.
pub open spec fn is_default_preset<P>(p: SpeakerPreset<P>, i: int, params: P) -> bool {
    &&& p.name@ == default_preset_name(i)
    &&& p.speaker_id == default_preset_speaker(i)
    &&& p.synth_params == params
    &&& p.engine == default_preset_engine(i)
    &&& p.voiceger_emotion@.len() == 0
    &&& p.voiceger_ref_audio_override@.len() == 0
}

fn preset<P: Copy>(name: &str, speaker_id: u32, params: P, engine: TtsEngineType) -> (p:
    SpeakerPreset<P>)
    ensures
        p.name@ == name@,
        p.speaker_id == speaker_id,
        p.synth_params == params,
        p.engine == engine,
        p.voiceger_emotion@.len() == 0,
        p.voiceger_ref_audio_override@.len() == 0,
{
    SpeakerPreset {
        name: String::from_str(name),
        speaker_id,
        synth_params: params,
        engine,
        voiceger_emotion: String::new(),
        voiceger_ref_audio_override: String::new(),
    }
}

/// The eight built-in presets, each with the parameters `params`: three VOICEVOX
/// voices (ずんだもん 3, めたん 2, つむぎ 8), then one Voiceger preset per language
/// (styles 0 to 4).
pub fn default_presets<P: Copy>(params: P) -> (r: Vec<SpeakerPreset<P>>)
    ensures
        r.len() == 8,
        forall|i: int| 0 <= i < 8 ==> is_default_preset(#[trigger] r[i], i, params),
{
    let mut r: Vec<SpeakerPreset<P>> = Vec::new();
    r.push(preset("デフォルト：ずんだもん", 3, params, TtsEngineType::Voicevox));
    r.push(preset("デフォルト：めたん", 2, params, TtsEngineType::Voicevox));
    r.push(preset("デフォルト：つむぎ", 8, params, TtsEngineType::Voicevox));
    r.push(preset("Voiceger：日本語", 0, params, TtsEngineType::Voiceger));
    r.push(preset("Voiceger：English", 1, params, TtsEngineType::Voiceger));
    r.push(preset("Voiceger：中文", 2, params, TtsEngineType::Voiceger));
    r.push(preset("Voiceger：한국어", 3, params, TtsEngineType::Voiceger));
    r.push(preset("Voiceger：粤語", 4, params, TtsEngineType::Voiceger));
    r
}

// ---------------------------------------------------------------------------
// Sanitising a loaded configuration
// ---------------------------------------------------------------------------

/// Most templates kept.
pub const MAX_TEMPLATES: usize = 100;

/// Most characters kept of a template.
pub const MAX_TEMPLATE_CHARS: usize = 512;

/// Most presets kept.
pub const MAX_PRESETS: usize = 50;

/// Most characters kept of a preset name.
pub const MAX_PRESET_NAME_CHARS: usize = 64;

/// `p` is `q` with its name cut to its first 64 characters.
pub open spec fn is_clipped_preset<P>(p: SpeakerPreset<P>, q: SpeakerPreset<P>) -> bool {
    &&& p.name@ == first_chars(q.name@, MAX_PRESET_NAME_CHARS as nat)
    &&& p.speaker_id == q.speaker_id
    &&& p.synth_params == q.synth_params
    &&& p.engine == q.engine
    &&& p.voiceger_emotion@ == q.voiceger_emotion@
    &&& p.voiceger_ref_audio_override@ == q.voiceger_ref_audio_override@
}

/// The first 100 templates, each cut to its first 512 characters.
pub fn sanitize_templates(templates: &Vec<String>) -> (r: Vec<String>)
    ensures
        r.len() == (if templates.len() > MAX_TEMPLATES {
            MAX_TEMPLATES as int
        } else {
            templates.len() as int
        }),
        forall|i: int|
            0 <= i < r.len() ==> (#[trigger] r[i])@ == first_chars(
                templates[i]@,
                MAX_TEMPLATE_CHARS as nat,
            ),
{
    let n = if templates.len() > MAX_TEMPLATES {
        MAX_TEMPLATES
    } else {
        templates.len()
    };
    let mut r: Vec<String> = Vec::new();
    let mut i: usize = 0;
    while i < n
        invariant
            0 <= i <= n <= templates.len(),
            r.len() == i,
            forall|j: int|
                0 <= j < i ==> (#[trigger] r[j])@ == first_chars(
                    templates[j]@,
                    MAX_TEMPLATE_CHARS as nat,
                ),
        decreases n - i,
    {
        r.push(take_chars(templates[i].as_str(), MAX_TEMPLATE_CHARS));
        i = i + 1;
    }
    r
}

/// The presets of a loaded configuration: the built-in ones (with `default_params`)
/// where there are none, else the first 50, each name cut to its first 64
/// characters.
pub fn sanitize_presets<P: Copy>(presets: &Vec<SpeakerPreset<P>>, default_params: P) -> (r: Vec<
    SpeakerPreset<P>,
>)
    ensures
        presets.len() == 0 ==> r.len() == 8 && forall|i: int|
            0 <= i < 8 ==> is_default_preset(#[trigger] r[i], i, default_params),
        presets.len() > 0 ==> r.len() == (if presets.len() > MAX_PRESETS {
            MAX_PRESETS as int
        } else {
            presets.len() as int
        }) && forall|i: int| 0 <= i < r.len() ==> is_clipped_preset(#[trigger] r[i], presets[i]),
{
    if presets.len() == 0 {
        return default_presets(default_params);
    }
    let n = if presets.len() > MAX_PRESETS {
        MAX_PRESETS
    } else {
        presets.len()
    };
    let mut r: Vec<SpeakerPreset<P>> = Vec::new();
    let mut i: usize = 0;
    while i < n
        invariant
            0 <= i <= n <= presets.len(),
            r.len() == i,
            forall|j: int| 0 <= j < i ==> is_clipped_preset(#[trigger] r[j], presets[j]),
        decreases n - i,
    {
        let q = &presets[i];
        let p = SpeakerPreset {
            name: take_chars(q.name.as_str(), MAX_PRESET_NAME_CHARS),
            speaker_id: q.speaker_id,
            synth_params: q.synth_params,
            engine: q.engine,
            voiceger_emotion: q.voiceger_emotion.clone(),
            voiceger_ref_audio_override: q.voiceger_ref_audio_override.clone(),
        };
        r.push(p);
        i = i + 1;
    }
    r
}

/// A VOICEVOX address that `is_valid_voicevox_url` accepts.
pub open spec fn valid_voicevox_url(s: Seq<char>) -> bool {
    match url_parts(s) {
        Ok((scheme, Some(h))) => scheme == "http"@ && is_local_host(h),
        _ => false,
    }
}

/// The configured VOICEVOX address where it is valid, else the default one.
pub fn sanitize_voicevox_url(url: &str) -> (r: String)
    ensures
        r@ == (if valid_voicevox_url(url@) {
            url@
        } else {
            DEFAULT_VOICEVOX_URL@
        }),
{
    match is_valid_voicevox_url(url) {
        Ok(()) => String::from_str(url),
        Err(_) => String::from_str(DEFAULT_VOICEVOX_URL),
    }
}

// ---------------------------------------------------------------------------
// Voiceger launch command
// ---------------------------------------------------------------------------

/// The configured Voiceger launch command where it holds more than whitespace;
/// `None` where the command computed from the standard install layout applies.
pub fn effective_voiceger_launch_cmd(voiceger_path: &str) -> (r: Option<String>)
    ensures
        trim(voiceger_path@).len() == 0 ==> r is None,
        trim(voiceger_path@).len() > 0 ==> (r matches Some(s) && s@ == voiceger_path@),
{
    let v = chars_of(voiceger_path);
    let w = trim_chars(v.as_slice());
    if w.len() == 0 {
        None
    } else {
        Some(String::from_str(voiceger_path))
    }
}

/// The `conda` executables tried, in order: the one on the `PATH`, then those of a
/// Miniconda and an Anaconda installation in the home directory `home`.
pub fn conda_candidates(home: &str) -> (r: Vec<String>)
    ensures
        r.len() == 3,
        r[0]@ == "conda"@,
        r[1]@ == home@ + "/miniconda3/bin/conda"@,
        r[2]@ == home@ + "/anaconda3/bin/conda"@,
{
    let mut r: Vec<String> = Vec::new();
    r.push(String::from_str("conda"));
    let mut a = String::from_str(home);
    a.append("/miniconda3/bin/conda");
    r.push(a);
    let mut b = String::from_str(home);
    b.append("/anaconda3/bin/conda");
    r.push(b);
    r
}

/// The command that starts the Voiceger API script `api_py`: through
/// `conda run -n voiceger` where a working `conda` was found, else with the
/// `python` on the `PATH`.
pub fn voiceger_launch_cmd(conda: Option<&str>, api_py: &str) -> (r: String)
    ensures
        r@ == (match conda {
            Some(c) => c@ + " run -n voiceger --no-capture-output python "@ + api_py@,
            None => "python "@ + api_py@,
        }),
{
    match conda {
        Some(c) => {
            let mut r = String::from_str(c);
            r.append(" run -n voiceger --no-capture-output python ");
            r.append(api_py);
            r
        },
        None => {
            let mut r = String::from_str("python ");
            r.append(api_py);
            r
        },
    }
}

/// `w` ends with `.py`.
pub open spec fn is_py_script(w: Seq<char>) -> bool {
    ends_with(w, ".py"@)
}

/// `w` holds a `/`.
pub open spec fn has_slash(w: Seq<char>) -> bool {
    exists|i: int| 0 <= i < w.len() && w[i] == '/'
}

/// `w` ends with `.py` (where `py`), or holds a `/` (where not).
pub open spec fn word_matches(w: Seq<char>, py: bool) -> bool {
    if py {
        is_py_script(w)
    } else {
        has_slash(w)
    }
}

/// Index of the first word that `word_matches(_, py)`, or `words.len()`.
pub open spec fn first_word_where(words: Seq<Seq<char>>, py: bool) -> nat
    decreases words.len(),
{
    if words.len() == 0 {
        0
    } else if word_matches(words[0], py) {
        0
    } else {
        1 + first_word_where(words.drop_first(), py)
    }
}

/// The word of a launch command that names the Voiceger script: the first word
/// ending in `.py`, else the first word holding a `/`.
pub open spec fn script_word(words: Seq<Seq<char>>) -> Option<Seq<char>> {
    let p = first_word_where(words, true);
    let s = first_word_where(words, false);
    if p < words.len() {
        Some(words[p as int])
    } else if s < words.len() {
        Some(words[s as int])
    } else {
        None
    }
}

proof fn lemma_first_word_where(words: Seq<Seq<char>>, py: bool, k: int)
    requires
        0 <= k <= words.len(),
        forall|j: int| 0 <= j < k ==> !word_matches(#[trigger] words[j], py),
        k < words.len() ==> word_matches(words[k], py),
    ensures
        first_word_where(words, py) == k,
    decreases k,
{
    if k > 0 {
        assert forall|j: int| 0 <= j < k - 1 implies !word_matches(
            #[trigger] words.drop_first()[j],
            py,
        ) by {
            assert(words.drop_first()[j] == words[j + 1]);
        }
        lemma_first_word_where(words.drop_first(), py, k - 1);
    }
}

fn contains_slash(w: &str) -> (b: bool)
    ensures
        b == has_slash(w@),
{
    let v = chars_of(w);
    let mut i: usize = 0;
    while i < v.len()
        invariant
            0 <= i <= v.len(),
            v@ == w@,
            forall|j: int| 0 <= j < i ==> v@[j] != '/',
        decreases v.len() - i,
    {
        if v[i] == '/' {
            return true;
        }
        i = i + 1;
    }
    false
}

/// The word of the (trimmed) Voiceger launch command that names its script, where
/// the command splits into words and one ends in `.py` or holds a `/`.
pub fn voiceger_script_word(voiceger_path: &str) -> (r: Option<String>)
    ensures
        match shell_split(trim(voiceger_path@)) {
            None => r is None,
            Some(words) => match script_word(words) {
                None => r is None,
                Some(w) => r matches Some(s) && s@ == w,
            },
        },
{
    let v = chars_of(voiceger_path);
    let t = string_from_chars(trim_chars(v.as_slice()).as_slice());
    let words = match split_words(t.as_str()) {
        Ok(w) => w,
        Err(_) => {
            return None;
        },
    };
    let ghost ws = string_views(words@);
    assert(t@ == trim(voiceger_path@));
    let mut i: usize = 0;
    while i < words.len()
        invariant
            0 <= i <= words.len(),
            ws == string_views(words@),
            shell_split(trim(voiceger_path@)) == Some(ws),
            forall|j: int| 0 <= j < i ==> !word_matches(#[trigger] ws[j], true),
        decreases words.len() - i,
    {
        assert(ws[i as int] == words@[i as int]@);
        if str_ends_with(words[i].as_str(), ".py") {
            proof {
                lemma_first_word_where(ws, true, i as int);
            }
            return Some(words[i].clone());
        }
        i = i + 1;
    }
    proof {
        lemma_first_word_where(ws, true, ws.len() as int);
    }
    let mut k: usize = 0;
    while k < words.len()
        invariant
            0 <= k <= words.len(),
            ws == string_views(words@),
            shell_split(trim(voiceger_path@)) == Some(ws),
            first_word_where(ws, true) == ws.len(),
            forall|j: int| 0 <= j < k ==> !word_matches(#[trigger] ws[j], false),
        decreases words.len() - k,
    {
        assert(ws[k as int] == words@[k as int]@);
        if contains_slash(words[k].as_str()) {
            proof {
                lemma_first_word_where(ws, false, k as int);
            }
            return Some(words[k].clone());
        }
        k = k + 1;
    }
    proof {
        lemma_first_word_where(ws, false, ws.len() as int);
    }
    None
}

/// Index of the last `/` of `s`, or -1 where it holds none.
pub open spec fn last_slash(s: Seq<char>) -> int
    decreases s.len(),
{
    if s.len() == 0 {
        -1
    } else if s.last() == '/' {
        s.len() - 1
    } else {
        last_slash(s.drop_last())
    }
}

/// The last component of a path: the text after its last `/`.
pub open spec fn name_part(s: Seq<char>) -> Seq<char> {
    s.skip(last_slash(s) + 1)
}

/// Whether a relative path begins with a `.` component (`.` alone, or `./`), which
/// its components keep.
pub open spec fn lead_cur_dir(s: Seq<char>) -> bool {
    s.len() > 0 && s[0] == '.' && (s.len() == 1 || s[1] == '/')
}

/// Length of what comes before the body of a path: the root `/`, or a leading `.`
/// component.
pub open spec fn body_start(s: Seq<char>) -> nat {
    if (s.len() > 0 && s[0] == '/') || lead_cur_dir(s) {
        1
    } else {
        0
    }
}

/// Where the last piece of the body of `s` ends the text before it: at its `/`, or
/// at the start of the body `b` where the body holds no `/`.
pub open spec fn piece_cut(s: Seq<char>, b: nat) -> int {
    let k = last_slash(s);
    if k >= b {
        k
    } else {
        b as int
    }
}

/// Where the last piece of the body of `s` begins.
pub open spec fn piece_start(s: Seq<char>, b: nat) -> int {
    let k = last_slash(s);
    if k >= b {
        k + 1
    } else {
        b as int
    }
}

/// Whether the last piece of `s` is empty or `.`, pieces that a path's components
/// pass over.
pub open spec fn skipped_last(s: Seq<char>, b: nat) -> bool {
    let i = piece_start(s, b);
    i >= s.len() || (i + 1 == s.len() && s[i] == '.')
}

/// `s` without the empty and `.` pieces at its end, down to the body start `b`.
pub open spec fn trim_back(s: Seq<char>, b: nat) -> Seq<char>
    decreases s.len(),
{
    if s.len() <= b || !skipped_last(s, b) {
        s
    } else {
        proof {
            lemma_last_slash_range(s);
        }
        trim_back(s.take(piece_cut(s, b)), b)
    }
}

/// The parent of the path `s`, as `std::path::Path::parent` gives it: `s` without
/// its last component (trailing `/` and `.` pieces passed over), and without the
/// `/` and `.` pieces that are then left at its end; none where `s` is empty or is
/// the root alone.
pub open spec fn path_parent(s: Seq<char>) -> Option<Seq<char>> {
    let b = body_start(s);
    let t = trim_back(s, b);
    if t.len() > b {
        Some(trim_back(t.take(piece_cut(t, b)), b))
    } else if lead_cur_dir(s) {
        Some(Seq::<char>::empty())
    } else {
        None
    }
}

/// The Voiceger repository root for the script at `script`: the script's directory,
/// or the one above it where the script sits in `GPT-SoVITS/` (as `api_v2.py` does
/// in the standard install); none where the script path has no parent.
pub open spec fn base_dir_of(script: Seq<char>) -> Option<Seq<char>> {
    match path_parent(script) {
        None => None,
        Some(d) => if name_part(d) == "GPT-SoVITS"@ {
            match path_parent(d) {
                Some(u) => Some(u),
                None => Some(d),
            }
        } else {
            Some(d)
        },
    }
}

/// The last `/` of a path lies within it, or there is none.
pub proof fn lemma_last_slash_range(s: Seq<char>)
    ensures
        -1 <= last_slash(s) < s.len(),
    decreases s.len(),
{
    if s.len() > 0 && s.last() != '/' {
        lemma_last_slash_range(s.drop_last());
    }
}

proof fn lemma_last_slash_prefix(s: Seq<char>, i: int)
    requires
        0 <= i <= s.len(),
        forall|j: int| i <= j < s.len() ==> s[j] != '/',
    ensures
        last_slash(s) == last_slash(s.take(i)),
    decreases s.len() - i,
{
    if i < s.len() {
        assert(s.drop_last().take(i) =~= s.take(i));
        lemma_last_slash_prefix(s.drop_last(), i);
    } else {
        assert(s.take(i) =~= s);
    }
}

fn last_slash_index(v: &[char]) -> (k: Option<usize>)
    ensures
        match k {
            Some(k) => k == last_slash(v@) && k < v.len(),
            None => last_slash(v@) == -1,
        },
{
    let mut i: usize = v.len();
    while i > 0 && v[i - 1] != '/'
        invariant
            0 <= i <= v.len(),
            forall|j: int| i <= j < v.len() ==> v@[j] != '/',
        decreases i,
    {
        i = i - 1;
    }
    proof {
        lemma_last_slash_prefix(v@, i as int);
        if i > 0 {
            assert(v@.take(i as int).last() == '/');
        }
    }
    if i == 0 {
        None
    } else {
        Some(i - 1)
    }
}

/// Length of the prefix of `v` that `trim_back` keeps.
fn trim_back_len(v: &[char], b: usize) -> (n: usize)
    requires
        b <= v.len(),
    ensures
        b <= n <= v.len(),
        trim_back(v@, b as nat) == v@.take(n as int),
{
    let mut n: usize = v.len();
    proof {
        assert(v@.take(n as int) =~= v@);
    }
    while n > b
        invariant
            b <= n <= v.len(),
            trim_back(v@, b as nat) == trim_back(v@.take(n as int), b as nat),
        decreases n,
    {
        let t = sub_chars(v, 0, n);
        proof {
            assert(t@ =~= v@.take(n as int));
        }
        let (start, cut): (usize, usize) = match last_slash_index(t.as_slice()) {
            Some(k) => if k >= b {
                (k + 1, k)
            } else {
                (b, b)
            },
            None => (b, b),
        };
        let skipped = start >= n || (start + 1 == n && t[start] == '.');
        if !skipped {
            return n;
        }
        proof {
            assert(t@.take(cut as int) =~= v@.take(cut as int));
        }
        n = cut;
    }
    n
}

fn path_parent_chars(v: &[char]) -> (r: Option<Vec<char>>)
    ensures
        match path_parent(v@) {
            None => r is None,
            Some(p) => r matches Some(x) && x@ == p,
        },
{
    let lead_cur = v.len() > 0 && v[0] == '.' && (v.len() == 1 || v[1] == '/');
    let b: usize = if (v.len() > 0 && v[0] == '/') || lead_cur {
        1
    } else {
        0
    };
    let n = trim_back_len(v, b);
    if n > b {
        let t = sub_chars(v, 0, n);
        proof {
            assert(t@ =~= v@.take(n as int));
        }
        let cut: usize = match last_slash_index(t.as_slice()) {
            Some(k) => if k >= b {
                k
            } else {
                b
            },
            None => b,
        };
        let u = sub_chars(t.as_slice(), 0, cut);
        proof {
            assert(u@ =~= t@.take(cut as int));
        }
        let m = trim_back_len(u.as_slice(), b);
        Some(sub_chars(u.as_slice(), 0, m))
    } else if lead_cur {
        Some(Vec::new())
    } else {
        None
    }
}

/// The repository root for the Voiceger script `script` (see `base_dir_of`).
pub fn voiceger_base_dir_of(script: &str) -> (r: Option<String>)
    ensures
        match base_dir_of(script@) {
            None => r is None,
            Some(d) => r matches Some(x) && x@ == d,
        },
{
    let v = chars_of(script);
    let d = match path_parent_chars(v.as_slice()) {
        None => return None,
        Some(d) => d,
    };
    let name: Vec<char> = match last_slash_index(d.as_slice()) {
        Some(k) => sub_chars(d.as_slice(), k + 1, d.len()),
        None => {
            proof {
                assert(d@.skip(0) =~= d@);
            }
            sub_chars(d.as_slice(), 0, d.len())
        },
    };
    proof {
        assert(d@.subrange(0, d@.len() as int) =~= d@);
    }
    let n = string_from_chars(name.as_slice());
    if crate::text::str_eq(n.as_str(), "GPT-SoVITS") {
        match path_parent_chars(d.as_slice()) {
            Some(up) => Some(string_from_chars(up.as_slice())),
            None => Some(string_from_chars(d.as_slice())),
        }
    } else {
        Some(string_from_chars(d.as_slice()))
    }
}

/// The Voiceger repository root derived from the launch command: the root of the
/// script that `voiceger_script_word` picks, where it picks one and that has one.
pub fn voiceger_base_dir(voiceger_path: &str) -> (r: Option<String>)
    ensures
        match shell_split(trim(voiceger_path@)) {
            None => r is None,
            Some(words) => match script_word(words) {
                None => r is None,
                Some(w) => match base_dir_of(w) {
                    None => r is None,
                    Some(d) => r matches Some(s) && s@ == d,
                },
            },
        },
{
    match voiceger_script_word(voiceger_path) {
        Some(w) => voiceger_base_dir_of(w.as_str()),
        None => None,
    }
}

// ---------------------------------------------------------------------------
// Autostart
// ---------------------------------------------------------------------------

/// The XDG autostart entry that starts the executable at `exe_path` on login.
pub fn autostart_entry(exe_path: &str) -> (r: String)
    ensures
        r@ == "[Desktop Entry]\nType=Application\nName=ZunduxTTS\nComment=VOICEVOX TTS virtual microphone\nExec="@
            + exe_path@ + "\nTerminal=false\nX-GNOME-Autostart-enabled=true\n"@,
{
    let mut r = String::from_str(
        "[Desktop Entry]\nType=Application\nName=ZunduxTTS\nComment=VOICEVOX TTS virtual microphone\nExec=",
    );
    r.append(exe_path);
    r.append("\nTerminal=false\nX-GNOME-Autostart-enabled=true\n");
    r
}

} // verus!
