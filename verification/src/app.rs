//! The decisions of the application's main loop: what is spoken, when the engine is
//! polled, which microphone and sound files are used, and how the VOICEVOX engine
//! is started.
use vstd::prelude::*;
use crate::launch::{
    docker_launch_command, docker_launch_result, is_docker_command, launch_error_text,
    local_launch_command, local_launch_result, string_views, LaunchCommand, LaunchError,
    DOCKER_CONTAINER_NAME,
};
use crate::text::{
    chars_of, contains, first_chars, lemma_lex_antisymmetric, lemma_lex_total, lemma_lex_transitive,
    lex_le, lex_lt, remove_all, remove_all_chars, str_contains, str_lex_lt, string_from_chars,
    starts_with, take_chars, trim, trim_chars, trim_start,
};

verus! {

// ---------------------------------------------------------------------------
// Text to speak
// ---------------------------------------------------------------------------

/// `s` with every occurrence of each word of `words` removed, the words taken in
/// order (`str::replace(word, "")` for each in turn).
pub open spec fn remove_words(s: Seq<char>, words: Seq<Seq<char>>) -> Seq<char>
    decreases words.len(),
{
    if words.len() == 0 {
        s
    } else {
        remove_all(remove_words(s, words.drop_last()), words.last())
    }
}

/// The text to synthesise: `text` with the silent words removed, then trimmed.
pub fn strip_silent_words(text: &str, silent_words: &Vec<String>) -> (r: String)
    ensures
        r@ == trim(remove_words(text@, string_views(silent_words@))),
{
    let ghost ws = string_views(silent_words@);
    let mut cur = chars_of(text);
    let mut i: usize = 0;
    while i < silent_words.len()
        invariant
            0 <= i <= silent_words.len(),
            ws == string_views(silent_words@),
            cur@ == remove_words(text@, ws.take(i as int)),
        decreases silent_words.len() - i,
    {
        let p = chars_of(silent_words[i].as_str());
        let next = remove_all_chars(cur.as_slice(), p.as_slice());
        proof {
            assert(ws.take(i + 1).drop_last() =~= ws.take(i as int));
            assert(ws.take(i + 1).last() == ws[i as int]);
        }
        cur = next;
        i = i + 1;
    }
    assert(ws.take(silent_words.len() as int) =~= ws);
    let t = trim_chars(cur.as_slice());
    string_from_chars(t.as_slice())
}

// ---------------------------------------------------------------------------
// Engine health
// ---------------------------------------------------------------------------

/// Seconds between health checks of the engine.
pub const HEALTH_CHECK_INTERVAL_SECS: u64 = 5;

/// Seconds between health checks while the engine is starting.
pub const HEALTH_CHECK_INTERVAL_LAUNCHING_SECS: u64 = 1;

/// Seconds between health checks: shorter while the engine is starting.
pub fn health_check_interval_secs(launching: bool) -> (s: u64)
    ensures
        s == (if launching {
            HEALTH_CHECK_INTERVAL_LAUNCHING_SECS
        } else {
            HEALTH_CHECK_INTERVAL_SECS
        }),
{
    if launching {
        HEALTH_CHECK_INTERVAL_LAUNCHING_SECS
    } else {
        HEALTH_CHECK_INTERVAL_SECS
    }
}

/// Whether a health check is due, `elapsed_secs` whole seconds after the last one.
pub fn health_check_due(elapsed_secs: u64, launching: bool) -> (due: bool)
    ensures
        due == (elapsed_secs >= (if launching {
            HEALTH_CHECK_INTERVAL_LAUNCHING_SECS
        } else {
            HEALTH_CHECK_INTERVAL_SECS
        })),
{
    elapsed_secs >= health_check_interval_secs(launching)
}

/// What the application knows of the engine's state.
pub struct EngineStatus {
    /// The last health check succeeded.
    pub connected: bool,
    /// The engine was started and has not answered yet.
    pub launching: bool,
}

impl EngineStatus {
    /// Takes in the result of a health check; returns whether the speakers are to be
    /// loaded again (the engine answered after having been unreachable). A success
    /// ends the launching state.
    pub fn on_health_check(&mut self, ok: bool) -> (reload_speakers: bool)
        ensures
            final(self).connected == ok,
            final(self).launching == (old(self).launching && !ok),
            reload_speakers == (ok && !old(self).connected),
    {
        let was_disconnected = !self.connected;
        self.connected = ok;
        if ok {
            self.launching = false;
        }
        ok && was_disconnected
    }
}

// ---------------------------------------------------------------------------
// Speech requests
// ---------------------------------------------------------------------------

/// The text that a line typed to be spoken comes to: the line with the silent words
/// removed, trimmed.
pub open spec fn spoken_text(text: Seq<char>, silent_words: Seq<Seq<char>>) -> Seq<char> {
    trim(remove_words(text, silent_words))
}

/// What the application knows of the speech it asked for.
pub struct SpeechStatus {
    /// A synthesis was requested and has not been answered yet.
    pub synthesizing: bool,
    /// The error of the last failed request or operation, shown until the next success.
    pub last_error: Option<String>,
}

impl SpeechStatus {
    /// Takes a line typed to be spoken. Where text is left once the silent words are
    /// removed, returns it as the synthesis request, and the status is then
    /// synthesising with no error; otherwise nothing is requested and nothing changes.
    pub fn on_send(&mut self, text: &str, silent_words: &Vec<String>) -> (request: Option<String>)
        ensures
            spoken_text(text@, string_views(silent_words@)).len() == 0 ==> request is None
                && final(self).synthesizing == old(self).synthesizing && final(self).last_error
                == old(self).last_error,
            spoken_text(text@, string_views(silent_words@)).len() > 0 ==> (request matches Some(t)
                && t@ == spoken_text(text@, string_views(silent_words@)))
                && final(self).synthesizing && final(self).last_error is None,
    {
        let t = strip_silent_words(text, silent_words);
        if t.as_str().is_empty() {
            None
        } else {
            self.synthesizing = true;
            self.last_error = None;
            Some(t)
        }
    }

    /// Takes the audio of a finished synthesis: the synthesis is over and no error is
    /// left.
    pub fn on_audio_ready(&mut self)
        ensures
            !final(self).synthesizing,
            final(self).last_error is None,
    {
        self.synthesizing = false;
        self.last_error = None;
    }

    /// Takes the error of a failed synthesis: the synthesis is over and the error is
    /// the one shown.
    pub fn on_failure(&mut self, error: String)
        ensures
            !final(self).synthesizing,
            final(self).last_error == Some(error),
    {
        self.synthesizing = false;
        self.last_error = Some(error);
    }
}

// ---------------------------------------------------------------------------
// Errors on the status bar
// ---------------------------------------------------------------------------

/// Most characters of an error shown on the status bar.
pub const STATUS_ERROR_CHARS: usize = 60;

/// Nanoseconds an error stays on the status bar while not hovered (5 s).
pub const ERROR_TOAST_NANOS: u128 = 5_000_000_000;

/// The part of an error shown on the status bar.
pub fn status_error_text(error: &str) -> (r: String)
    ensures
        r@ == first_chars(error@, STATUS_ERROR_CHARS as nat),
{
    take_chars(error, STATUS_ERROR_CHARS)
}

/// Whether a shown error is dismissed: it is not hovered and has been shown for
/// more than five seconds.
pub fn error_toast_expired(hovered: bool, elapsed_nanos: u128) -> (b: bool)
    ensures
        b == (!hovered && elapsed_nanos > ERROR_TOAST_NANOS),
{
    !hovered && elapsed_nanos > ERROR_TOAST_NANOS
}

// ---------------------------------------------------------------------------
// Microphone
// ---------------------------------------------------------------------------

/// The source that stands for the system's default input.
pub const DEFAULT_MIC_SOURCE: &'static str = "@DEFAULT_SOURCE@";

/// The microphone source to route: the configured one, else the default input.
pub fn mic_source_or_default(configured: Option<&str>) -> (r: &str)
    ensures
        r@ == (match configured {
            Some(s) => s@,
            None => DEFAULT_MIC_SOURCE@,
        }),
{
    match configured {
        Some(s) => s,
        None => DEFAULT_MIC_SOURCE,
    }
}

/// The configured microphone source after listing the sources (name, description):
/// where none is configured the first listed source is chosen.
pub fn auto_select_mic_source(configured: Option<String>, sources: &Vec<(String, String)>) -> (r:
    Option<String>)
    ensures
        configured is Some ==> r == configured,
        configured is None && sources.len() == 0 ==> r is None,
        configured is None && sources.len() > 0 ==> (r matches Some(s) && s@ == sources[0].0@),
{
    match configured {
        Some(c) => Some(c),
        None => {
            if sources.len() > 0 {
                Some(sources[0].0.clone())
            } else {
                None
            }
        },
    }
}

// ---------------------------------------------------------------------------
// Soundboard files
// ---------------------------------------------------------------------------

/// `c` with ASCII capitals made small.
pub open spec fn ascii_lower(c: char) -> char {
    if 'A' <= c && c <= 'Z' {
        ((c as u32) + 32) as char
    } else {
        c
    }
}

/// `s` with ASCII capitals made small.
pub open spec fn lower_ascii(s: Seq<char>) -> Seq<char> {
    Seq::new(s.len(), |i: int| ascii_lower(s[i]))
}

/// A file extension that the soundboard plays: `wav`, `mp3` or `ogg`, in any case.
/// (Only ASCII capitals lowercase to these letters, so this is what comparing the
/// Unicode lowercase form gives.)
pub open spec fn is_sound_extension(ext: Seq<char>) -> bool {
    let l = lower_ascii(ext);
    l == "wav"@ || l == "mp3"@ || l == "ogg"@
}

fn lower_char(c: char) -> (r: char)
    ensures
        r == ascii_lower(c),
{
    if 'A' <= c && c <= 'Z' {
        let v: u32 = (c as u32) + 32;
        proof {
            assert(0x61 <= v <= 0x7a);
        }
        match crate::text::char_from_u32(v) {
            Some(d) => d,
            None => c,
        }
    } else {
        c
    }
}

/// Whether the soundboard plays files with extension `ext`.
pub fn is_sound_file_extension(ext: &str) -> (b: bool)
    ensures
        b == is_sound_extension(ext@),
{
    let v = chars_of(ext);
    let mut l: Vec<char> = Vec::new();
    let mut i: usize = 0;
    while i < v.len()
        invariant
            0 <= i <= v.len(),
            v@ == ext@,
            l@ == lower_ascii(ext@).take(i as int),
        decreases v.len() - i,
    {
        l.push(lower_char(v[i]));
        proof {
            assert(l@ =~= lower_ascii(ext@).take(i + 1));
        }
        i = i + 1;
    }
    assert(l@ =~= lower_ascii(ext@));
    let s = string_from_chars(l.as_slice());
    crate::text::str_eq(s.as_str(), "wav") || crate::text::str_eq(s.as_str(), "mp3")
        || crate::text::str_eq(s.as_str(), "ogg")
}

// ---------------------------------------------------------------------------
// Listing in name order
// ---------------------------------------------------------------------------

/// Entry `i` of `names` comes before entry `j`: its name sorts strictly first, or
/// the names are equal and `i` stands earlier (a stable sort).
pub open spec fn sorts_before(names: Seq<Seq<char>>, i: int, j: int) -> bool {
    lex_lt(names[i], names[j]) || (names[i] == names[j] && i < j)
}

/// Position `p` occurs in `order`.
pub open spec fn lists_position(order: Seq<usize>, p: int) -> bool {
    exists|k: int| 0 <= k < order.len() && #[trigger] order[k] == p
}

/// `order` lists every position of `names` once, in the order of the names, entries
/// of equal names in their original order.
pub open spec fn is_name_order(names: Seq<Seq<char>>, order: Seq<usize>) -> bool {
    &&& order.len() == names.len()
    &&& forall|k: int| 0 <= k < order.len() ==> #[trigger] order[k] < names.len()
    &&& forall|p: int| 0 <= p < names.len() ==> #[trigger] lists_position(order, p)
    &&& forall|a: int, b: int|
        0 <= a < b < order.len() ==> sorts_before(names, #[trigger] order[a] as int, #[trigger] order[b] as int)
}

proof fn lemma_insert_sorted(ns: Seq<Seq<char>>, order: Seq<usize>, pos: int, i: usize)
    requires
        0 <= pos <= order.len(),
        i < ns.len(),
        forall|k: int| 0 <= k < order.len() ==> #[trigger] order[k] < i,
        forall|a: int, b: int|
            0 <= a < b < order.len() ==> sorts_before(ns, #[trigger] order[a] as int, #[trigger] order[b] as int),
        forall|q: int| 0 <= q < pos ==> !lex_lt(ns[i as int], ns[#[trigger] order[q] as int]),
        pos < order.len() ==> lex_lt(ns[i as int], ns[order[pos] as int]),
    ensures
        forall|a: int, b: int|
            0 <= a < b < order.len() + 1 ==> sorts_before(
                ns,
                #[trigger] order.insert(pos, i)[a] as int,
                #[trigger] order.insert(pos, i)[b] as int,
            ),
{
    let n = order.insert(pos, i);
    assert forall|a: int, b: int| 0 <= a < b < order.len() + 1 implies sorts_before(
        ns,
        #[trigger] n[a] as int,
        #[trigger] n[b] as int,
    ) by {
        if a < pos && b < pos {
            assert(n[a] == order[a] && n[b] == order[b]);
        } else if a < pos && b == pos {
            let x = ns[order[a] as int];
            let y = ns[i as int];
            assert(n[a] == order[a] && n[b] == i);
            lemma_lex_total(y, x);
            assert(!lex_lt(y, x));
        } else if a < pos && b > pos {
            assert(n[a] == order[a] && n[b] == order[b - 1]);
        } else if a == pos {
            assert(n[a] == i && n[b] == order[b - 1]);
            let x = ns[i as int];
            let p = ns[order[pos] as int];
            let y = ns[order[b - 1] as int];
            if b - 1 > pos {
                assert(sorts_before(ns, order[pos] as int, order[b - 1] as int));
                lemma_lex_total(p, p);
                assert(lex_le(p, y));
                lemma_lex_transitive(x, p, y);
                if x == y {
                    lemma_lex_antisymmetric(x, p);
                }
            }
        } else {
            assert(n[a] == order[a - 1] && n[b] == order[b - 1]);
        }
    }
}

proof fn lemma_sorts_before_asymmetric(ns: Seq<Seq<char>>, i: int, j: int)
    requires
        sorts_before(ns, i, j),
    ensures
        !sorts_before(ns, j, i),
{
    if lex_lt(ns[i], ns[j]) && lex_lt(ns[j], ns[i]) {
        lemma_lex_antisymmetric(ns[i], ns[j]);
    }
}

proof fn lemma_sorted_unique(ns: Seq<Seq<char>>, o1: Seq<usize>, o2: Seq<usize>)
    requires
        forall|a: int, b: int|
            0 <= a < b < o1.len() ==> sorts_before(ns, #[trigger] o1[a] as int, #[trigger] o1[b] as int),
        forall|a: int, b: int|
            0 <= a < b < o2.len() ==> sorts_before(ns, #[trigger] o2[a] as int, #[trigger] o2[b] as int),
        forall|x: usize| o1.contains(x) <==> o2.contains(x),
    ensures
        o1 == o2,
    decreases o1.len(),
{
    if o1.len() == 0 {
        if o2.len() > 0 {
            assert(o2.contains(o2[0]));
        }
        assert(o1 =~= o2);
    } else {
        assert(o1.contains(o1[0]));
        assert(o2.len() > 0);
        assert(o2.contains(o2[0]));
        if o1[0] != o2[0] {
            let b = choose|b: int| 0 <= b < o1.len() && o1[b] == o2[0];
            let c = choose|c: int| 0 <= c < o2.len() && o2[c] == o1[0];
            assert(sorts_before(ns, o1[0] as int, o1[b] as int));
            assert(sorts_before(ns, o2[0] as int, o2[c] as int));
            lemma_sorts_before_asymmetric(ns, o1[0] as int, o2[0] as int);
        }
        let t1 = o1.drop_first();
        let t2 = o2.drop_first();
        assert forall|x: usize| t1.contains(x) <==> t2.contains(x) by {
            if t1.contains(x) {
                let k = choose|k: int| 0 <= k < t1.len() && t1[k] == x;
                assert(o1[k + 1] == x);
                assert(o1.contains(x));
                let m = choose|m: int| 0 <= m < o2.len() && o2[m] == x;
                assert(sorts_before(ns, o1[0] as int, o1[k + 1] as int));
                if m == 0 {
                    assert(!sorts_before(ns, x as int, x as int));
                }
                assert(t2[m - 1] == x);
            }
            if t2.contains(x) {
                let k = choose|k: int| 0 <= k < t2.len() && t2[k] == x;
                assert(o2[k + 1] == x);
                assert(o2.contains(x));
                let m = choose|m: int| 0 <= m < o1.len() && o1[m] == x;
                assert(sorts_before(ns, o2[0] as int, o2[k + 1] as int));
                if m == 0 {
                    assert(!sorts_before(ns, x as int, x as int));
                }
                assert(t1[m - 1] == x);
            }
        }
        assert forall|a: int, b: int| 0 <= a < b < t1.len() implies sorts_before(
            ns,
            #[trigger] t1[a] as int,
            #[trigger] t1[b] as int,
        ) by {
            assert(t1[a] == o1[a + 1] && t1[b] == o1[b + 1]);
        }
        assert forall|a: int, b: int| 0 <= a < b < t2.len() implies sorts_before(
            ns,
            #[trigger] t2[a] as int,
            #[trigger] t2[b] as int,
        ) by {
            assert(t2[a] == o2[a + 1] && t2[b] == o2[b + 1]);
        }
        lemma_sorted_unique(ns, t1, t2);
        assert(o1 =~= seq![o1[0]] + t1);
        assert(o2 =~= seq![o2[0]] + t2);
    }
}

/// The name order of a list is determined by the names: two orders that both
/// satisfy `is_name_order` are the same. (So `name_order`'s contract fixes its
/// result.)
pub proof fn lemma_name_order_unique(names: Seq<Seq<char>>, o1: Seq<usize>, o2: Seq<usize>)
    requires
        is_name_order(names, o1),
        is_name_order(names, o2),
    ensures
        o1 == o2,
{
    assert forall|x: usize| o1.contains(x) <==> o2.contains(x) by {
        if o1.contains(x) {
            let k = choose|k: int| 0 <= k < o1.len() && o1[k] == x;
            assert(o1[k] < names.len());
            assert(lists_position(o2, x as int));
        }
        if o2.contains(x) {
            let k = choose|k: int| 0 <= k < o2.len() && o2[k] == x;
            assert(o2[k] < names.len());
            assert(lists_position(o1, x as int));
        }
    }
    lemma_sorted_unique(names, o1, o2);
}

/// The positions of `names` in name order (code-point order, shorter prefix first),
/// entries with equal names kept in their original order: the order in which a
/// stable sort by name lists them.
pub fn name_order(names: &Vec<String>) -> (order: Vec<usize>)
    ensures
        is_name_order(string_views(names@), order@),
{
    let ghost ns = string_views(names@);
    let mut order: Vec<usize> = Vec::new();
    let mut i: usize = 0;
    while i < names.len()
        invariant
            0 <= i <= names.len(),
            ns == string_views(names@),
            order.len() == i,
            forall|k: int| 0 <= k < order.len() ==> #[trigger] order@[k] < i,
            forall|p: int| 0 <= p < i ==> #[trigger] lists_position(order@, p),
            forall|a: int, b: int|
                0 <= a < b < order.len() ==> sorts_before(ns, #[trigger] order@[a] as int, #[trigger] order@[b] as int),
        decreases names.len() - i,
    {
        let mut pos: usize = 0;
        while pos < order.len() && !str_lex_lt(names[i].as_str(), names[order[pos]].as_str())
            invariant
                0 <= pos <= order.len(),
                i < names.len(),
                ns == string_views(names@),
                forall|k: int| 0 <= k < order.len() ==> #[trigger] order@[k] < i,
                forall|q: int| 0 <= q < pos ==> !lex_lt(ns[i as int], ns[#[trigger] order@[q] as int]),
            decreases order.len() - pos,
        {
            pos = pos + 1;
        }
        let ghost old_order = order@;
        proof {
            lemma_insert_sorted(ns, old_order, pos as int, i);
        }
        order.insert(pos, i);
        proof {
            assert(order@ == old_order.insert(pos as int, i));
            assert forall|k: int| 0 <= k < order.len() implies #[trigger] order@[k] < i + 1 by {
                if k < pos {
                    assert(order@[k] == old_order[k]);
                } else if k > pos {
                    assert(order@[k] == old_order[k - 1]);
                }
            }
            assert forall|p: int| 0 <= p < i + 1 implies #[trigger] lists_position(order@, p) by {
                if p == i {
                    assert(order@[pos as int] == p);
                } else {
                    assert(lists_position(old_order, p));
                    let q = choose|q: int| 0 <= q < old_order.len() && #[trigger] old_order[q] == p;
                    if q < pos {
                        assert(order@[q] == p);
                    } else {
                        assert(order@[q + 1] == p);
                    }
                }
            }
        }
        i = i + 1;
    }
    order
}

// ---------------------------------------------------------------------------
// Docker container
// ---------------------------------------------------------------------------

/// Arguments of the `docker ps` run that lists the application's container:
/// running ones, or (with `exited`) stopped ones.
pub fn docker_ps_args(exited: bool) -> (r: Vec<String>)
    ensures
        exited ==> string_views(r@) == seq![
            "ps"@,
            "-a"@,
            "--filter"@,
            "name=zundux-voicevox"@,
            "--filter"@,
            "status=exited"@,
            "--format"@,
            "{{.Names}}"@,
        ],
        !exited ==> string_views(r@) == seq![
            "ps"@,
            "--filter"@,
            "name=zundux-voicevox"@,
            "--format"@,
            "{{.Names}}"@,
        ],
{
    let mut r: Vec<String> = Vec::new();
    r.push(String::from_str("ps"));
    if exited {
        r.push(String::from_str("-a"));
    }
    r.push(String::from_str("--filter"));
    r.push(String::from_str("name=zundux-voicevox"));
    if exited {
        r.push(String::from_str("--filter"));
        r.push(String::from_str("status=exited"));
    }
    r.push(String::from_str("--format"));
    r.push(String::from_str("{{.Names}}"));
    proof {
        if exited {
            assert(string_views(r@) =~= seq![
                "ps"@,
                "-a"@,
                "--filter"@,
                "name=zundux-voicevox"@,
                "--filter"@,
                "status=exited"@,
                "--format"@,
                "{{.Names}}"@,
            ]);
        } else {
            assert(string_views(r@) =~= seq![
                "ps"@,
                "--filter"@,
                "name=zundux-voicevox"@,
                "--format"@,
                "{{.Names}}"@,
            ]);
        }
    }
    r
}

/// Whether the output of `docker ps` names the application's container.
pub fn lists_container(docker_output: &str) -> (b: bool)
    ensures
        b == contains(docker_output@, DOCKER_CONTAINER_NAME@),
{
    str_contains(docker_output, DOCKER_CONTAINER_NAME)
}

/// Arguments of the `docker` run that stops the application's container, waiting
/// up to five seconds for it where `graceful`.
pub fn docker_stop_args(graceful: bool) -> (r: Vec<String>)
    ensures
        graceful ==> string_views(r@) == seq!["stop"@, "-t"@, "5"@, DOCKER_CONTAINER_NAME@],
        !graceful ==> string_views(r@) == seq!["stop"@, DOCKER_CONTAINER_NAME@],
{
    let mut r: Vec<String> = Vec::new();
    r.push(String::from_str("stop"));
    if graceful {
        r.push(String::from_str("-t"));
        r.push(String::from_str("5"));
    }
    r.push(String::from_str(DOCKER_CONTAINER_NAME));
    proof {
        if graceful {
            assert(string_views(r@) =~= seq!["stop"@, "-t"@, "5"@, DOCKER_CONTAINER_NAME@]);
        } else {
            assert(string_views(r@) =~= seq!["stop"@, DOCKER_CONTAINER_NAME@]);
        }
    }
    r
}

} // verus!
verus! {

// ---------------------------------------------------------------------------
// Starting the VOICEVOX engine
// ---------------------------------------------------------------------------

/// What became of the engine process started earlier, if any.
#[derive(Debug, Clone, Copy, PartialEq, Eq, Structural)]
pub enum ProcessStatus {
    /// No process was started.
    NoProcess,
    /// The process is still running.
    Running,
    /// The process has ended (or could not be waited for).
    Exited,
}

/// A change to the error shown to the user.
pub enum ErrorUpdate {
    Keep,
    Clear,
    Show(String),
}

/// A change to the handle of the engine process.
#[derive(Debug, Clone, Copy, PartialEq, Eq, Structural)]
pub enum ProcessUpdate {
    /// Keep the handle as it is.
    Keep,
    /// Drop the handle of the ended process.
    Forget,
    /// The process just started replaces it.
    Started,
}

/// How a launch attempt changes the application's state.
pub struct LaunchOutcome {
    pub process: ProcessUpdate,
    /// The new value of "the engine runs in docker", where it changes.
    pub docker: Option<bool>,
    /// The new value of "the engine is starting", where it changes.
    pub launching: Option<bool>,
    pub error: ErrorUpdate,
}

/// The outcome that changes nothing.
pub open spec fn unchanged(o: LaunchOutcome) -> bool {
    o.process == ProcessUpdate::Keep && o.docker is None && o.launching is None
        && o.error is Keep
}

/// The next thing to do in a launch attempt.
pub enum LaunchAction {
    /// Run `docker` with these arguments and report whether its output names the
    /// application's container (`lists_container`).
    QueryContainer(Vec<String>),
    /// Report the status of the engine process started earlier.
    PollProcess,
    /// Start this command, its output piped (`piped`) or discarded, and report
    /// whether it started (with the error's text where not).
    Spawn { command: LaunchCommand, piped: bool },
    /// The attempt is over: apply this outcome.
    Finish(LaunchOutcome),
}

/// What the application reports back after an action.
pub enum LaunchEvent {
    Listed(bool),
    Process(ProcessStatus),
    Spawned(Result<(), String>),
}

/// Where a launch attempt stands.
#[derive(Debug, Clone, Copy, PartialEq, Eq, Structural)]
pub enum LaunchPhase {
    /// Waiting to learn whether the container runs already.
    CheckRunning,
    /// Waiting for the status of the earlier engine process.
    CheckProcess,
    /// Waiting to learn whether a stopped container exists.
    CheckStopped,
    /// Waiting to learn whether the stopped container started again.
    Restart,
    /// Waiting to learn whether the engine command started.
    Start,
    /// The attempt is over.
    Done,
}

/// How far a launch attempt is from its end: every step either ends the attempt or
/// moves to a phase of smaller rank, so an attempt ends after at most five events.
pub open spec fn launch_rank(p: LaunchPhase) -> nat {
    match p {
        LaunchPhase::CheckRunning => 4,
        LaunchPhase::CheckProcess => 3,
        LaunchPhase::CheckStopped => 2,
        LaunchPhase::Restart => 1,
        LaunchPhase::Start => 1,
        LaunchPhase::Done => 0,
    }
}

/// A launch attempt of the engine command `command` (trimmed).
pub struct VoicevoxLaunch {
    pub command: String,
    /// The command is a docker command.
    pub docker: bool,
    /// The earlier engine process has ended; its handle is to be dropped.
    pub forget: bool,
    pub phase: LaunchPhase,
}

/// The error shown when the stopped container could not be started again.
pub open spec fn restart_error(e: Seq<char>) -> Seq<char> {
    "VOICEVOX再起動失敗: "@ + e
}

/// The error shown when the engine could not be started.
pub open spec fn start_error(e: Seq<char>) -> Seq<char> {
    "VOICEVOX起動失敗: "@ + e
}

/// The text of a failed start of the engine command.
pub open spec fn spawn_failure_text(docker: bool) -> Seq<char> {
    if docker {
        "Failed to spawn docker command"@
    } else {
        "Failed to spawn voicevox process"@
    }
}

/// The outcome of a failed attempt: the error `e`, the ended process's handle
/// dropped where `forget`, the starting state as given.
pub open spec fn failed(o: LaunchOutcome, forget: bool, launching: Option<bool>, e: Seq<char>) -> bool {
    &&& o.process == (if forget {
        ProcessUpdate::Forget
    } else {
        ProcessUpdate::Keep
    })
    &&& o.docker is None
    &&& o.launching == launching
    &&& o.error matches ErrorUpdate::Show(m) && m@ == e
}

/// The outcome of a started engine: the new process kept, docker as given, the
/// engine starting, the error cleared.
pub open spec fn started(o: LaunchOutcome, docker: bool) -> bool {
    o.process == ProcessUpdate::Started && o.docker == Some(docker) && o.launching == Some(true)
        && o.error is Clear
}

/// `a` runs `docker` with the arguments of `docker ps` for running (or, with
/// `exited`, stopped) containers of the application.
pub open spec fn queries(a: LaunchAction, exited: bool) -> bool {
    a matches LaunchAction::QueryContainer(args) && string_views(args@) == (if exited {
        seq![
            "ps"@,
            "-a"@,
            "--filter"@,
            "name=zundux-voicevox"@,
            "--filter"@,
            "status=exited"@,
            "--format"@,
            "{{.Names}}"@,
        ]
    } else {
        seq!["ps"@, "--filter"@, "name=zundux-voicevox"@, "--format"@, "{{.Names}}"@]
    })
}

/// `cmd` is a docker command (as `is_docker_command` decides).
pub open spec fn is_docker(cmd: Seq<char>) -> bool {
    starts_with(trim_start(cmd), "docker "@) || starts_with(trim_start(cmd), "docker run"@)
}

/// `r` is what checking the engine command `cmd` gives: `docker_launch_command`
/// where `docker`, else `local_launch_command`.
pub open spec fn command_result(cmd: Seq<char>, docker: bool, r: Result<LaunchCommand, LaunchError>) -> bool {
    if docker {
        docker_launch_result(cmd, r)
    } else {
        local_launch_result(cmd, r)
    }
}

/// `a` and `phase` are what starting the engine command `cmd` leads to: the
/// checked command is spawned (its output piped for docker), or the attempt ends
/// with the error that refused the command.
pub open spec fn start_step(
    cmd: Seq<char>,
    docker: bool,
    forget: bool,
    a: LaunchAction,
    phase: LaunchPhase,
) -> bool {
    match a {
        LaunchAction::Spawn { command, piped } => piped == docker && phase == LaunchPhase::Start
            && command_result(cmd, docker, Ok(command)),
        LaunchAction::Finish(o) => phase == LaunchPhase::Done && exists|e: LaunchError|
            #[trigger] command_result(cmd, docker, Err(e)) && failed(
                o,
                forget,
                None,
                start_error(launch_error_text(e)),
            ),
        _ => false,
    }
}

/// `o` changes only the starting state, to `launching`.
pub open spec fn sets_launching(o: LaunchOutcome, launching: bool) -> bool {
    o.process == ProcessUpdate::Keep && o.docker is None && o.launching == Some(launching)
        && o.error is Keep
}

/// `a` ends the attempt with nothing changed.
pub open spec fn ends_unchanged(a: LaunchAction) -> bool {
    a matches LaunchAction::Finish(o) && unchanged(o)
}

/// `a` ends the attempt with only the starting state set to `launching`.
pub open spec fn ends_launching(a: LaunchAction, launching: bool) -> bool {
    a matches LaunchAction::Finish(o) && sets_launching(o, launching)
}

/// `a` ends the attempt with the engine started (`started`).
pub open spec fn ends_started(a: LaunchAction, docker: bool) -> bool {
    a matches LaunchAction::Finish(o) && started(o, docker)
}

/// `a` ends the attempt with the error `e` (`failed`).
pub open spec fn ends_failed(a: LaunchAction, forget: bool, launching: Option<bool>, e: Seq<char>) -> bool {
    a matches LaunchAction::Finish(o) && failed(o, forget, launching, e)
}

/// `a` starts the stopped container again with `docker start`, output piped.
pub open spec fn restarts_container(a: LaunchAction) -> bool {
    a matches LaunchAction::Spawn { command, piped } && piped && command.program@ == "docker"@
        && string_views(command.args@) == seq!["start"@, DOCKER_CONTAINER_NAME@]
}

fn finish_unchanged() -> (a: LaunchAction)
    ensures
        ends_unchanged(a),
{
    LaunchAction::Finish(
        LaunchOutcome {
            process: ProcessUpdate::Keep,
            docker: None,
            launching: None,
            error: ErrorUpdate::Keep,
        },
    )
}

fn failure(forget: bool, launching: Option<bool>, prefix: &str, detail: &str) -> (a: LaunchAction)
    ensures
        ends_failed(a, forget, launching, prefix@ + detail@),
{
    let mut m = String::from_str(prefix);
    m.append(detail);
    LaunchAction::Finish(
        LaunchOutcome {
            process: if forget {
                ProcessUpdate::Forget
            } else {
                ProcessUpdate::Keep
            },
            docker: None,
            launching,
            error: ErrorUpdate::Show(m),
        },
    )
}

fn success(docker: bool) -> (a: LaunchAction)
    ensures
        ends_started(a, docker),
{
    LaunchAction::Finish(
        LaunchOutcome {
            process: ProcessUpdate::Started,
            docker: Some(docker),
            launching: Some(true),
            error: ErrorUpdate::Clear,
        },
    )
}

impl VoicevoxLaunch {
    /// Begins an attempt to start the engine with the configured command `path`.
    /// A blank command starts nothing. A docker command first asks whether the
    /// container runs already; a local one asks about the earlier process.
    pub fn start(path: &str) -> (r: (VoicevoxLaunch, LaunchAction))
        ensures
            (r.1 is Finish) == (r.0.phase == LaunchPhase::Done),
            trim(path@).len() == 0 ==> r.0.phase == LaunchPhase::Done && ends_unchanged(r.1),
            trim(path@).len() > 0 ==> {
                &&& r.0.command@ == trim(path@)
                &&& r.0.docker == is_docker(trim(path@))
                &&& !r.0.forget
                &&& r.0.docker ==> (r.0.phase == LaunchPhase::CheckRunning && queries(r.1, false))
                &&& !r.0.docker ==> (r.0.phase == LaunchPhase::CheckProcess && r.1 is PollProcess)
            },
    {
        let v = chars_of(path);
        let t = trim_chars(v.as_slice());
        let command = string_from_chars(t.as_slice());
        if t.len() == 0 {
            return (
                VoicevoxLaunch { command, docker: false, forget: false, phase: LaunchPhase::Done },
                finish_unchanged(),
            );
        }
        let docker = is_docker_command(command.as_str());
        if docker {
            (
                VoicevoxLaunch { command, docker, forget: false, phase: LaunchPhase::CheckRunning },
                LaunchAction::QueryContainer(docker_ps_args(false)),
            )
        } else {
            (
                VoicevoxLaunch { command, docker, forget: false, phase: LaunchPhase::CheckProcess },
                LaunchAction::PollProcess,
            )
        }
    }

    fn start_command(&mut self) -> (a: LaunchAction)
        ensures
            final(self).command == old(self).command,
            final(self).docker == old(self).docker,
            final(self).forget == old(self).forget,
            start_step(
                old(self).command@,
                old(self).docker,
                old(self).forget,
                a,
                final(self).phase,
            ),
    {
        let r = if self.docker {
            docker_launch_command(self.command.as_str())
        } else {
            local_launch_command(self.command.as_str())
        };
        match r {
            Ok(command) => {
                self.phase = LaunchPhase::Start;
                LaunchAction::Spawn { command, piped: self.docker }
            },
            Err(e) => {
                self.phase = LaunchPhase::Done;
                let text = e.message();
                let a = failure(self.forget, None, "VOICEVOX起動失敗: ", text.as_str());
                proof {
                    assert(command_result(self.command@, self.docker, Err(e)));
                }
                a
            },
        }
    }

    /// Takes in what the application learnt or did for the last action and returns
    /// the next one.
    ///
    /// A running container means the engine is starting already. A running earlier
    /// process ends the attempt with nothing changed; an ended one is forgotten. A
    /// stopped container is started again (`docker start`); otherwise the checked
    /// command is spawned. A spawned engine is kept and marked starting, with the
    /// error cleared; a failure shows an error (a failed restart also ends the
    /// starting state). An event that does not answer the last action ends the
    /// attempt with nothing changed.
    pub fn advance(&mut self, event: LaunchEvent) -> (a: LaunchAction)
        ensures
            final(self).command == old(self).command,
            final(self).docker == old(self).docker,
            (a is Finish) == (final(self).phase == LaunchPhase::Done),
            final(self).phase == LaunchPhase::Done || launch_rank(final(self).phase) < launch_rank(
                old(self).phase,
            ),
            match (old(self).phase, event) {
                (LaunchPhase::CheckRunning, LaunchEvent::Listed(true)) => final(self).phase
                    == LaunchPhase::Done && ends_launching(a, true),
                (LaunchPhase::CheckRunning, LaunchEvent::Listed(false)) => final(self).phase
                    == LaunchPhase::CheckProcess && a is PollProcess,
                (LaunchPhase::CheckProcess, LaunchEvent::Process(ProcessStatus::Running)) =>
                    final(self).phase == LaunchPhase::Done && ends_unchanged(a),
                (LaunchPhase::CheckProcess, LaunchEvent::Process(s)) => {
                    &&& final(self).forget == (s == ProcessStatus::Exited)
                    &&& old(self).docker ==> (final(self).phase == LaunchPhase::CheckStopped
                        && queries(a, true))
                    &&& !old(self).docker ==> start_step(
                        old(self).command@,
                        false,
                        final(self).forget,
                        a,
                        final(self).phase,
                    )
                },
                (LaunchPhase::CheckStopped, LaunchEvent::Listed(true)) => final(self).phase
                    == LaunchPhase::Restart && restarts_container(a),
                (LaunchPhase::CheckStopped, LaunchEvent::Listed(false)) => start_step(
                    old(self).command@,
                    old(self).docker,
                    old(self).forget,
                    a,
                    final(self).phase,
                ),
                (LaunchPhase::Restart, LaunchEvent::Spawned(Ok(()))) => final(self).phase
                    == LaunchPhase::Done && ends_started(a, true),
                (LaunchPhase::Restart, LaunchEvent::Spawned(Err(e))) => final(self).phase
                    == LaunchPhase::Done && ends_failed(
                    a,
                    old(self).forget,
                    Some(false),
                    restart_error(e@),
                ),
                (LaunchPhase::Start, LaunchEvent::Spawned(Ok(()))) => final(self).phase
                    == LaunchPhase::Done && ends_started(a, old(self).docker),
                (LaunchPhase::Start, LaunchEvent::Spawned(Err(_))) => final(self).phase
                    == LaunchPhase::Done && ends_failed(
                    a,
                    old(self).forget,
                    None,
                    start_error(spawn_failure_text(old(self).docker)),
                ),
                _ => final(self).phase == LaunchPhase::Done && ends_unchanged(a),
            },
    {
        match (self.phase, event) {
            (LaunchPhase::CheckRunning, LaunchEvent::Listed(true)) => {
                self.phase = LaunchPhase::Done;
                LaunchAction::Finish(
                    LaunchOutcome {
                        process: ProcessUpdate::Keep,
                        docker: None,
                        launching: Some(true),
                        error: ErrorUpdate::Keep,
                    },
                )
            },
            (LaunchPhase::CheckRunning, LaunchEvent::Listed(false)) => {
                self.phase = LaunchPhase::CheckProcess;
                LaunchAction::PollProcess
            },
            (LaunchPhase::CheckProcess, LaunchEvent::Process(s)) => {
                if s == ProcessStatus::Running {
                    self.phase = LaunchPhase::Done;
                    return finish_unchanged();
                }
                self.forget = s == ProcessStatus::Exited;
                if self.docker {
                    self.phase = LaunchPhase::CheckStopped;
                    LaunchAction::QueryContainer(docker_ps_args(true))
                } else {
                    self.start_command()
                }
            },
            (LaunchPhase::CheckStopped, LaunchEvent::Listed(true)) => {
                self.phase = LaunchPhase::Restart;
                let mut args: Vec<String> = Vec::new();
                args.push(String::from_str("start"));
                args.push(String::from_str(DOCKER_CONTAINER_NAME));
                proof {
                    assert(string_views(args@) =~= seq!["start"@, DOCKER_CONTAINER_NAME@]);
                }
                LaunchAction::Spawn {
                    command: LaunchCommand { program: String::from_str("docker"), args },
                    piped: true,
                }
            },
            (LaunchPhase::CheckStopped, LaunchEvent::Listed(false)) => self.start_command(),
            (LaunchPhase::Restart, LaunchEvent::Spawned(Ok(()))) => {
                self.phase = LaunchPhase::Done;
                success(true)
            },
            (LaunchPhase::Restart, LaunchEvent::Spawned(Err(e))) => {
                self.phase = LaunchPhase::Done;
                failure(self.forget, Some(false), "VOICEVOX再起動失敗: ", e.as_str())
            },
            (LaunchPhase::Start, LaunchEvent::Spawned(Ok(()))) => {
                self.phase = LaunchPhase::Done;
                success(self.docker)
            },
            (LaunchPhase::Start, LaunchEvent::Spawned(Err(_))) => {
                self.phase = LaunchPhase::Done;
                let text = if self.docker {
                    "Failed to spawn docker command"
                } else {
                    "Failed to spawn voicevox process"
                };
                failure(self.forget, None, "VOICEVOX起動失敗: ", text)
            },
            _ => {
                self.phase = LaunchPhase::Done;
                finish_unchanged()
            },
        }
    }
}

} // verus!
