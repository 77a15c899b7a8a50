//! Talking to PulseAudio through `pactl`: command results, the steps of multi-command
//! operations, and reading what `pactl` prints.
//!
//! Operations that need several `pactl` calls are written as small state machines:
//! each call of `advance` takes what the previous command came to and answers with
//! the next command to run, or with the operation's result. The caller runs the
//! commands.
use vstd::prelude::*;
use crate::launch::string_views;
use crate::text::{
    chars_of, contains, contains_chars, first_word, first_word_chars, lines, lines_of,
    parse_u32, parse_u32_chars, string_from_chars, trim, trim_chars, views,
};

verus! {

/// The output of a command that ran to its end.
pub struct CommandOutput {
    /// Whether it exited successfully.
    pub success: bool,
    /// Its standard output, decoded as UTF-8 (invalid sequences replaced).
    pub stdout: String,
    /// Its standard error, decoded likewise.
    pub stderr: String,
}

/// What came of running a command.
pub enum CommandOutcome {
    /// The command could not be started.
    NotStarted,
    /// The command ran to its end.
    Finished(CommandOutput),
}

/// Why an operation on PulseAudio modules failed.
pub enum PactlError {
    /// A `pactl` command could not be started; the text says what it was for.
    NotStarted(String),
    /// Loading the null sink failed; `pactl`'s standard error.
    NullSinkFailed(String),
    /// Loading the microphone loopback failed; `pactl`'s standard error, trimmed.
    LoopbackFailed(String),
    /// Loading the combined sink failed; `pactl`'s standard error.
    CombineSinkFailed(String),
    /// `pactl` did not print the id of the combined sink it loaded.
    CombineSinkIdMissing,
    /// Moving the application's stream failed; `pactl`'s standard error.
    RedirectFailed(String),
}

impl PactlError {
    /// A human-readable description of the error.
    pub fn message(&self) -> (m: String)
        ensures
            m@ == (match self {
                PactlError::NotStarted(what) => what@,
                PactlError::NullSinkFailed(e) => "pactl load-module (null-sink) failed: "@ + e@,
                PactlError::LoopbackFailed(e) => "module-loopback failed: "@ + e@,
                PactlError::CombineSinkFailed(e) => "Failed to create combine-sink: "@ + e@,
                PactlError::CombineSinkIdMissing => "Failed to parse combine-sink module ID"@,
                PactlError::RedirectFailed(e) => "Failed to redirect audio: "@ + e@,
            }),
    {
        match self {
            PactlError::NotStarted(what) => what.clone(),
            PactlError::NullSinkFailed(e) => {
                let mut m = String::from_str("pactl load-module (null-sink) failed: ");
                m.append(e.as_str());
                m
            },
            PactlError::LoopbackFailed(e) => {
                let mut m = String::from_str("module-loopback failed: ");
                m.append(e.as_str());
                m
            },
            PactlError::CombineSinkFailed(e) => {
                let mut m = String::from_str("Failed to create combine-sink: ");
                m.append(e.as_str());
                m
            },
            PactlError::CombineSinkIdMissing => String::from_str(
                "Failed to parse combine-sink module ID",
            ),
            PactlError::RedirectFailed(e) => {
                let mut m = String::from_str("Failed to redirect audio: ");
                m.append(e.as_str());
                m
            },
        }
    }
}

/// The next thing to do in an operation.
pub enum PactlStep {
    /// Run `pactl` with these arguments and report what came of it.
    Run(Vec<String>),
    /// The operation is over, with this result.
    Done(Result<(), PactlError>),
}

/// `step` runs `pactl` with arguments `args`.
pub open spec fn runs(step: PactlStep, args: Seq<Seq<char>>) -> bool {
    step matches PactlStep::Run(a) && string_views(a@) == args
}

/// `step` ends the operation successfully.
pub open spec fn succeeds(step: PactlStep) -> bool {
    step matches PactlStep::Done(Ok(()))
}

/// `step` ends the operation because a command could not be started for `what`.
pub open spec fn not_started(step: PactlStep, what: Seq<char>) -> bool {
    step matches PactlStep::Done(Err(PactlError::NotStarted(m))) && m@ == what
}

/// The module id printed by `pactl load-module`: the trimmed output read as a number.
pub open spec fn module_id(stdout: Seq<char>) -> Option<u32> {
    parse_u32(trim(stdout))
}

/// Some line of `listing` contains `needle`.
pub open spec fn listing_has(listing: Seq<char>, needle: Seq<char>) -> bool {
    exists|i: int| 0 <= i < lines(listing).len() && contains(#[trigger] lines(listing)[i], needle)
}

/// `pactl unload-module <id>`.
pub open spec fn unload_args(id: u32) -> Seq<Seq<char>> {
    seq!["unload-module"@, crate::text::decimal(id as nat)]
}

/// Reads the module id that `pactl load-module` printed.
pub fn parse_module_id(stdout: &str) -> (r: Option<u32>)
    ensures
        r == module_id(stdout@),
{
    let v = chars_of(stdout);
    let t = trim_chars(v.as_slice());
    parse_u32_chars(t.as_slice())
}

/// Whether some line of `listing` contains `needle`.
pub fn listing_contains(listing: &str, needle: &str) -> (b: bool)
    ensures
        b == listing_has(listing@, needle@),
{
    let v = chars_of(listing);
    let n = chars_of(needle);
    let ls = lines_of(v.as_slice());
    let ghost lv = views(ls@);
    let mut i: usize = 0;
    while i < ls.len()
        invariant
            0 <= i <= ls.len(),
            lv == views(ls@),
            lv == lines(listing@),
            n@ == needle@,
            forall|j: int| 0 <= j < i ==> !contains(#[trigger] lv[j], needle@),
        decreases ls.len() - i,
    {
        if contains_chars(ls[i].as_slice(), n.as_slice()) {
            assert(contains(lv[i as int], needle@));
            return true;
        }
        i = i + 1;
    }
    false
}

/// Builds an argument list from string slices.
pub fn args_of(parts: &[&str]) -> (r: Vec<String>)
    ensures
        r@.len() == parts@.len(),
        forall|i: int| 0 <= i < parts@.len() ==> (#[trigger] r@[i])@ == parts@[i]@,
{
    let mut r: Vec<String> = Vec::new();
    let mut i: usize = 0;
    while i < parts.len()
        invariant
            0 <= i <= parts.len(),
            r@.len() == i,
            forall|j: int| 0 <= j < i ==> (#[trigger] r@[j])@ == parts@[j]@,
        decreases parts.len() - i,
    {
        r.push(String::from_str(parts[i]));
        i = i + 1;
    }
    r
}

/// `pactl unload-module <id>`.
pub fn unload_command(id: u32) -> (r: Vec<String>)
    ensures
        string_views(r@) == unload_args(id),
{
    let mut r: Vec<String> = Vec::new();
    r.push(String::from_str("unload-module"));
    r.push(crate::text::u32_to_string(id));
    assert(string_views(r@) =~= unload_args(id));
    r
}

/// `pactl unload-module <id>`, with the id as listed by `pactl`.
pub fn unload_listed_command(id: &str) -> (r: Vec<String>)
    ensures
        string_views(r@) == seq!["unload-module"@, id@],
{
    let mut r: Vec<String> = Vec::new();
    r.push(String::from_str("unload-module"));
    r.push(String::from_str(id));
    assert(string_views(r@) =~= seq!["unload-module"@, id@]);
    r
}

/// `prefix` followed by `s`.
pub fn prefixed(prefix: &str, s: &str) -> (r: String)
    ensures
        r@ == prefix@ + s@,
{
    let mut r = String::from_str(prefix);
    r.append(s);
    r
}

/// An operation's end caused by a command that could not be started.
pub fn not_started_step(what: &str) -> (s: PactlStep)
    ensures
        not_started(s, what@),
{
    PactlStep::Done(Err(PactlError::NotStarted(String::from_str(what))))
}

/// Line-wise first words of a `pactl list short modules` listing, for the lines that
/// contain both `kind` and `target`.
pub open spec fn matching_module_ids(listing: Seq<char>, kind: Seq<char>, target: Seq<char>) -> Seq<
    Seq<char>,
>
{
    matching_ids_of(lines(listing), kind, target)
}

/// For each line holding both `kind` and `target`, its first word (when it has one).
pub open spec fn matching_ids_of(ls: Seq<Seq<char>>, kind: Seq<char>, target: Seq<char>) -> Seq<
    Seq<char>,
>
    decreases ls.len(),
{
    if ls.len() == 0 {
        seq![]
    } else {
        let rest = matching_ids_of(ls.drop_last(), kind, target);
        let l = ls.last();
        if contains(l, kind) && contains(l, target) && first_word(l) is Some {
            rest.push(first_word(l)->0)
        } else {
            rest
        }
    }
}

/// The first words of the lines of `listing` that contain both `kind` and `target`.
pub fn module_ids_matching(listing: &str, kind: &str, target: &str) -> (r: Vec<String>)
    ensures
        string_views(r@) == matching_module_ids(listing@, kind@, target@),
{
    let v = chars_of(listing);
    let k = chars_of(kind);
    let t = chars_of(target);
    let ls = lines_of(v.as_slice());
    let ghost lv = views(ls@);
    let mut r: Vec<String> = Vec::new();
    let mut i: usize = 0;
    while i < ls.len()
        invariant
            0 <= i <= ls.len(),
            lv == views(ls@),
            lv == lines(listing@),
            k@ == kind@,
            t@ == target@,
            string_views(r@) == matching_ids_of(lv.take(i as int), kind@, target@),
        decreases ls.len() - i,
    {
        assert(lv.take(i + 1).drop_last() =~= lv.take(i as int));
        let line = ls[i].as_slice();
        if contains_chars(line, k.as_slice()) && contains_chars(line, t.as_slice()) {
            match first_word_chars(line) {
                Some(w) => {
                    let ghost before = string_views(r@);
                    r.push(string_from_chars(w.as_slice()));
                    assert(string_views(r@) =~= before.push(w@));
                },
                None => {},
            }
        }
        i = i + 1;
    }
    assert(lv.take(ls.len() as int) =~= lv);
    r
}

} // verus!
