//! Checking and assembling the command that starts a VOICEVOX engine,
//! either a local executable or a `docker run ...` line.
use vstd::prelude::*;
use crate::text::{
    chars_of, contains, occurs_at, contains_chars, is_ws, lemma_trim_start_skip, starts_with, starts_with_chars,
    str_eq, sub_chars, trim_start, trim_start_chars,
};

verus! {

// ---------------------------------------------------------------------------
// shell_words
// ---------------------------------------------------------------------------

/// The error type of `shell_words::split`, declared for use in signatures.
#[verifier::external_type_specification]
#[verifier::external_body]
pub struct ExShellWordsParseError(shell_words::ParseError);

/// The words that `shell_words::split` makes of a command line, or `None` where it
/// refuses the line (an unterminated quote).
pub uninterp spec fn shell_split(s: Seq<char>) -> Option<Seq<Seq<char>>>;

/// The views of a sequence of strings.
pub open spec fn string_views(v: Seq<String>) -> Seq<Seq<char>> {
    v.map_values(|s: String| s@)
}

/// Calls `shell_words::split`: POSIX-shell-like word splitting with quotes,
/// backslash escapes and comments. Its result is named `shell_split`; nothing more
/// is claimed of it.
#[verifier::external_body]
pub(crate) fn split_words(s: &str) -> (r: Result<Vec<String>, shell_words::ParseError>)
    ensures
        r is Ok <==> shell_split(s@) is Some,
        r matches Ok(words) ==> string_views(words@) == shell_split(s@)->0,
{
    shell_words::split(s)
}

/// The text of a `shell_words::ParseError` (its `Display`), which the crate's source
/// writes as the fixed words "missing closing quote".
#[verifier::external_body]
fn parse_error_text(e: &shell_words::ParseError) -> (r: String)
    ensures
        r@ == "missing closing quote"@,
{
    e.to_string()
}

// ---------------------------------------------------------------------------
// Specifications
// ---------------------------------------------------------------------------

/// Name given to the container that the application starts.
pub const DOCKER_CONTAINER_NAME: &'static str = "zundux-voicevox";

/// The characters that a launch command may not contain.
pub open spec fn is_metachar(c: char) -> bool {
    c == ';' || c == '|' || c == '&' || c == '$' || c == '`' || c == '(' || c == ')' || c == '{'
        || c == '}' || c == '<' || c == '>'
}

/// `w` contains a shell metacharacter.
pub open spec fn has_metachar(w: Seq<char>) -> bool {
    exists|i: int| 0 <= i < w.len() && is_metachar(#[trigger] w[i])
}

/// Index of the first word holding a metacharacter, or `words.len()`.
pub open spec fn first_metachar_word(words: Seq<Seq<char>>) -> nat
    decreases words.len(),
{
    if words.len() == 0 {
        0
    } else if has_metachar(words[0]) {
        0
    } else {
        1 + first_metachar_word(words.drop_first())
    }
}

/// The `docker run` options that take the next word as their value.
pub open spec fn takes_value(a: Seq<char>) -> bool {
    ||| a == "-p"@
    ||| a == "--publish"@
    ||| a == "-v"@
    ||| a == "--volume"@
    ||| a == "-e"@
    ||| a == "--env"@
    ||| a == "--name"@
    ||| a == "--gpus"@
    ||| a == "--network"@
    ||| a == "--platform"@
    ||| a == "-w"@
    ||| a == "--workdir"@
    ||| a == "-u"@
    ||| a == "--user"@
    ||| a == "--entrypoint"@
    ||| a == "--mount"@
    ||| a == "-l"@
    ||| a == "--label"@
    ||| a == "--memory"@
    ||| a == "-m"@
}

/// Index of the first `run` in `args`, or `args.len()`.
pub open spec fn run_index(args: Seq<Seq<char>>) -> nat
    decreases args.len(),
{
    if args.len() == 0 {
        0
    } else if args[0] == "run"@ {
        0
    } else {
        1 + run_index(args.drop_first())
    }
}

/// Starting at `i`, skip options (and the values of those that take one); the result
/// is the index of the first positional word, the image.
pub open spec fn image_index_from(args: Seq<Seq<char>>, i: int) -> int
    decreases args.len() + 1 - i,
{
    if i < 0 || i >= args.len() {
        i
    } else if starts_with(args[i], "-"@) {
        if takes_value(args[i]) && !contains(args[i], "="@) {
            image_index_from(args, i + 2)
        } else {
            image_index_from(args, i + 1)
        }
    } else {
        i
    }
}

/// Where the image name stands among the arguments after the program name: the
/// options are searched from just after the first `run`, or from the start when
/// there is no `run`.
pub open spec fn image_index(args: Seq<Seq<char>>) -> int {
    let r = run_index(args);
    image_index_from(args, if r < args.len() { r as int + 1 } else { 0 })
}

/// The arguments with `--name zundux-voicevox -d` inserted right before the image.
pub open spec fn with_container_flags(args: Seq<Seq<char>>) -> Seq<Seq<char>> {
    let k = image_index(args);
    args.take(k) + seq!["--name"@, DOCKER_CONTAINER_NAME@, "-d"@] + args.skip(k)
}

// ---------------------------------------------------------------------------
// Types
// ---------------------------------------------------------------------------

/// A program and its arguments, ready to be spawned without a shell.
pub struct LaunchCommand {
    pub program: String,
    pub args: Vec<String>,
}

/// Why a launch command was refused.
pub enum LaunchError {
    /// The docker command line could not be split into words; the parser's message.
    DockerUnparsable(String),
    /// The docker command line has no words.
    DockerEmpty,
    /// A docker command word holds a shell metacharacter.
    DockerMetacharacter(String),
    /// A value-taking option stands last, with no value after it.
    DockerMissingOptionValue,
    /// The local command line could not be split into words; the parser's message.
    LocalUnparsable(String),
    /// The local command line has no words.
    LocalEmpty,
    /// A local command word holds a shell metacharacter.
    LocalMetacharacter(String),
    /// The local command has arguments besides the executable.
    LocalArguments,
}

/// The description of a refused launch command.
pub open spec fn launch_error_text(e: LaunchError) -> Seq<char> {
    match e {
        LaunchError::DockerUnparsable(e) => "Failed to parse docker command: "@ + e@,
        LaunchError::DockerEmpty => "Empty docker command"@,
        LaunchError::DockerMetacharacter(w) =>
            "Shell metacharacter detected in docker command argument: "@ + w@,
        LaunchError::DockerMissingOptionValue => "Docker option is missing its value"@,
        LaunchError::LocalUnparsable(e) => "Failed to parse voicevox command: "@ + e@,
        LaunchError::LocalEmpty => "Empty voicevox command"@,
        LaunchError::LocalMetacharacter(w) =>
            "Shell metacharacter detected in voicevox command: "@ + w@,
        LaunchError::LocalArguments =>
            "Local VOICEVOX launch accepts executable path only (no arguments allowed)"@,
    }
}

impl LaunchError {
    /// A human-readable description of the error.
    pub fn message(&self) -> (m: String)
        ensures
            m@ == launch_error_text(*self),
    {
        match self {
            LaunchError::DockerUnparsable(e) => {
                let mut m = String::from_str("Failed to parse docker command: ");
                m.append(e.as_str());
                m
            },
            LaunchError::DockerEmpty => String::from_str("Empty docker command"),
            LaunchError::DockerMetacharacter(w) => {
                let mut m = String::from_str(
                    "Shell metacharacter detected in docker command argument: ",
                );
                m.append(w.as_str());
                m
            },
            LaunchError::DockerMissingOptionValue => String::from_str(
                "Docker option is missing its value",
            ),
            LaunchError::LocalUnparsable(e) => {
                let mut m = String::from_str("Failed to parse voicevox command: ");
                m.append(e.as_str());
                m
            },
            LaunchError::LocalEmpty => String::from_str("Empty voicevox command"),
            LaunchError::LocalMetacharacter(w) => {
                let mut m = String::from_str("Shell metacharacter detected in voicevox command: ");
                m.append(w.as_str());
                m
            },
            LaunchError::LocalArguments => String::from_str(
                "Local VOICEVOX launch accepts executable path only (no arguments allowed)",
            ),
        }
    }
}

// ---------------------------------------------------------------------------
// Executable code
// ---------------------------------------------------------------------------

/// Whether `cmd`, less leading whitespace, starts a docker command.
pub fn is_docker_command(cmd: &str) -> (b: bool)
    ensures
        b == (starts_with(trim_start(cmd@), "docker "@) || starts_with(
            trim_start(cmd@),
            "docker run"@,
        )),
{
    let v = chars_of(cmd);
    let t = trim_start_chars(v.as_slice());
    let p1 = chars_of("docker ");
    let p2 = chars_of("docker run");
    starts_with_chars(t.as_slice(), p1.as_slice()) || starts_with_chars(t.as_slice(), p2.as_slice())
}

/// Whether a word contains a shell metacharacter.
pub fn word_has_metachar(w: &str) -> (b: bool)
    ensures
        b == has_metachar(w@),
{
    let v = chars_of(w);
    let mut i: usize = 0;
    while i < v.len()
        invariant
            0 <= i <= v.len(),
            v@ == w@,
            forall|j: int| 0 <= j < i ==> !is_metachar(#[trigger] v@[j]),
        decreases v.len() - i,
    {
        let c = v[i];
        if c == ';' || c == '|' || c == '&' || c == '$' || c == '`' || c == '(' || c == ')' || c
            == '{' || c == '}' || c == '<' || c == '>' {
            assert(is_metachar(w@[i as int]));
            return true;
        }
        i = i + 1;
    }
    false
}

/// Index of the first word holding a metacharacter, or `words.len()`.
fn find_metachar_word(words: &Vec<String>) -> (k: usize)
    ensures
        k == first_metachar_word(string_views(words@)),
        k <= words.len(),
{
    let ghost ws = string_views(words@);
    let mut i: usize = 0;
    while i < words.len()
        invariant
            0 <= i <= words.len(),
            ws == string_views(words@),
            forall|j: int| 0 <= j < i ==> !has_metachar(#[trigger] ws[j]),
        decreases words.len() - i,
    {
        if word_has_metachar(words[i].as_str()) {
            proof {
                lemma_first_metachar_word(ws, i as int);
            }
            return i;
        }
        i = i + 1;
    }
    proof {
        lemma_first_metachar_word(ws, i as int);
    }
    i
}

proof fn lemma_first_metachar_word(ws: Seq<Seq<char>>, k: int)
    requires
        0 <= k <= ws.len(),
        forall|j: int| 0 <= j < k ==> !has_metachar(#[trigger] ws[j]),
        k == ws.len() || has_metachar(ws[k]),
    ensures
        first_metachar_word(ws) == k,
    decreases k,
{
    if k > 0 {
        lemma_first_metachar_word(ws.drop_first(), k - 1);
    }
}

/// Whether a docker option takes the next word as its value.
pub fn option_takes_value(a: &str) -> (b: bool)
    ensures
        b == takes_value(a@),
{
    str_eq(a, "-p") || str_eq(a, "--publish") || str_eq(a, "-v") || str_eq(a, "--volume")
        || str_eq(a, "-e") || str_eq(a, "--env") || str_eq(a, "--name") || str_eq(a, "--gpus")
        || str_eq(a, "--network") || str_eq(a, "--platform") || str_eq(a, "-w") || str_eq(
        a,
        "--workdir",
    ) || str_eq(a, "-u") || str_eq(a, "--user") || str_eq(a, "--entrypoint") || str_eq(
        a,
        "--mount",
    ) || str_eq(a, "-l") || str_eq(a, "--label") || str_eq(a, "--memory") || str_eq(a, "-m")
}

/// Index of the first `run`, or `args.len()`.
fn find_run(args: &Vec<String>) -> (k: usize)
    ensures
        k == run_index(string_views(args@)),
{
    let ghost ws = string_views(args@);
    let mut i: usize = 0;
    while i < args.len()
        invariant
            0 <= i <= args.len(),
            ws == string_views(args@),
            forall|j: int| 0 <= j < i ==> ws[j] != "run"@,
        decreases args.len() - i,
    {
        if str_eq(args[i].as_str(), "run") {
            proof {
                lemma_run_index(ws, i as int);
            }
            return i;
        }
        i = i + 1;
    }
    proof {
        lemma_run_index(ws, i as int);
    }
    i
}

proof fn lemma_run_index(ws: Seq<Seq<char>>, k: int)
    requires
        0 <= k <= ws.len(),
        forall|j: int| 0 <= j < k ==> ws[j] != "run"@,
        k == ws.len() || ws[k] == "run"@,
    ensures
        run_index(ws) == k,
    decreases k,
{
    if k > 0 {
        lemma_run_index(ws.drop_first(), k - 1);
    }
}

/// Where the image name stands among `args` (see `image_index`); `None` when a
/// value-taking option stands last, which puts that position one past the end.
pub fn find_image_index(args: &Vec<String>) -> (k: Option<usize>)
    ensures
        k matches Some(k) ==> k as int == image_index(string_views(args@)) && k <= args.len(),
        k is None ==> image_index(string_views(args@)) == args.len() + 1,
{
    let ghost ws = string_views(args@);
    let r = find_run(args);
    let mut i: usize = if r < args.len() {
        r + 1
    } else {
        0
    };
    let dash = chars_of("-");
    let eq = chars_of("=");
    while i < args.len()
        invariant
            i <= args.len(),
            ws == string_views(args@),
            dash@ == "-"@,
            eq@ == "="@,
            image_index(ws) == image_index_from(ws, i as int),
        decreases args.len() - i,
    {
        let a = chars_of(args[i].as_str());
        assert(a@ == ws[i as int]);
        if starts_with_chars(a.as_slice(), dash.as_slice()) {
            if option_takes_value(args[i].as_str()) && !contains_chars(a.as_slice(), eq.as_slice()) {
                if i + 1 >= args.len() {
                    assert(image_index_from(ws, i + 2) == i + 2);
                    return None;
                }
                i = i + 2;
            } else {
                i = i + 1;
            }
        } else {
            return Some(i);
        }
    }
    Some(i)
}

/// The arguments with `--name zundux-voicevox -d` inserted right before the image.
pub fn insert_container_flags(args: Vec<String>) -> (r: Vec<String>)
    requires
        image_index(string_views(args@)) <= args.len(),
    ensures
        string_views(r@) == with_container_flags(string_views(args@)),
{
    let ghost ws = string_views(args@);
    let k = match find_image_index(&args) {
        Some(k) => k,
        None => args.len(),
    };
    let mut r = args;
    r.insert(k, String::from_str("-d"));
    r.insert(k, String::from_str(DOCKER_CONTAINER_NAME));
    r.insert(k, String::from_str("--name"));
    proof {
        let want = with_container_flags(ws);
        assert(string_views(r@) =~= want);
    }
    r
}

/// `r` is what `docker_launch_command` gives for the command line `path`.
pub open spec fn docker_launch_result(path: Seq<char>, r: Result<LaunchCommand, LaunchError>) -> bool {
    match shell_split(path) {
        None => (r matches Err(LaunchError::DockerUnparsable(e)) && e@
            == "missing closing quote"@),
        Some(words) => {
            let m = first_metachar_word(words);
            let args = words.skip(1);
            if words.len() == 0 {
                r matches Err(LaunchError::DockerEmpty)
            } else if m < words.len() {
                r matches Err(LaunchError::DockerMetacharacter(w)) && w@ == words[m as int]
            } else if image_index(args) > args.len() {
                r matches Err(LaunchError::DockerMissingOptionValue)
            } else {
                r matches Ok(cmd) && cmd.program@ == words[0] && string_views(cmd.args@)
                    == with_container_flags(args)
            }
        },
    }
}

/// Checks a docker command line and assembles the command that starts the
/// container under the application's container name, detached.
///
/// The line is split into words; it is refused when it cannot be split, has no
/// words, or a word holds a shell metacharacter (the first such word is named).
/// Otherwise the program is the first word and the arguments the remaining words with
/// `--name zundux-voicevox -d` inserted right before the image, except where a
/// value-taking option stands last with nothing after it.
pub fn docker_launch_command(path: &str) -> (r: Result<LaunchCommand, LaunchError>)
    ensures
        docker_launch_result(path@, r),
{
    let words = match split_words(path) {
        Ok(w) => w,
        Err(e) => {
            return Err(LaunchError::DockerUnparsable(parse_error_text(&e)));
        },
    };
    let ghost ws = string_views(words@);
    if words.len() == 0 {
        return Err(LaunchError::DockerEmpty);
    }
    let m = find_metachar_word(&words);
    if m < words.len() {
        return Err(LaunchError::DockerMetacharacter(words[m].clone()));
    }
    let mut args: Vec<String> = Vec::new();
    let mut i: usize = 1;
    while i < words.len()
        invariant
            1 <= i <= words.len(),
            ws == string_views(words@),
            string_views(args@) == ws.subrange(1, i as int),
        decreases words.len() - i,
    {
        let ghost before = string_views(args@);
        args.push(words[i].clone());
        assert(string_views(args@) =~= before.push(ws[i as int]));
        assert(ws.subrange(1, i + 1) =~= ws.subrange(1, i as int).push(ws[i as int]));
        i = i + 1;
    }
    assert(ws.subrange(1, words.len() as int) =~= ws.skip(1));
    if find_image_index(&args).is_none() {
        return Err(LaunchError::DockerMissingOptionValue);
    }
    let program = words[0].clone();
    let full = insert_container_flags(args);
    Ok(LaunchCommand { program, args: full })
}

/// `r` is what `local_launch_command` gives for the command line `path`.
pub open spec fn local_launch_result(path: Seq<char>, r: Result<LaunchCommand, LaunchError>) -> bool {
    match shell_split(path) {
        None => (r matches Err(LaunchError::LocalUnparsable(e)) && e@
            == "missing closing quote"@),
        Some(words) => {
            let m = first_metachar_word(words);
            if words.len() == 0 {
                r matches Err(LaunchError::LocalEmpty)
            } else if m < words.len() {
                r matches Err(LaunchError::LocalMetacharacter(w)) && w@ == words[m as int]
            } else if words.len() != 1 {
                r matches Err(LaunchError::LocalArguments)
            } else {
                r matches Ok(cmd) && cmd.program@ == words[0] && cmd.args@.len() == 0
            }
        },
    }
}

/// Checks a local VOICEVOX command line: it must split into exactly one word, the
/// executable, with no shell metacharacter in it.
pub fn local_launch_command(path: &str) -> (r: Result<LaunchCommand, LaunchError>)
    ensures
        local_launch_result(path@, r),
{
    let words = match split_words(path) {
        Ok(w) => w,
        Err(e) => {
            return Err(LaunchError::LocalUnparsable(parse_error_text(&e)));
        },
    };
    if words.len() == 0 {
        return Err(LaunchError::LocalEmpty);
    }
    let m = find_metachar_word(&words);
    if m < words.len() {
        return Err(LaunchError::LocalMetacharacter(words[m].clone()));
    }
    if words.len() != 1 {
        return Err(LaunchError::LocalArguments);
    }
    Ok(LaunchCommand { program: words[0].clone(), args: Vec::new() })
}

// ---------------------------------------------------------------------------
// Laws
// ---------------------------------------------------------------------------

/// docker's own list of `docker run` options that take the next word as their value
/// (`-p`/`--publish`, `-v`/`--volume`, `-e`/`--env`, `--name`, `--gpus`, `--network`,
/// `--platform`, `-w`/`--workdir`, `-u`/`--user`, `--entrypoint`, `--mount`,
/// `-l`/`--label`, `-m`/`--memory`).
pub open spec fn docker_value_option(o: Seq<char>) -> bool {
        ||| o == "-p"@
        ||| o == "--publish"@
        ||| o == "-v"@
        ||| o == "--volume"@
        ||| o == "-e"@
        ||| o == "--env"@
        ||| o == "--name"@
        ||| o == "--gpus"@
        ||| o == "--network"@
        ||| o == "--platform"@
        ||| o == "-w"@
        ||| o == "--workdir"@
        ||| o == "-u"@
        ||| o == "--user"@
        ||| o == "--entrypoint"@
        ||| o == "--mount"@
        ||| o == "-l"@
        ||| o == "--label"@
        ||| o == "--memory"@
        ||| o == "-m"@
}

proof fn lemma_value_option_shape(o: Seq<char>)
    requires
        docker_value_option(o),
    ensures
        starts_with(o, "-"@),
        !contains(o, "="@),
{
    reveal_strlit("-");
    reveal_strlit("=");
        reveal_strlit("-p");
        reveal_strlit("--publish");
        reveal_strlit("-v");
        reveal_strlit("--volume");
        reveal_strlit("-e");
        reveal_strlit("--env");
        reveal_strlit("--name");
        reveal_strlit("--gpus");
        reveal_strlit("--network");
        reveal_strlit("--platform");
        reveal_strlit("-w");
        reveal_strlit("--workdir");
        reveal_strlit("-u");
        reveal_strlit("--user");
        reveal_strlit("--entrypoint");
        reveal_strlit("--mount");
        reveal_strlit("-l");
        reveal_strlit("--label");
        reveal_strlit("--memory");
        reveal_strlit("-m");
    assert(o.take(1) =~= "-"@);
    assert forall|i: int| !occurs_at(o, "="@, i) by {
        if occurs_at(o, "="@, i) {
            assert(o.subrange(i, i + 1)[0] == o[i]);
        }
    }
}

/// A value-taking docker option written without `=` consumes the next word, whatever
/// that word is: the image is looked for only after it.
pub proof fn lemma_value_option_consumes_next(args: Seq<Seq<char>>, i: int)
    requires
        0 <= i,
        i + 1 < args.len(),
        docker_value_option(args[i]),
    ensures
        image_index_from(args, i) == image_index_from(args, i + 2),
{
    lemma_value_option_shape(args[i]);
}

/// Any other option, or a value-taking one written with `=`, stands alone: the image
/// is looked for from the very next word. The first word that is not an option is the
/// image.
pub proof fn lemma_other_words_alone(args: Seq<Seq<char>>, i: int)
    requires
        0 <= i < args.len(),
    ensures
        starts_with(args[i], "-"@) && (!docker_value_option(args[i]) || contains(args[i], "="@))
            ==> image_index_from(args, i) == image_index_from(args, i + 1),
        !starts_with(args[i], "-"@) ==> image_index_from(args, i) == i,
{
}

/// For `run`, a value-taking option, its value (any word, even one that looks like an
/// image) and an image, the container flags go right after the value and right
/// before the image, and nothing else moves.
pub proof fn lemma_flags_after_option_value(
    o: Seq<char>,
    value: Seq<char>,
    image: Seq<char>,
    rest: Seq<Seq<char>>,
)
    requires
        docker_value_option(o),
        !starts_with(image, "-"@),
    ensures
        with_container_flags(seq!["run"@, o, value, image] + rest) == seq!["run"@, o, value]
            + seq!["--name"@, "zundux-voicevox"@, "-d"@] + seq![image] + rest,
{
    let args = seq!["run"@, o, value, image] + rest;
    assert(args[0] == "run"@);
    assert(args[1] == o);
    assert(args[3] == image);
    assert(run_index(args) == 0);
    lemma_value_option_consumes_next(args, 1);
    assert(image_index_from(args, 3) == 3);
    assert(image_index(args) == 3);
    assert(args.take(3) =~= seq!["run"@, o, value]);
    assert(args.skip(3) =~= seq![image] + rest);
    reveal_strlit("zundux-voicevox");
    assert(DOCKER_CONTAINER_NAME@ == "zundux-voicevox"@);
}

} // verus!
