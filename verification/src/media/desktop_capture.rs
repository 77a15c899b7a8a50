//! Capturing an application's audio: its stream is moved to a combined sink that
//! feeds both the virtual microphone and (unless the microphone passthrough is on)
//! the speakers, and moved back when the capture stops.
use vstd::prelude::*;
use crate::launch::string_views;
use crate::pactl::{
    args_of, matching_module_ids, module_id, module_ids_matching, not_started, not_started_step,
    parse_module_id, prefixed, runs, succeeds, unload_args, unload_command, CommandOutcome,
    PactlError, PactlStep,
};
use crate::text::{
    chars_of, decimal, is_digit, lemma_decimal_digits, lemma_lines_append, lemma_lines_cons,
    lemma_parse_decimal, is_ws, strip_cr, trim_end, trim_start, lines, lines_of, parse_u32, parse_u32_chars, starts_with, starts_with_chars,
    string_from_chars, sub_chars, trim, trim_char, trim_char_chars, trim_chars, u32_to_string,
    views,
};
use crate::validation::{is_valid_pa_name, valid_pa_name};

verus! {

/// Name of the combined sink that captured streams are moved to.
pub const COMBINED_SINK: &'static str = "ZunduxCombined";

/// A playing application stream.
#[derive(Debug, Clone)]
pub struct SinkInput {
    pub id: u32,
    pub name: String,
    pub sink: String,
}

// ---------------------------------------------------------------------------
// Listing of streams
// ---------------------------------------------------------------------------

/// Progress through a `pactl list sink-inputs` listing.
pub struct InputScan {
    pub found: Seq<(u32, Seq<char>, Seq<char>)>,
    pub id: Option<u32>,
    pub name: Seq<char>,
    pub sink: Seq<char>,
}

/// The pending stream joins the found ones when it has an id, an application name and
/// a sink name that may be handed back to `pactl`.
pub open spec fn flush_input(s: InputScan) -> Seq<(u32, Seq<char>, Seq<char>)> {
    match s.id {
        Some(id) => if s.name.len() > 0 && valid_pa_name(s.sink) {
            s.found.push((id, s.name, s.sink))
        } else {
            s.found
        },
        None => s.found,
    }
}

/// One line: `Sink Input #<id>` starts a stream, `application.name = "<name>"` names
/// it (quotes removed), `Sink: <sink>` gives its sink.
pub open spec fn scan_input_line(s: InputScan, line: Seq<char>) -> InputScan {
    let t = trim(line);
    if starts_with(t, "Sink Input #"@) {
        InputScan {
            found: flush_input(s),
            id: parse_u32(t.skip("Sink Input #"@.len() as int)),
            name: seq![],
            sink: seq![],
        }
    } else if starts_with(t, "application.name = "@) {
        InputScan { name: trim_char(t.skip("application.name = "@.len() as int), '"'), ..s }
    } else if starts_with(t, "Sink: "@) {
        InputScan { sink: t.skip("Sink: "@.len() as int), ..s }
    } else {
        s
    }
}

/// The scan after the lines `ls`.
pub open spec fn scan_inputs(ls: Seq<Seq<char>>) -> InputScan
    decreases ls.len(),
{
    if ls.len() == 0 {
        InputScan { found: seq![], id: None, name: seq![], sink: seq![] }
    } else {
        scan_input_line(scan_inputs(ls.drop_last()), ls.last())
    }
}

/// The streams of a `pactl list sink-inputs` listing, as (id, application, sink).
pub open spec fn inputs_of(listing: Seq<char>) -> Seq<(u32, Seq<char>, Seq<char>)> {
    flush_input(scan_inputs(lines(listing)))
}

/// The header line of a stream's block in a `pactl list sink-inputs` listing.
pub open spec fn input_header_line(id: u32) -> Seq<char> {
    "Sink Input #"@ + decimal(id as nat)
}

/// The line of a stream's block that gives its sink.
pub open spec fn input_sink_line(sink: Seq<char>) -> Seq<char> {
    seq!['\t'] + "Sink: "@ + sink
}

/// The line of a stream's block that gives its application's name.
pub open spec fn input_name_line(name: Seq<char>) -> Seq<char> {
    seq!['\t'] + "application.name = \""@ + name + seq!['"']
}

/// A stream's block as `pactl list sink-inputs` prints it: its header, its sink
/// and its application's name, each on a line of its own.
pub open spec fn sink_input_block(id: u32, sink: Seq<char>, name: Seq<char>) -> Seq<char> {
    input_header_line(id) + seq!['\n'] + input_sink_line(sink) + seq!['\n'] + input_name_line(name)
        + seq!['\n']
}

/// Every stream block of a listing yields its stream, in listing order, the last
/// block included: after any listing `before` (empty, or ended by a line feed), a
/// block for stream `id` with an application name and a sink name that may be handed
/// back to `pactl` adds exactly that stream, with its id, name and sink, at the end;
/// a block without a name, or with any other sink, adds nothing. A listing made of
/// one such block thus gives exactly that one stream.
pub proof fn lemma_stream_block_listed(before: Seq<char>, id: u32, sink: Seq<char>, name: Seq<char>)
    requires
        before.len() == 0 || before.last() == '\n',
        sink.len() > 0,
        forall|j: int| 0 <= j < sink.len() ==> sink[j] != '\n',
        !is_ws(sink.last()),
        forall|j: int| 0 <= j < name.len() ==> name[j] != '\n',
        name.len() > 0 ==> name[0] != '"' && name.last() != '"',
    ensures
        inputs_of(before + sink_input_block(id, sink, name)) == if name.len() > 0 && valid_pa_name(
            sink,
        ) {
            inputs_of(before).push((id, name, sink))
        } else {
            inputs_of(before)
        },
{
    reveal_strlit("Sink Input #");
    reveal_strlit("Sink: ");
    reveal_strlit("application.name = \"");
    lemma_decimal_digits(id as nat);
    lemma_parse_decimal(id);
    let a = input_header_line(id);
    let b = input_sink_line(sink);
    let c = input_name_line(name);
    let d = decimal(id as nat);
    // No line holds a line feed, and none ends with a carriage return.
    assert forall|j: int| 0 <= j < a.len() implies a[j] != '\n' by {
        if j >= 12 {
            assert(a[j] == d[j - 12]);
            assert(is_digit(d[j - 12]));
        }
    }
    assert forall|j: int| 0 <= j < b.len() implies b[j] != '\n' by {
        if j >= 7 {
            assert(b[j] == sink[j - 7]);
        }
    }
    assert forall|j: int| 0 <= j < c.len() implies c[j] != '\n' by {
        if 21 <= j < c.len() - 1 {
            assert(c[j] == name[j - 21]);
        }
    }
    assert(is_digit(d[d.len() - 1]));
    assert(a.last() == d.last());
    assert(strip_cr(a) == a);
    assert(b.last() == sink.last());
    assert(strip_cr(b) == b);
    assert(strip_cr(c) == c);
    // The lines of the listing.
    let block = sink_input_block(id, sink, name);
    assert(block =~= a + seq!['\n'] + (b + seq!['\n'] + (c + seq!['\n'] + Seq::<char>::empty())));
    lemma_lines_cons(c, Seq::<char>::empty());
    lemma_lines_cons(b, c + seq!['\n'] + Seq::<char>::empty());
    lemma_lines_cons(a, b + seq!['\n'] + (c + seq!['\n'] + Seq::<char>::empty()));
    assert(lines(Seq::<char>::empty()) =~= Seq::<Seq<char>>::empty());
    assert(lines(block) =~= seq![a, b, c]);
    if before.len() > 0 {
        assert(before.last() == '\n');
    }
    lemma_lines_append(before, block);
    let ls = lines(before);
    let all = ls + seq![a, b, c];
    assert(lines(before + block) == all);
    assert(all.drop_last() =~= ls + seq![a, b]);
    assert((ls + seq![a, b]).drop_last() =~= ls + seq![a]);
    assert((ls + seq![a]).drop_last() =~= ls);
    // Each line read as trimmed.
    let ta = trim(a);
    assert(trim_start(a) == a);
    assert(is_digit(a.last()));
    assert(trim_end(a) == a);
    assert(ta == a);
    assert(a.take(12) =~= "Sink Input #"@);
    assert(a.skip(12) =~= d);
    let b2 = "Sink: "@ + sink;
    assert(b.drop_first() =~= b2);
    assert(trim_start(b) == trim_start(b2));
    assert(trim_start(b2) == b2);
    assert(b2.last() == sink.last());
    assert(trim_end(b2) == b2);
    assert(trim(b) == b2);
    assert(!starts_with(b2, "Sink Input #"@)) by {
        if starts_with(b2, "Sink Input #"@) {
            assert(b2.take(12)[4] == b2[4]);
        }
    }
    assert(!starts_with(b2, "application.name = "@)) by {
        reveal_strlit("application.name = ");
        if starts_with(b2, "application.name = "@) {
            assert(b2.take(19)[0] == b2[0]);
        }
    }
    assert(b2.take(6) =~= "Sink: "@);
    assert(b2.skip(6) =~= sink);
    let c2 = "application.name = \""@ + name + seq!['"'];
    assert(c.drop_first() =~= c2);
    assert(trim_start(c) == trim_start(c2));
    assert(trim_start(c2) == c2);
    assert(trim_end(c2) == c2);
    assert(trim(c) == c2);
    assert(!starts_with(c2, "Sink Input #"@)) by {
        if starts_with(c2, "Sink Input #"@) {
            assert(c2.take(12)[0] == c2[0]);
        }
    }
    reveal_strlit("application.name = ");
    assert(c2.take(19) =~= "application.name = "@);
    let q = seq!['"'] + name + seq!['"'];
    assert(c2.skip(19) =~= q);
    if name.len() > 0 {
        assert(trim_char(name, '"') == name);
        assert((name + seq!['"']).drop_last() =~= name);
        assert((name + seq!['"'])[0] == name[0]);
        assert(trim_char(name + seq!['"'], '"') == name);
    } else {
        assert(trim_char(Seq::<char>::empty(), '"') == Seq::<char>::empty());
        assert(seq!['"'].drop_first() =~= Seq::<char>::empty());
        assert(trim_char(seq!['"'], '"') == Seq::<char>::empty());
        assert(name + seq!['"'] =~= seq!['"']);
    }
    assert(q.drop_first() =~= name + seq!['"']);
    assert(trim_char(q, '"') == name);
    // The scan over the block.
    let s0 = scan_inputs(ls);
    assert(scan_inputs(ls + seq![a]) == scan_input_line(s0, a));
    assert(scan_inputs(ls + seq![a, b]) == scan_input_line(scan_inputs(ls + seq![a]), b));
    assert(scan_inputs(all) == scan_input_line(scan_inputs(ls + seq![a, b]), c));
}

/// The views of a sequence of streams.
pub open spec fn input_views(v: Seq<SinkInput>) -> Seq<(u32, Seq<char>, Seq<char>)> {
    v.map_values(|i: SinkInput| (i.id, i.name@, i.sink@))
}

fn flush_input_exec(found: &mut Vec<SinkInput>, id: Option<u32>, name: &Vec<char>, sink: &Vec<char>)
    ensures
        input_views(final(found)@) == flush_input(
            InputScan { found: input_views(old(found)@), id, name: name@, sink: sink@ },
        ),
{
    match id {
        Some(id) => {
            let sink_s = string_from_chars(sink.as_slice());
            if name.len() > 0 && is_valid_pa_name(sink_s.as_str()) {
                let ghost before = input_views(found@);
                found.push(SinkInput { id, name: string_from_chars(name.as_slice()), sink: sink_s });
                assert(input_views(found@) =~= before.push((id, name@, sink@)));
            }
        },
        None => {},
    }
}

// ---------------------------------------------------------------------------
// Capture state
// ---------------------------------------------------------------------------

/// What the capture is: the combined sink it loaded, the stream it moved there, and
/// the sink the stream came from.
pub struct CaptureView {
    pub combined_module: Option<u32>,
    pub captured_input: Option<u32>,
    pub original_sink: Option<Seq<char>>,
}

/// The capture of at most one application stream.
pub struct DesktopCapture {
    combined_module_id: Option<u32>,
    captured_input_id: Option<u32>,
    original_sink: Option<String>,
}

impl View for DesktopCapture {
    type V = CaptureView;

    closed spec fn view(&self) -> CaptureView {
        CaptureView {
            combined_module: self.combined_module_id,
            captured_input: self.captured_input_id,
            original_sink: match &self.original_sink {
                Some(s) => Some(s@),
                None => None,
            },
        }
    }
}

/// Nothing captured.
pub open spec fn idle() -> CaptureView {
    CaptureView { combined_module: None, captured_input: None, original_sink: None }
}

/// The commands that stop the capture in state `c`: the stream is moved back to its
/// sink, then the combined sink is unloaded, each where there is one.
pub open spec fn stop_args(c: CaptureView) -> Seq<Seq<Seq<char>>> {
    let back = match (c.captured_input, c.original_sink) {
        (Some(id), Some(sink)) => seq![seq!["move-sink-input"@, decimal(id as nat), sink]],
        _ => seq![],
    };
    let unload = match c.combined_module {
        Some(m) => seq![unload_args(m)],
        None => seq![],
    };
    back + unload
}

/// How a capture of stream `id` (playing on `original_sink`) into `virtual_sink`
/// begins, from the state `before` to `after` with the result `r`: the current
/// capture's stop commands first and the state idle, then the operation for `id`,
/// whose first step loads the combined sink over `virtual_sink` alone where
/// `skip_speaker`, and otherwise asks for the default sink.
pub open spec fn capture_begins(
    before: CaptureView,
    after: CaptureView,
    id: u32,
    original_sink: Seq<char>,
    virtual_sink: Seq<char>,
    skip_speaker: bool,
    r: (Vec<Vec<String>>, CaptureOp, PactlStep),
) -> bool {
    &&& after == idle()
    &&& command_views(r.0@) == stop_args(before)
    &&& r.1.sink_input_id == id
    &&& r.1.original_sink@ == original_sink
    &&& r.1.virtual_sink@ == virtual_sink
    &&& skip_speaker ==> r.1.phase is LoadCombined && runs(r.2, combine_args(virtual_sink))
    &&& !skip_speaker ==> r.1.phase is GetDefaultSink && runs(r.2, seq!["get-default-sink"@])
}

/// `pactl load-module module-combine-sink` over `slaves`.
pub open spec fn combine_args(slaves: Seq<char>) -> Seq<Seq<char>> {
    seq![
        "load-module"@,
        "module-combine-sink"@,
        "sink_name=ZunduxCombined"@,
        "slaves="@ + slaves,
    ]
}

/// `pactl move-sink-input <id> ZunduxCombined`.
pub open spec fn redirect_args(id: u32) -> Seq<Seq<char>> {
    seq!["move-sink-input"@, decimal(id as nat), "ZunduxCombined"@]
}

/// The steps of starting a capture.
pub enum CapturePhase {
    /// Asking for the default sink.
    GetDefaultSink,
    /// Loading the combined sink.
    LoadCombined,
    /// Moving the stream to the combined sink (loaded as module `module`).
    Redirect { module: u32 },
    /// Unloading the combined sink after the move failed.
    UnloadAfterFailure,
}

/// Starting the capture of stream `sink_input_id`, which plays on `original_sink`, into
/// `virtual_sink`.
pub struct CaptureOp {
    pub phase: CapturePhase,
    pub sink_input_id: u32,
    pub original_sink: String,
    pub virtual_sink: String,
    /// Standard error of a failed move, reported once the cleanup is done.
    pub failure: String,
}

/// `s` as a vector of strings.
fn one_command(a: Vec<String>) -> (r: Vec<Vec<String>>)
    ensures
        r@.len() == 1,
        r@[0] == a,
{
    let mut r: Vec<Vec<String>> = Vec::new();
    r.push(a);
    r
}

/// The views of a sequence of commands.
pub open spec fn command_views(v: Seq<Vec<String>>) -> Seq<Seq<Seq<char>>> {
    v.map_values(|c: Vec<String>| string_views(c@))
}

impl DesktopCapture {
    /// Nothing captured.
    pub fn new() -> (c: Self)
        ensures
            c@ == idle(),
    {
        DesktopCapture { combined_module_id: None, captured_input_id: None, original_sink: None }
    }

    /// Whether a stream is being captured.
    pub fn is_capturing(&self) -> (b: bool)
        ensures
            b == (self@.captured_input is Some),
    {
        self.captured_input_id.is_some()
    }

    /// `pactl list sink-inputs`.
    pub fn list_sink_inputs_command() -> (r: Vec<String>)
        ensures
            string_views(r@) == seq!["list"@, "sink-inputs"@],
    {
        let r = args_of(&["list", "sink-inputs"]);
        assert(string_views(r@) =~= seq!["list"@, "sink-inputs"@]);
        r
    }

    /// The application streams in a `pactl list sink-inputs` listing: each
    /// `Sink Input #<id>` line starts one, `application.name = "<name>"` names it and
    /// `Sink: <sink>` gives its sink. Streams without an id, without a name, or with a
    /// sink name that is not a valid PulseAudio name are left out.
    pub fn list_sink_inputs(listing: &str) -> (r: Vec<SinkInput>)
        ensures
            input_views(r@) == inputs_of(listing@),
    {
        let v = chars_of(listing);
        let ls = lines_of(v.as_slice());
        let ghost lv = views(ls@);
        let p_input = chars_of("Sink Input #");
        let p_name = chars_of("application.name = ");
        let p_sink = chars_of("Sink: ");
        let mut found: Vec<SinkInput> = Vec::new();
        let mut id: Option<u32> = None;
        let mut name: Vec<char> = Vec::new();
        let mut sink: Vec<char> = Vec::new();
        let mut i: usize = 0;
        assert(lv.take(0) =~= Seq::<Seq<char>>::empty());
        assert(input_views(found@) =~= Seq::<(u32, Seq<char>, Seq<char>)>::empty());
        assert(name@ =~= Seq::<char>::empty());
        while i < ls.len()
            invariant
                0 <= i <= ls.len(),
                lv == views(ls@),
                lv == lines(listing@),
                p_input@ == "Sink Input #"@,
                p_name@ == "application.name = "@,
                p_sink@ == "Sink: "@,
                scan_inputs(lv.take(i as int)) == (InputScan {
                    found: input_views(found@),
                    id,
                    name: name@,
                    sink: sink@,
                }),
            decreases ls.len() - i,
        {
            assert(lv.take(i + 1).drop_last() =~= lv.take(i as int));
            let t = trim_chars(ls[i].as_slice());
            if starts_with_chars(t.as_slice(), p_input.as_slice()) {
                flush_input_exec(&mut found, id, &name, &sink);
                let rest = sub_chars(t.as_slice(), p_input.len(), t.len());
                id = parse_u32_chars(rest.as_slice());
                name = Vec::new();
                sink = Vec::new();
                assert(name@ =~= Seq::<char>::empty());
            } else if starts_with_chars(t.as_slice(), p_name.as_slice()) {
                let rest = sub_chars(t.as_slice(), p_name.len(), t.len());
                name = trim_char_chars(rest.as_slice(), '"');
            } else if starts_with_chars(t.as_slice(), p_sink.as_slice()) {
                sink = sub_chars(t.as_slice(), p_sink.len(), t.len());
            }
            i = i + 1;
        }
        assert(lv.take(ls.len() as int) =~= lv);
        flush_input_exec(&mut found, id, &name, &sink);
        found
    }

    /// Stops the capture: the commands to run (their results do not matter) are the
    /// stream moved back to its sink and the combined sink unloaded, each where there
    /// is one. Afterwards nothing is captured.
    pub fn stop_capture(&mut self) -> (cmds: Vec<Vec<String>>)
        ensures
            final(self)@ == idle(),
            command_views(cmds@) == stop_args(old(self)@),
    {
        let ghost c = self@;
        let ghost back = match (c.captured_input, c.original_sink) {
            (Some(id), Some(sink)) => seq![seq!["move-sink-input"@, decimal(id as nat), sink]],
            _ => Seq::<Seq<Seq<char>>>::empty(),
        };
        let ghost unload = match c.combined_module {
            Some(m) => seq![unload_args(m)],
            None => Seq::<Seq<Seq<char>>>::empty(),
        };
        let mut cmds: Vec<Vec<String>> = Vec::new();
        match (self.captured_input_id, &self.original_sink) {
            (Some(id), Some(sink)) => {
                let mut a = args_of(&["move-sink-input"]);
                a.push(u32_to_string(id));
                a.push(sink.clone());
                assert(string_views(a@) =~= seq!["move-sink-input"@, decimal(id as nat), sink@]);
                cmds.push(a);
                assert(command_views(cmds@) =~= back);
            },
            _ => {
                assert(command_views(cmds@) =~= back);
            },
        }
        let ghost first = cmds@;
        match self.combined_module_id.take() {
            Some(m) => {
                cmds.push(unload_command(m));
                assert(command_views(cmds@) =~= command_views(first).push(unload_args(m)));
            },
            None => {},
        }
        self.captured_input_id = None;
        self.original_sink = None;
        assert(stop_args(c) == back + unload);
        assert(command_views(cmds@) =~= stop_args(c));
        cmds
    }

    fn combine_command(slaves: &str) -> (r: Vec<String>)
        ensures
            string_views(r@) == combine_args(slaves@),
    {
        let mut r = args_of(&["load-module", "module-combine-sink", "sink_name=ZunduxCombined"]);
        r.push(prefixed("slaves=", slaves));
        assert(string_views(r@) =~= combine_args(slaves@));
        r
    }

    fn redirect_command(id: u32) -> (r: Vec<String>)
        ensures
            string_views(r@) == redirect_args(id),
    {
        let mut r = args_of(&["move-sink-input"]);
        r.push(u32_to_string(id));
        r.push(String::from_str("ZunduxCombined"));
        assert(string_views(r@) =~= redirect_args(id));
        r
    }

    /// Starts capturing stream `sink_input_id` (playing on `original_sink`) into
    /// `virtual_sink`. Any current capture is stopped first: its commands come first in
    /// the result. The combined sink feeds `virtual_sink` alone when `skip_speaker` is
    /// set; otherwise the default sink is asked for, to feed the speakers as well.
    pub fn start_capture(
        &mut self,
        sink_input_id: u32,
        original_sink: &str,
        virtual_sink: &str,
        skip_speaker: bool,
    ) -> (r: (Vec<Vec<String>>, CaptureOp, PactlStep))
        ensures
            capture_begins(
                old(self)@,
                final(self)@,
                sink_input_id,
                original_sink@,
                virtual_sink@,
                skip_speaker,
                r,
            ),
    {
        let stop = self.stop_capture();
        let mut op = CaptureOp {
            phase: CapturePhase::LoadCombined,
            sink_input_id,
            original_sink: String::from_str(original_sink),
            virtual_sink: String::from_str(virtual_sink),
            failure: String::new(),
        };
        if skip_speaker {
            let cmd = Self::combine_command(virtual_sink);
            (stop, op, PactlStep::Run(cmd))
        } else {
            op.phase = CapturePhase::GetDefaultSink;
            let a = args_of(&["get-default-sink"]);
            assert(string_views(a@) =~= seq!["get-default-sink"@]);
            (stop, op, PactlStep::Run(a))
        }
    }

    /// Starts the capture again with new speaker routing (when the microphone
    /// passthrough is toggled): with a captured stream, exactly as `start_capture` of
    /// that stream and its original sink. Without one nothing is done: no commands,
    /// and the step is a success.
    pub fn restart_capture(&mut self, virtual_sink: &str, skip_speaker: bool) -> (r: (
        Vec<Vec<String>>,
        CaptureOp,
        PactlStep,
    ))
        ensures
            match (old(self)@.captured_input, old(self)@.original_sink) {
                (Some(id), Some(sink)) => capture_begins(
                    old(self)@,
                    final(self)@,
                    id,
                    sink,
                    virtual_sink@,
                    skip_speaker,
                    r,
                ),
                _ => final(self)@ == old(self)@ && r.0@.len() == 0 && succeeds(r.2),
            },
    {
        let input_id = match self.captured_input_id {
            Some(id) => id,
            None => {
                return (
                    Vec::new(),
                    CaptureOp {
                        phase: CapturePhase::LoadCombined,
                        sink_input_id: 0,
                        original_sink: String::new(),
                        virtual_sink: String::from_str(virtual_sink),
                        failure: String::new(),
                    },
                    PactlStep::Done(Ok(())),
                );
            },
        };
        let original = match &self.original_sink {
            Some(s) => s.clone(),
            None => {
                return (
                    Vec::new(),
                    CaptureOp {
                        phase: CapturePhase::LoadCombined,
                        sink_input_id: 0,
                        original_sink: String::new(),
                        virtual_sink: String::from_str(virtual_sink),
                        failure: String::new(),
                    },
                    PactlStep::Done(Ok(())),
                );
            },
        };
        self.start_capture(input_id, original.as_str(), virtual_sink, skip_speaker)
    }

    /// Ids of combined sinks left behind by earlier sessions, from a
    /// `pactl list short modules` listing: the first word of each line that names both
    /// `module-combine-sink` and `ZunduxCombined`.
    pub fn cleanup_stale(modules: &str) -> (r: Vec<String>)
        ensures
            string_views(r@) == matching_module_ids(
                modules@,
                "module-combine-sink"@,
                "ZunduxCombined"@,
            ),
    {
        module_ids_matching(modules, "module-combine-sink", "ZunduxCombined")
    }
}

impl CaptureOp {
    /// Takes what the last command came to and gives the next step.
    ///
    /// - Default sink: the combined sink feeds `virtual_sink` and the default sink
    ///   (the trimmed output), separated by a comma.
    /// - Combined sink loaded: the stream is moved to it; a failure, or output that is
    ///   not a module id, ends the operation with an error.
    /// - Stream moved: the capture is recorded; where the move failed, the combined
    ///   sink is unloaded and the operation ends with `pactl`'s standard error.
    /// - A command that could not be started ends the operation with an error.
    pub fn advance(&mut self, cap: &mut DesktopCapture, outcome: CommandOutcome) -> (step: PactlStep)
        ensures
            final(self).sink_input_id == old(self).sink_input_id,
            final(self).original_sink == old(self).original_sink,
            final(self).virtual_sink == old(self).virtual_sink,
            match old(self).phase {
                CapturePhase::GetDefaultSink => final(cap)@ == old(cap)@ && match outcome {
                    CommandOutcome::NotStarted => not_started(step, "Failed to get default sink"@),
                    CommandOutcome::Finished(o) => final(self).phase is LoadCombined && runs(
                        step,
                        combine_args(old(self).virtual_sink@ + ","@ + trim(o.stdout@)),
                    ),
                },
                CapturePhase::LoadCombined => final(cap)@ == old(cap)@ && match outcome {
                    CommandOutcome::NotStarted => not_started(step, "Failed to create combine-sink"@),
                    CommandOutcome::Finished(o) => if !o.success {
                        step matches PactlStep::Done(Err(PactlError::CombineSinkFailed(e))) && e@
                            == o.stderr@
                    } else {
                        match module_id(o.stdout@) {
                            None => step matches PactlStep::Done(
                                Err(PactlError::CombineSinkIdMissing),
                            ),
                            Some(m) => final(self).phase == (CapturePhase::Redirect { module: m })
                                && runs(step, redirect_args(old(self).sink_input_id)),
                        }
                    },
                },
                CapturePhase::Redirect { module } => match outcome {
                    CommandOutcome::NotStarted => final(cap)@ == old(cap)@ && not_started(
                        step,
                        "Failed to move sink-input"@,
                    ),
                    CommandOutcome::Finished(o) => if o.success {
                        final(cap)@ == (CaptureView {
                            combined_module: Some(module),
                            captured_input: Some(old(self).sink_input_id),
                            original_sink: Some(old(self).original_sink@),
                        }) && succeeds(step)
                    } else {
                        final(cap)@ == old(cap)@ && final(self).phase is UnloadAfterFailure
                            && final(self).failure@ == o.stderr@ && runs(step, unload_args(module))
                    },
                },
                CapturePhase::UnloadAfterFailure => final(cap)@ == old(cap)@ && (step matches PactlStep::Done(
                    Err(PactlError::RedirectFailed(e)),
                ) && e@ == old(self).failure@),
            },
    {
        match self.phase {
            CapturePhase::GetDefaultSink => match outcome {
                CommandOutcome::NotStarted => not_started_step("Failed to get default sink"),
                CommandOutcome::Finished(o) => {
                    let mut slaves = self.virtual_sink.clone();
                    slaves.append(",");
                    let ov = chars_of(o.stdout.as_str());
                    let def = string_from_chars(trim_chars(ov.as_slice()).as_slice());
                    slaves.append(def.as_str());
                    self.phase = CapturePhase::LoadCombined;
                    PactlStep::Run(DesktopCapture::combine_command(slaves.as_str()))
                },
            },
            CapturePhase::LoadCombined => match outcome {
                CommandOutcome::NotStarted => not_started_step("Failed to create combine-sink"),
                CommandOutcome::Finished(o) => {
                    if !o.success {
                        return PactlStep::Done(Err(PactlError::CombineSinkFailed(o.stderr)));
                    }
                    match parse_module_id(o.stdout.as_str()) {
                        None => PactlStep::Done(Err(PactlError::CombineSinkIdMissing)),
                        Some(m) => {
                            self.phase = CapturePhase::Redirect { module: m };
                            PactlStep::Run(DesktopCapture::redirect_command(self.sink_input_id))
                        },
                    }
                },
            },
            CapturePhase::Redirect { module } => match outcome {
                CommandOutcome::NotStarted => not_started_step("Failed to move sink-input"),
                CommandOutcome::Finished(o) => {
                    if o.success {
                        cap.combined_module_id = Some(module);
                        cap.captured_input_id = Some(self.sink_input_id);
                        cap.original_sink = Some(self.original_sink.clone());
                        PactlStep::Done(Ok(()))
                    } else {
                        self.phase = CapturePhase::UnloadAfterFailure;
                        self.failure = o.stderr;
                        PactlStep::Run(unload_command(module))
                    }
                },
            },
            CapturePhase::UnloadAfterFailure => PactlStep::Done(
                Err(PactlError::RedirectFailed(self.failure.clone())),
            ),
        }
    }
}

} // verus!
