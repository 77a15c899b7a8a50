//! The virtual microphone: a null sink that speech is played into, a virtual source
//! over the sink's monitor that applications pick as a microphone, and the optional
//! passthrough of a real microphone into the sink (through RNNoise where asked).
use vstd::prelude::*;
use crate::launch::string_views;
use crate::validation::{is_pa_name_char, valid_pa_name};
use crate::pactl::{
    args_of, listing_contains, listing_has, matching_module_ids, module_ids_matching, module_id,
    not_started, not_started_step, parse_module_id, prefixed, runs, succeeds, unload_args,
    unload_command, CommandOutcome, PactlError, PactlStep,
};
use crate::text::{
    chars_of, contains, contains_chars, is_ws, lemma_lines_append, lemma_lines_cons, strip_cr,
    trim_end, trim_start, lines, lines_of, starts_with, starts_with_chars,
    string_from_chars, strip_all_prefix, strip_all_prefix_chars, trim, trim_chars, views,
};

verus! {

// ---------------------------------------------------------------------------
// State
// ---------------------------------------------------------------------------

/// What the device is: the sink's name and the ids of the modules this device loaded.
pub struct DeviceView {
    pub sink_name: Seq<char>,
    pub sink_module: Option<u32>,
    pub source_module: Option<u32>,
    pub loopback_module: Option<u32>,
    pub ladspa_module: Option<u32>,
}

/// A virtual microphone named after its sink, with the modules it has loaded.
pub struct VirtualDevice {
    sink_name: String,
    sink_module_id: Option<u32>,
    source_module_id: Option<u32>,
    loopback_module_id: Option<u32>,
    ladspa_module_id: Option<u32>,
}

impl View for VirtualDevice {
    type V = DeviceView;

    closed spec fn view(&self) -> DeviceView {
        DeviceView {
            sink_name: self.sink_name@,
            sink_module: self.sink_module_id,
            source_module: self.source_module_id,
            loopback_module: self.loopback_module_id,
            ladspa_module: self.ladspa_module_id,
        }
    }
}

/// Name of the virtual source that applications use as a microphone.
pub open spec fn source_name_of(sink: Seq<char>) -> Seq<char> {
    sink + "_mic"@
}

/// Name of the denoised source put between a real microphone and the sink.
pub open spec fn denoised_name_of(sink: Seq<char>) -> Seq<char> {
    sink + "_denoised"@
}

// ---------------------------------------------------------------------------
// Commands
// ---------------------------------------------------------------------------

/// `pactl list short sinks`.
pub open spec fn list_sinks_args() -> Seq<Seq<char>> {
    seq!["list"@, "short"@, "sinks"@]
}

/// `pactl list short sources`.
pub open spec fn list_short_sources_args() -> Seq<Seq<char>> {
    seq!["list"@, "short"@, "sources"@]
}

/// `pactl list short modules`.
pub open spec fn list_modules_args() -> Seq<Seq<char>> {
    seq!["list"@, "short"@, "modules"@]
}

/// Loading the null sink named `sink`.
pub open spec fn null_sink_args(sink: Seq<char>) -> Seq<Seq<char>> {
    seq![
        "load-module"@,
        "module-null-sink"@,
        "sink_name="@ + sink,
        "sink_properties=device.description=\""@ + sink + "_Virtual_Mic\""@,
    ]
}

/// Unmuting the sink.
pub open spec fn mute_off_args(sink: Seq<char>) -> Seq<Seq<char>> {
    seq!["set-sink-mute"@, sink, "0"@]
}

/// Setting the sink to full volume.
pub open spec fn full_volume_args(sink: Seq<char>) -> Seq<Seq<char>> {
    seq!["set-sink-volume"@, sink, "100%"@]
}

/// Loading the virtual source over the sink's monitor.
pub open spec fn virtual_source_args(sink: Seq<char>) -> Seq<Seq<char>> {
    seq![
        "load-module"@,
        "module-virtual-source"@,
        "source_name="@ + source_name_of(sink),
        "master="@ + sink + ".monitor"@,
        "source_properties=device.description=\""@ + sink + "_Microphone\""@,
    ]
}

/// The microphone that applications pick carries what is played into the device:
/// the virtual source is named `<sink>_mic` and loaded over the monitor of the very
/// sink that the null-sink command creates (`master=<sink>.monitor`).
pub proof fn lemma_virtual_source_over_sink_monitor(sink: Seq<char>)
    ensures
        null_sink_args(sink)[1] == "module-null-sink"@,
        null_sink_args(sink)[2] == "sink_name="@ + sink,
        virtual_source_args(sink).len() == 5,
        virtual_source_args(sink)[0] == "load-module"@,
        virtual_source_args(sink)[1] == "module-virtual-source"@,
        virtual_source_args(sink)[2] == "source_name="@ + sink + "_mic"@,
        virtual_source_args(sink)[3] == "master="@ + sink + ".monitor"@,
{
}

/// Loading the RNNoise source over the microphone `source`.
pub open spec fn ladspa_args(sink: Seq<char>, source: Seq<char>) -> Seq<Seq<char>> {
    seq![
        "load-module"@,
        "module-ladspa-source"@,
        "source_name="@ + denoised_name_of(sink),
        "master="@ + source,
        "plugin=librnnoise_ladspa"@,
        "label=noise_suppressor_mono"@,
    ]
}

/// Loading the loopback from `source` into the sink.
pub open spec fn loopback_args(sink: Seq<char>, source: Seq<char>) -> Seq<Seq<char>> {
    seq![
        "load-module"@,
        "module-loopback"@,
        "source="@ + source,
        "sink="@ + sink,
        "latency_msec=30"@,
    ]
}

/// `pactl list short sinks`.
pub fn list_sinks_command() -> (r: Vec<String>)
    ensures
        string_views(r@) == list_sinks_args(),
{
    let r = args_of(&["list", "short", "sinks"]);
    assert(string_views(r@) =~= list_sinks_args());
    r
}

/// `pactl list short modules`.
pub fn list_modules_command() -> (r: Vec<String>)
    ensures
        string_views(r@) == list_modules_args(),
{
    let r = args_of(&["list", "short", "modules"]);
    assert(string_views(r@) =~= list_modules_args());
    r
}

// ---------------------------------------------------------------------------
// Listing of input sources
// ---------------------------------------------------------------------------

/// Progress through a `pactl list sources` listing.
pub struct SourceScan {
    pub found: Seq<(Seq<char>, Seq<char>)>,
    pub name: Option<Seq<char>>,
    pub desc: Option<Seq<char>>,
}

/// The pending source joins the found ones, with its name as description where it
/// had none, unless it is a monitor.
pub open spec fn flush_source(s: SourceScan) -> Seq<(Seq<char>, Seq<char>)> {
    match s.name {
        None => s.found,
        Some(n) => if contains(n, ".monitor"@) {
            s.found
        } else {
            s.found.push(
                (
                    n,
                    match s.desc {
                        Some(d) => d,
                        None => n,
                    },
                ),
            )
        },
    }
}

/// One line of the listing: a `Name: ` line starts a source, a `Description: ` line
/// describes the current one.
pub open spec fn scan_source_line(s: SourceScan, line: Seq<char>) -> SourceScan {
    let t = trim(line);
    if starts_with(t, "Name: "@) {
        SourceScan {
            found: flush_source(s),
            name: Some(strip_all_prefix(t, "Name: "@)),
            desc: None,
        }
    } else if starts_with(t, "Description: "@) {
        SourceScan { desc: Some(strip_all_prefix(t, "Description: "@)), ..s }
    } else {
        s
    }
}

/// The scan after the lines `ls`.
pub open spec fn scan_sources(ls: Seq<Seq<char>>) -> SourceScan
    decreases ls.len(),
{
    if ls.len() == 0 {
        SourceScan { found: seq![], name: None, desc: None }
    } else {
        scan_source_line(scan_sources(ls.drop_last()), ls.last())
    }
}

/// The input sources of a `pactl list sources` listing as (name, description), in
/// listing order, monitors left out.
pub open spec fn sources_of(listing: Seq<char>) -> Seq<(Seq<char>, Seq<char>)> {
    flush_source(scan_sources(lines(listing)))
}

proof fn lemma_scan_sources_no_monitor(ls: Seq<Seq<char>>)
    ensures
        forall|i: int|
            0 <= i < scan_sources(ls).found.len() ==> !contains(
                #[trigger] scan_sources(ls).found[i].0,
                ".monitor"@,
            ),
    decreases ls.len(),
{
    if ls.len() > 0 {
        lemma_scan_sources_no_monitor(ls.drop_last());
    }
}

/// The line of a `pactl list sources` listing that names a source.
pub open spec fn source_name_line(name: Seq<char>) -> Seq<char> {
    seq!['\t'] + "Name: "@ + name
}

/// The line of a `pactl list sources` listing that describes a source.
pub open spec fn source_desc_line(desc: Seq<char>) -> Seq<char> {
    seq!['\t'] + "Description: "@ + desc
}

/// A source's lines in a `pactl list sources` listing: its name, then its
/// description.
pub open spec fn source_block(name: Seq<char>, desc: Seq<char>) -> Seq<char> {
    source_name_line(name) + seq!['\n'] + source_desc_line(desc) + seq!['\n']
}

/// Every source of a listing is offered, in listing order, unless it is a monitor:
/// after any listing `before` (empty, or ended by a line feed), a source named `name`
/// (a PulseAudio name) and described by `desc` adds exactly `(name, desc)` at the
/// end, or nothing where the name contains `.monitor`.
pub proof fn lemma_source_block_listed(before: Seq<char>, name: Seq<char>, desc: Seq<char>)
    requires
        before.len() == 0 || before.last() == '\n',
        valid_pa_name(name),
        desc.len() > 0,
        forall|j: int| 0 <= j < desc.len() ==> desc[j] != '\n',
        !is_ws(desc.last()),
        !starts_with(desc, "Description: "@),
    ensures
        sources_of(before + source_block(name, desc)) == if contains(name, ".monitor"@) {
            sources_of(before)
        } else {
            sources_of(before).push((name, desc))
        },
{
    reveal_strlit("Name: ");
    reveal_strlit("Description: ");
    let b = source_name_line(name);
    let c = source_desc_line(desc);
    assert forall|j: int| 0 <= j < b.len() implies b[j] != '\n' by {
        if j >= 7 {
            assert(b[j] == name[j - 7]);
            assert(is_pa_name_char(name[j - 7]));
        }
    }
    assert forall|j: int| 0 <= j < c.len() implies c[j] != '\n' by {
        if j >= 14 {
            assert(c[j] == desc[j - 14]);
        }
    }
    assert(is_pa_name_char(name[name.len() - 1]));
    assert(b.last() == name.last());
    assert(strip_cr(b) == b);
    assert(c.last() == desc.last());
    assert(strip_cr(c) == c);
    let block = source_block(name, desc);
    assert(block =~= b + seq!['\n'] + (c + seq!['\n'] + Seq::<char>::empty()));
    lemma_lines_cons(c, Seq::<char>::empty());
    lemma_lines_cons(b, c + seq!['\n'] + Seq::<char>::empty());
    assert(lines(Seq::<char>::empty()) =~= Seq::<Seq<char>>::empty());
    assert(lines(block) =~= seq![b, c]);
    if before.len() > 0 {
        assert(before.last() == '\n');
    }
    lemma_lines_append(before, block);
    let ls = lines(before);
    let all = ls + seq![b, c];
    assert(all.drop_last() =~= ls + seq![b]);
    assert((ls + seq![b]).drop_last() =~= ls);
    // The name line.
    let b2 = "Name: "@ + name;
    assert(b.drop_first() =~= b2);
    assert(trim_start(b) == trim_start(b2));
    assert(trim_start(b2) == b2);
    assert(b2.last() == name.last());
    assert(trim_end(b2) == b2);
    assert(trim(b) == b2);
    assert(b2.take(6) =~= "Name: "@);
    assert(b2.skip(6) =~= name);
    assert(!starts_with(name, "Name: "@)) by {
        if starts_with(name, "Name: "@) {
            assert(name.take(6)[5] == name[5]);
            assert(is_pa_name_char(name[5]));
        }
    }
    assert(strip_all_prefix(name, "Name: "@) == name);
    assert(strip_all_prefix(b2, "Name: "@) == name);
    // The description line.
    let c2 = "Description: "@ + desc;
    assert(c.drop_first() =~= c2);
    assert(trim_start(c) == trim_start(c2));
    assert(trim_start(c2) == c2);
    assert(c2.last() == desc.last());
    assert(trim_end(c2) == c2);
    assert(trim(c) == c2);
    assert(!starts_with(c2, "Name: "@)) by {
        if starts_with(c2, "Name: "@) {
            assert(c2.take(6)[0] == c2[0]);
        }
    }
    assert(c2.take(13) =~= "Description: "@);
    assert(c2.skip(13) =~= desc);
    assert(strip_all_prefix(desc, "Description: "@) == desc);
    assert(strip_all_prefix(c2, "Description: "@) == desc);
    // The scan over the block.
    let s0 = scan_sources(ls);
    assert(scan_sources(ls + seq![b]) == scan_source_line(s0, b));
    assert(scan_sources(all) == scan_source_line(scan_sources(ls + seq![b]), c));
}

/// Listing input sources never offers a monitor: no source name in the result, for
/// any listing, contains `.monitor`.
pub proof fn lemma_sources_exclude_monitors(listing: Seq<char>)
    ensures
        forall|i: int|
            0 <= i < sources_of(listing).len() ==> !contains(
                #[trigger] sources_of(listing)[i].0,
                ".monitor"@,
            ),
{
    lemma_scan_sources_no_monitor(lines(listing));
}

/// The views of a sequence of string pairs.
pub open spec fn pair_views(v: Seq<(String, String)>) -> Seq<(Seq<char>, Seq<char>)> {
    v.map_values(|p: (String, String)| (p.0@, p.1@))
}

/// `pactl list sources`.
pub fn list_sources_command() -> (r: Vec<String>)
    ensures
        string_views(r@) == seq!["list"@, "sources"@],
{
    let r = args_of(&["list", "sources"]);
    assert(string_views(r@) =~= seq!["list"@, "sources"@]);
    r
}

fn flush_source_exec(
    found: &mut Vec<(String, String)>,
    name: Option<Vec<char>>,
    desc: Option<Vec<char>>,
)
    ensures
        pair_views(final(found)@) == flush_source(
            SourceScan {
                found: pair_views(old(found)@),
                name: match name {
                    Some(n) => Some(n@),
                    None => None,
                },
                desc: match desc {
                    Some(d) => Some(d@),
                    None => None,
                },
            },
        ),
{
    match name {
        None => {},
        Some(n) => {
            let mon = chars_of(".monitor");
            if !contains_chars(n.as_slice(), mon.as_slice()) {
                let d = match desc {
                    Some(d) => d,
                    None => n.clone(),
                };
                let ghost before = pair_views(found@);
                found.push((string_from_chars(n.as_slice()), string_from_chars(d.as_slice())));
                assert(pair_views(found@) =~= before.push((n@, d@)));
            }
        },
    }
}

impl VirtualDevice {
    /// The input sources in a `pactl list sources` listing, as (name, description):
    /// each `Name: ` line starts a source, a `Description: ` line after it describes
    /// it (a source without one is described by its name), and monitor sources
    /// (names containing `.monitor`) are left out.
    pub fn list_sources(listing: &str) -> (r: Vec<(String, String)>)
        ensures
            pair_views(r@) == sources_of(listing@),
    {
        let v = chars_of(listing);
        let ls = lines_of(v.as_slice());
        let ghost lv = views(ls@);
        let name_p = chars_of("Name: ");
        let desc_p = chars_of("Description: ");
        let mut found: Vec<(String, String)> = Vec::new();
        let mut name: Option<Vec<char>> = None;
        let mut desc: Option<Vec<char>> = None;
        let mut i: usize = 0;
        assert(lv.take(0) =~= Seq::<Seq<char>>::empty());
        assert(pair_views(found@) =~= Seq::<(Seq<char>, Seq<char>)>::empty());
        while i < ls.len()
            invariant
                0 <= i <= ls.len(),
                lv == views(ls@),
                lv == lines(listing@),
                name_p@ == "Name: "@,
                desc_p@ == "Description: "@,
                scan_sources(lv.take(i as int)) == (SourceScan {
                    found: pair_views(found@),
                    name: match name {
                        Some(n) => Some(n@),
                        None => None,
                    },
                    desc: match desc {
                        Some(d) => Some(d@),
                        None => None,
                    },
                }),
            decreases ls.len() - i,
        {
            assert(lv.take(i + 1).drop_last() =~= lv.take(i as int));
            let t = trim_chars(ls[i].as_slice());
            if starts_with_chars(t.as_slice(), name_p.as_slice()) {
                let n = name;
                let d = desc;
                flush_source_exec(&mut found, n, d);
                name = Some(strip_all_prefix_chars(t.as_slice(), name_p.as_slice()));
                desc = None;
            } else if starts_with_chars(t.as_slice(), desc_p.as_slice()) {
                desc = Some(strip_all_prefix_chars(t.as_slice(), desc_p.as_slice()));
            }
            i = i + 1;
        }
        assert(lv.take(ls.len() as int) =~= lv);
        flush_source_exec(&mut found, name, desc);
        found
    }
}

// ---------------------------------------------------------------------------
// Creating the device
// ---------------------------------------------------------------------------

/// The steps of creating the device.
pub enum CreatePhase {
    /// Listing the sinks, to see whether the null sink exists.
    CheckSink,
    /// Loading the null sink.
    LoadSink,
    /// Unmuting the sink.
    Unmute,
    /// Setting the sink to full volume.
    SetVolume,
    /// Listing the sources, to see whether the virtual source exists.
    CheckSource,
    /// Loading the virtual source.
    LoadSource,
}

/// Creating the device: the null sink where it is missing, unmuted at full volume,
/// then the virtual source where it is missing.
pub struct CreateOp {
    pub phase: CreatePhase,
}

// ---------------------------------------------------------------------------
// Microphone passthrough
// ---------------------------------------------------------------------------

/// The steps of enabling the microphone passthrough.
pub enum EnablePhase {
    /// Loading the RNNoise source over the microphone.
    LoadLadspa,
    /// Loading the loopback from the (denoised) microphone into the sink.
    LoadLoopback,
    /// Unloading the RNNoise source after the loopback failed.
    CleanupLadspa,
}

/// Enabling the passthrough of microphone `source`.
pub struct EnableMicOp {
    pub phase: EnablePhase,
    /// The microphone source.
    pub source: String,
    /// Standard error of a failed loopback, reported once the cleanup is done.
    pub failure: String,
}

/// The steps of disabling the microphone passthrough.
pub enum DisablePhase {
    /// Unloading the loopback.
    UnloadLoopback,
    /// Unloading the RNNoise source.
    UnloadLadspa,
}

impl DisablePhase {
    /// A copy of the phase.
    pub fn copy(&self) -> (r: Self)
        ensures
            r == *self,
    {
        match self {
            DisablePhase::UnloadLoopback => DisablePhase::UnloadLoopback,
            DisablePhase::UnloadLadspa => DisablePhase::UnloadLadspa,
        }
    }
}

/// Disabling the microphone passthrough.
pub struct DisableMicOp {
    pub phase: DisablePhase,
}

/// The steps of destroying the device.
pub enum DestroyPhase {
    /// Disabling the passthrough (its errors are ignored).
    Disabling(DisableMicOp),
    /// Unloading the RNNoise source.
    UnloadLadspa,
    /// Unloading the virtual source.
    UnloadSource,
    /// Unloading the null sink.
    UnloadSink,
}

/// Destroying the device: the passthrough, then the RNNoise source, the virtual
/// source and the null sink, as far as this device loaded them.
pub struct DestroyOp {
    pub phase: DestroyPhase,
}

/// The view with the RNNoise module forgotten.
pub open spec fn without_ladspa(v: DeviceView) -> DeviceView {
    DeviceView { ladspa_module: None, ..v }
}

/// The first step of unloading the RNNoise source: unload it where this device loaded
/// it, else finish.
pub open spec fn ladspa_unload_step(v: DeviceView, step: PactlStep) -> bool {
    match v.ladspa_module {
        Some(id) => runs(step, unload_args(id)),
        None => succeeds(step),
    }
}

/// Next module to unload when tearing the device down, from `v`: the RNNoise source,
/// the virtual source, then the null sink, as far as they are loaded.
pub open spec fn teardown_next(v: DeviceView) -> Option<u32> {
    match v.ladspa_module {
        Some(id) => Some(id),
        None => match v.source_module {
            Some(id) => Some(id),
            None => v.sink_module,
        },
    }
}

/// `v` without the module that `teardown_next` names.
pub open spec fn teardown_rest(v: DeviceView) -> DeviceView {
    if v.ladspa_module is Some {
        DeviceView { ladspa_module: None, ..v }
    } else if v.source_module is Some {
        DeviceView { source_module: None, ..v }
    } else {
        DeviceView { sink_module: None, ..v }
    }
}

/// How destroying a device in state `v` begins: the passthrough is disabled first
/// (its loopback, then its RNNoise source), then the teardown goes on.
pub open spec fn destroy_begins(v: DeviceView, v2: DeviceView, p: DestroyPhase, step: PactlStep) -> bool {
    match v.loopback_module {
        Some(id) => p is Disabling && runs(step, unload_args(id)) && v2 == (DeviceView {
            loopback_module: None,
            ..v
        }),
        None => match v.ladspa_module {
            Some(id) => p is Disabling && runs(step, unload_args(id)) && v2 == without_ladspa(v),
            None => teardown_continues(v, v2, p, step),
        },
    }
}

/// The teardown phase that goes with unloading the module that `teardown_next` names.
pub open spec fn teardown_phase(v: DeviceView, p: DestroyPhase) -> bool {
    if v.ladspa_module is Some {
        p is UnloadLadspa
    } else if v.source_module is Some {
        p is UnloadSource
    } else {
        p is UnloadSink
    }
}

/// Going on with the teardown from `v`: the next module is unloaded, or, when none is
/// left, the operation succeeds.
pub open spec fn teardown_continues(
    v: DeviceView,
    v2: DeviceView,
    p: DestroyPhase,
    step: PactlStep,
) -> bool {
    match teardown_next(v) {
        Some(id) => runs(step, unload_args(id)) && v2 == teardown_rest(v) && teardown_phase(v, p),
        None => succeeds(step) && v2 == v,
    }
}

/// How many modules the device has loaded.
pub open spec fn loaded_modules(v: DeviceView) -> nat {
    (if v.sink_module is Some { 1nat } else { 0nat }) + (if v.source_module is Some {
        1nat
    } else {
        0nat
    }) + (if v.loopback_module is Some { 1nat } else { 0nat }) + (if v.ladspa_module is Some {
        1nat
    } else {
        0nat
    })
}

/// Every teardown step unloads one loaded module and forgets it, so a teardown ends
/// after as many steps as there are modules, with none left.
pub proof fn lemma_teardown_progress(v: DeviceView)
    ensures
        teardown_next(v) is Some ==> loaded_modules(teardown_rest(v)) + 1 == loaded_modules(v),
        teardown_next(v) is None ==> v.sink_module is None && v.source_module is None
            && v.ladspa_module is None,
        teardown_rest(v).sink_name == v.sink_name,
        teardown_rest(v).loopback_module == v.loopback_module,
{
}

/// A device that holds no module (its passthrough is off and its sink and source were
/// forgotten, as at exit) is destroyed without any command.
pub proof fn lemma_released_device_destroys_nothing(
    v: DeviceView,
    v2: DeviceView,
    p: DestroyPhase,
    step: PactlStep,
)
    requires
        loaded_modules(v) == 0,
        destroy_begins(v, v2, p, step),
    ensures
        succeeds(step),
        v2 == v,
{
}

// ---------------------------------------------------------------------------
// Microphone routing across calls
// ---------------------------------------------------------------------------

/// What a call on the device does to the microphone routing (the loopback module
/// it tracks): nothing, or set it to a value.
pub enum RoutingChange {
    Keep,
    SetTo(Option<u32>),
}

/// The device went from `v` to `v2` with routing change `c`.
pub open spec fn routes(v: DeviceView, v2: DeviceView, c: RoutingChange) -> bool {
    match c {
        RoutingChange::Keep => v2.loopback_module == v.loopback_module,
        RoutingChange::SetTo(x) => v2.loopback_module == x,
    }
}

/// The routing change of one step of enabling the passthrough: a loopback that
/// loaded sets the tracked id to the one `pactl` printed (none where it printed no
/// number); every other step keeps the routing.
pub open spec fn enable_routing(phase: EnablePhase, outcome: CommandOutcome) -> RoutingChange {
    match phase {
        EnablePhase::LoadLoopback => match outcome {
            CommandOutcome::Finished(o) => if o.success {
                RoutingChange::SetTo(module_id(o.stdout@))
            } else {
                RoutingChange::Keep
            },
            CommandOutcome::NotStarted => RoutingChange::Keep,
        },
        _ => RoutingChange::Keep,
    }
}

/// The loopback tracked after the routing changes `cs`, from `start`: the value of
/// the last change that set it, or `start` where none did.
pub open spec fn tracked_after(start: Option<u32>, cs: Seq<RoutingChange>) -> Option<u32>
    decreases cs.len(),
{
    if cs.len() == 0 {
        start
    } else {
        match cs.last() {
            RoutingChange::Keep => tracked_after(start, cs.drop_last()),
            RoutingChange::SetTo(x) => x,
        }
    }
}

/// Along any run of calls on a device made by `VirtualDevice::new` (whose states are
/// `vs`, each call with the routing change its contract states, `cs`), the
/// passthrough is on at the end exactly when the last call that changed the routing
/// set a loopback id. Only an enabling step whose loopback loaded and printed its id
/// sets one (`enable_routing`); disabling and destroying clear it, whatever their
/// outcome; creating and every other step keep it.
pub proof fn lemma_passthrough_follows_routing(vs: Seq<DeviceView>, cs: Seq<RoutingChange>)
    requires
        vs.len() == cs.len() + 1,
        vs[0].loopback_module is None,
        forall|i: int| 0 <= i < cs.len() ==> routes(vs[i], vs[i + 1], #[trigger] cs[i]),
    ensures
        vs.last().loopback_module == tracked_after(None, cs),
        (vs.last().loopback_module is Some) <==> (tracked_after(None, cs) is Some),
    decreases cs.len(),
{
    if cs.len() > 0 {
        let n = cs.len() - 1;
        assert(routes(vs[n], vs[n + 1], cs[n]));
        lemma_passthrough_follows_routing(vs.drop_last(), cs.drop_last());
        assert(vs.drop_last().last() == vs[n]);
    }
}

/// Where the RNNoise LADSPA plugin is installed.
pub const RNNOISE_PLUGIN_PATH: &'static str = "/usr/lib/ladspa/librnnoise_ladspa.so";

/// Whether a file exists at `path`: calls `std::path::Path::exists`. The answer
/// depends on the disk, so nothing is claimed of it.
#[verifier::external_body]
fn path_exists(path: &str) -> bool {
    std::path::Path::new(path).exists()
}

impl VirtualDevice {
    /// Whether the RNNoise LADSPA plugin is installed at `RNNOISE_PLUGIN_PATH`. The
    /// answer depends on the disk, so nothing is claimed of it.
    pub fn is_rnnoise_available() -> bool {
        path_exists(RNNOISE_PLUGIN_PATH)
    }

    /// A device for the sink `sink_name`, with no modules loaded yet.
    pub fn new(sink_name: &str) -> (d: Self)
        ensures
            d@.sink_name == sink_name@,
            d@.sink_module is None,
            d@.source_module is None,
            d@.loopback_module is None,
            d@.ladspa_module is None,
    {
        VirtualDevice {
            sink_name: String::from_str(sink_name),
            sink_module_id: None,
            source_module_id: None,
            loopback_module_id: None,
            ladspa_module_id: None,
        }
    }

    /// The sink's name.
    pub fn sink_name(&self) -> (r: &str)
        ensures
            r@ == self@.sink_name,
    {
        self.sink_name.as_str()
    }

    /// Name of the denoised source: the sink's name followed by `_denoised`.
    pub fn denoised_source_name(&self) -> (r: String)
        ensures
            r@ == denoised_name_of(self@.sink_name),
    {
        prefixed(self.sink_name.as_str(), "_denoised")
    }

    /// Name of the virtual source that applications use as a microphone: the sink's
    /// name followed by `_mic`.
    pub fn source_name(&self) -> (r: String)
        ensures
            r@ == source_name_of(self@.sink_name),
    {
        prefixed(self.sink_name.as_str(), "_mic")
    }

    /// Whether the real microphone is being passed through to the sink.
    pub fn is_mic_passthrough(&self) -> (b: bool)
        ensures
            b == (self@.loopback_module is Some),
    {
        self.loopback_module_id.is_some()
    }

    /// Whether the sink exists, from what `pactl list short sinks` came to: some line
    /// of the listing contains the sink's name.
    pub fn exists_in_listing(&self, sinks: &CommandOutcome) -> (r: Result<bool, PactlError>)
        ensures
            match sinks {
                CommandOutcome::NotStarted => r matches Err(PactlError::NotStarted(m)) && m@
                    == "Failed to run pactl"@,
                CommandOutcome::Finished(o) => r == Ok::<bool, PactlError>(
                    listing_has(o.stdout@, self@.sink_name),
                ),
            },
    {
        match sinks {
            CommandOutcome::NotStarted => Err(PactlError::NotStarted(String::from_str("Failed to run pactl"))),
            CommandOutcome::Finished(o) => Ok(
                listing_contains(o.stdout.as_str(), self.sink_name.as_str()),
            ),
        }
    }

    fn null_sink_command(&self) -> (r: Vec<String>)
        ensures
            string_views(r@) == null_sink_args(self@.sink_name),
    {
        let mut r = args_of(&["load-module", "module-null-sink"]);
        r.push(prefixed("sink_name=", self.sink_name.as_str()));
        let mut p = String::from_str("sink_properties=device.description=\"");
        p.append(self.sink_name.as_str());
        p.append("_Virtual_Mic\"");
        r.push(p);
        assert(string_views(r@) =~= null_sink_args(self@.sink_name));
        r
    }

    fn mute_off_command(&self) -> (r: Vec<String>)
        ensures
            string_views(r@) == mute_off_args(self@.sink_name),
    {
        let mut r = args_of(&["set-sink-mute"]);
        r.push(self.sink_name.clone());
        r.push(String::from_str("0"));
        assert(string_views(r@) =~= mute_off_args(self@.sink_name));
        r
    }

    fn full_volume_command(&self) -> (r: Vec<String>)
        ensures
            string_views(r@) == full_volume_args(self@.sink_name),
    {
        let mut r = args_of(&["set-sink-volume"]);
        r.push(self.sink_name.clone());
        r.push(String::from_str("100%"));
        assert(string_views(r@) =~= full_volume_args(self@.sink_name));
        r
    }

    fn virtual_source_command(&self) -> (r: Vec<String>)
        ensures
            string_views(r@) == virtual_source_args(self@.sink_name),
    {
        let mut r = args_of(&["load-module", "module-virtual-source"]);
        let src = self.source_name();
        r.push(prefixed("source_name=", src.as_str()));
        let mut m = prefixed("master=", self.sink_name.as_str());
        m.append(".monitor");
        r.push(m);
        let mut p = String::from_str("source_properties=device.description=\"");
        p.append(self.sink_name.as_str());
        p.append("_Microphone\"");
        r.push(p);
        assert(string_views(r@) =~= virtual_source_args(self@.sink_name));
        r
    }

    fn ladspa_command(&self, source: &str) -> (r: Vec<String>)
        ensures
            string_views(r@) == ladspa_args(self@.sink_name, source@),
    {
        let mut r = args_of(&["load-module", "module-ladspa-source"]);
        let d = self.denoised_source_name();
        r.push(prefixed("source_name=", d.as_str()));
        r.push(prefixed("master=", source));
        r.push(String::from_str("plugin=librnnoise_ladspa"));
        r.push(String::from_str("label=noise_suppressor_mono"));
        assert(string_views(r@) =~= ladspa_args(self@.sink_name, source@));
        r
    }

    fn loopback_command(&self, source: &str) -> (r: Vec<String>)
        ensures
            string_views(r@) == loopback_args(self@.sink_name, source@),
    {
        let mut r = args_of(&["load-module", "module-loopback"]);
        r.push(prefixed("source=", source));
        r.push(prefixed("sink=", self.sink_name.as_str()));
        r.push(String::from_str("latency_msec=30"));
        assert(string_views(r@) =~= loopback_args(self@.sink_name, source@));
        r
    }

    /// Starts creating the device: the sinks are listed first.
    pub fn create(&self) -> (r: (CreateOp, PactlStep))
        ensures
            r.0.phase is CheckSink,
            runs(r.1, list_sinks_args()),
    {
        (CreateOp { phase: CreatePhase::CheckSink }, PactlStep::Run(list_sinks_command()))
    }

    /// Starts enabling the passthrough of the microphone `source_name` into the sink.
    /// Nothing is done when it is already on. Otherwise, with noise suppression asked
    /// for and the RNNoise plugin available, an RNNoise source is loaded over the
    /// microphone first; else the loopback is loaded straight away.
    pub fn enable_mic_passthrough(
        &self,
        source_name: &str,
        noise_suppression: bool,
        rnnoise_available: bool,
    ) -> (r: (EnableMicOp, PactlStep))
        ensures
            r.0.source@ == source_name@,
            self@.loopback_module is Some ==> succeeds(r.1),
            self@.loopback_module is None && noise_suppression && rnnoise_available ==> (r.0.phase is LoadLadspa
                && runs(r.1, ladspa_args(self@.sink_name, source_name@))),
            self@.loopback_module is None && !(noise_suppression && rnnoise_available) ==> (
            r.0.phase is LoadLoopback && runs(r.1, loopback_args(self@.sink_name, source_name@))),
    {
        let source = String::from_str(source_name);
        if self.loopback_module_id.is_some() {
            return (
                EnableMicOp { phase: EnablePhase::LoadLoopback, source, failure: String::new() },
                PactlStep::Done(Ok(())),
            );
        }
        if noise_suppression && rnnoise_available {
            let cmd = self.ladspa_command(source_name);
            (EnableMicOp { phase: EnablePhase::LoadLadspa, source, failure: String::new() }, PactlStep::Run(cmd))
        } else {
            let cmd = self.loopback_command(source_name);
            (EnableMicOp { phase: EnablePhase::LoadLoopback, source, failure: String::new() }, PactlStep::Run(cmd))
        }
    }

    /// The command that unloads the RNNoise source, where this device loaded one; the
    /// device then forgets it.
    pub fn unload_ladspa(&mut self) -> (r: Option<Vec<String>>)
        ensures
            routes(old(self)@, final(self)@, RoutingChange::Keep),
            final(self)@ == without_ladspa(old(self)@),
            match old(self)@.ladspa_module {
                Some(id) => r matches Some(a) && string_views(a@) == unload_args(id),
                None => r is None,
            },
    {
        match self.ladspa_module_id.take() {
            Some(id) => Some(unload_command(id)),
            None => None,
        }
    }

    fn ladspa_step(&mut self) -> (r: (DisablePhase, PactlStep))
        ensures
            final(self)@ == without_ladspa(old(self)@),
            ladspa_unload_step(old(self)@, r.1),
            r.0 is UnloadLadspa,
    {
        match self.unload_ladspa() {
            Some(cmd) => (DisablePhase::UnloadLadspa, PactlStep::Run(cmd)),
            None => (DisablePhase::UnloadLadspa, PactlStep::Done(Ok(()))),
        }
    }

    /// Starts disabling the passthrough: the loopback is unloaded (and forgotten) where
    /// this device loaded one, then the RNNoise source likewise.
    pub fn disable_mic_passthrough(&mut self) -> (r: (DisableMicOp, PactlStep))
        ensures
            routes(old(self)@, final(self)@, RoutingChange::SetTo(None)),
            match old(self)@.loopback_module {
                Some(id) => r.0.phase is UnloadLoopback && runs(r.1, unload_args(id))
                    && final(self)@ == (DeviceView { loopback_module: None, ..old(self)@ }),
                None => r.0.phase is UnloadLadspa && ladspa_unload_step(old(self)@, r.1)
                    && final(self)@ == without_ladspa(old(self)@),
            },
    {
        match self.loopback_module_id.take() {
            Some(id) => (DisableMicOp { phase: DisablePhase::UnloadLoopback }, PactlStep::Run(unload_command(id))),
            None => {
                let (phase, step) = self.ladspa_step();
                (DisableMicOp { phase }, step)
            },
        }
    }

    fn teardown_step(&mut self) -> (r: (DestroyPhase, PactlStep))
        ensures
            teardown_continues(old(self)@, final(self)@, r.0, r.1),
    {
        match self.ladspa_module_id.take() {
            Some(id) => {
                return (DestroyPhase::UnloadLadspa, PactlStep::Run(unload_command(id)));
            },
            None => {},
        }
        match self.source_module_id.take() {
            Some(id) => {
                return (DestroyPhase::UnloadSource, PactlStep::Run(unload_command(id)));
            },
            None => {},
        }
        match self.sink_module_id.take() {
            Some(id) => (DestroyPhase::UnloadSink, PactlStep::Run(unload_command(id))),
            None => (DestroyPhase::UnloadSink, PactlStep::Done(Ok(()))),
        }
    }

    fn destroy_from_disable(&mut self, dop: DisableMicOp, step: PactlStep) -> (r: (DestroyOp, PactlStep))
        ensures
            step is Run ==> r.0.phase == DestroyPhase::Disabling(dop) && r.1 == step && final(self)@
                == old(self)@,
            step is Done ==> teardown_continues(old(self)@, final(self)@, r.0.phase, r.1),
    {
        match step {
            PactlStep::Run(cmd) => (DestroyOp { phase: DestroyPhase::Disabling(dop) }, PactlStep::Run(cmd)),
            PactlStep::Done(_) => {
                let (phase, s) = self.teardown_step();
                (DestroyOp { phase }, s)
            },
        }
    }

    /// Starts destroying the device: the passthrough is disabled first (see
    /// `disable_mic_passthrough`).
    pub fn destroy(&mut self) -> (r: (DestroyOp, PactlStep))
        ensures
            routes(old(self)@, final(self)@, RoutingChange::SetTo(None)),
            destroy_begins(old(self)@, final(self)@, r.0.phase, r.1),
    {
        let (dop, step) = self.disable_mic_passthrough();
        self.destroy_from_disable(dop, step)
    }

    /// Forgets the null sink and the virtual source, so that they stay loaded when the
    /// application exits.
    pub fn forget_modules(&mut self)
        ensures
            routes(old(self)@, final(self)@, RoutingChange::Keep),
            final(self)@ == (DeviceView { sink_module: None, source_module: None, ..old(self)@ }),
    {
        self.sink_module_id = None;
        self.source_module_id = None;
    }

    /// Ids of modules left behind by earlier sessions, from a `pactl list short modules`
    /// listing: loopbacks into this sink, then on each line also RNNoise sources named
    /// after it, as the first word of each matching line.
    pub fn stale_module_ids(&self, modules: &str) -> (r: Vec<String>)
        ensures
            string_views(r@) == stale_ids_of(lines(modules@), self@.sink_name),
    {
        let v = chars_of(modules);
        let ls = lines_of(v.as_slice());
        let ghost lv = views(ls@);
        let lb = chars_of("module-loopback");
        let la = chars_of("module-ladspa-source");
        let sink = chars_of(self.sink_name.as_str());
        let den_s = self.denoised_source_name();
        let den = chars_of(den_s.as_str());
        let mut r: Vec<String> = Vec::new();
        let mut i: usize = 0;
        while i < ls.len()
            invariant
                0 <= i <= ls.len(),
                lv == views(ls@),
                lv == lines(modules@),
                lb@ == "module-loopback"@,
                la@ == "module-ladspa-source"@,
                sink@ == self@.sink_name,
                den@ == denoised_name_of(self@.sink_name),
                string_views(r@) == stale_ids_of(lv.take(i as int), self@.sink_name),
            decreases ls.len() - i,
        {
            assert(lv.take(i + 1).drop_last() =~= lv.take(i as int));
            let line = ls[i].as_slice();
            let ghost before = string_views(r@);
            let w = crate::text::first_word_chars(line);
            if contains_chars(line, lb.as_slice()) && contains_chars(line, sink.as_slice()) {
                match &w {
                    Some(w) => {
                        r.push(string_from_chars(w.as_slice()));
                    },
                    None => {},
                }
            }
            let ghost mid = string_views(r@);
            if contains_chars(line, la.as_slice()) && contains_chars(line, den.as_slice()) {
                match &w {
                    Some(w) => {
                        r.push(string_from_chars(w.as_slice()));
                    },
                    None => {},
                }
            }
            proof {
                let l = lv[i as int];
                assert(mid =~= stale_first(before, l, self@.sink_name));
                assert(string_views(r@) =~= stale_second(mid, l, self@.sink_name));
            }
            i = i + 1;
        }
        assert(lv.take(ls.len() as int) =~= lv);
        r
    }
}

/// `ids` followed by the first word of `l` when `l` is a loopback into `sink`.
pub open spec fn stale_first(ids: Seq<Seq<char>>, l: Seq<char>, sink: Seq<char>) -> Seq<Seq<char>> {
    if contains(l, "module-loopback"@) && contains(l, sink) && crate::text::first_word(l) is Some {
        ids.push(crate::text::first_word(l)->0)
    } else {
        ids
    }
}

/// `ids` followed by the first word of `l` when `l` is an RNNoise source of `sink`.
pub open spec fn stale_second(ids: Seq<Seq<char>>, l: Seq<char>, sink: Seq<char>) -> Seq<Seq<char>> {
    if contains(l, "module-ladspa-source"@) && contains(l, denoised_name_of(sink))
        && crate::text::first_word(l) is Some {
        ids.push(crate::text::first_word(l)->0)
    } else {
        ids
    }
}

/// The stale module ids named by the lines `ls`.
pub open spec fn stale_ids_of(ls: Seq<Seq<char>>, sink: Seq<char>) -> Seq<Seq<char>>
    decreases ls.len(),
{
    if ls.len() == 0 {
        seq![]
    } else {
        stale_second(stale_first(stale_ids_of(ls.drop_last(), sink), ls.last(), sink), ls.last(), sink)
    }
}

impl CreateOp {
    /// Takes what the last command came to and gives the next step.
    ///
    /// - Sinks listed: on to unmuting when a line names the sink, else to loading it.
    /// - Sink loaded: its module id is kept, on to unmuting; a failure ends the
    ///   operation with `pactl`'s standard error.
    /// - Unmuted, then volume set: whatever came of them, on to listing the sources.
    /// - Sources listed: done when a line names the virtual source, else load it.
    /// - Source loaded: its module id is kept where it succeeded; done either way.
    ///
    /// A command that could not be started ends the operation with an error, but for
    /// unmuting and setting the volume.
    pub fn advance(&mut self, dev: &mut VirtualDevice, outcome: CommandOutcome) -> (step: PactlStep)
        ensures
            routes(old(dev)@, final(dev)@, RoutingChange::Keep),
            final(dev)@.sink_name == old(dev)@.sink_name,
            final(dev)@.loopback_module == old(dev)@.loopback_module,
            final(dev)@.ladspa_module == old(dev)@.ladspa_module,
            ({
                let s = old(dev)@.sink_name;
                match old(self).phase {
                    CreatePhase::CheckSink => final(dev)@ == old(dev)@ && match outcome {
                        CommandOutcome::NotStarted => not_started(step, "Failed to run pactl"@),
                        CommandOutcome::Finished(o) => if listing_has(o.stdout@, s) {
                            final(self).phase is Unmute && runs(step, mute_off_args(s))
                        } else {
                            final(self).phase is LoadSink && runs(step, null_sink_args(s))
                        },
                    },
                    CreatePhase::LoadSink => match outcome {
                        CommandOutcome::NotStarted => final(dev)@ == old(dev)@ && not_started(
                            step,
                            "Failed to create virtual sink"@,
                        ),
                        CommandOutcome::Finished(o) => if o.success {
                            final(dev)@ == (DeviceView { sink_module: module_id(o.stdout@), ..old(dev)@ })
                                && final(self).phase is Unmute && runs(step, mute_off_args(s))
                        } else {
                            final(dev)@ == old(dev)@ && (step matches PactlStep::Done(
                                Err(PactlError::NullSinkFailed(e)),
                            ) && e@ == o.stderr@)
                        },
                    },
                    CreatePhase::Unmute => final(dev)@ == old(dev)@ && final(self).phase is SetVolume
                        && runs(step, full_volume_args(s)),
                    CreatePhase::SetVolume => final(dev)@ == old(dev)@ && final(self).phase is CheckSource
                        && runs(step, list_short_sources_args()),
                    CreatePhase::CheckSource => final(dev)@ == old(dev)@ && match outcome {
                        CommandOutcome::NotStarted => not_started(step, "Failed to run pactl"@),
                        CommandOutcome::Finished(o) => if listing_has(o.stdout@, source_name_of(s)) {
                            succeeds(step)
                        } else {
                            final(self).phase is LoadSource && runs(step, virtual_source_args(s))
                        },
                    },
                    CreatePhase::LoadSource => match outcome {
                        CommandOutcome::NotStarted => final(dev)@ == old(dev)@ && not_started(
                            step,
                            "Failed to create virtual source"@,
                        ),
                        CommandOutcome::Finished(o) => succeeds(step) && if o.success {
                            final(dev)@ == (DeviceView {
                                source_module: module_id(o.stdout@),
                                ..old(dev)@
                            })
                        } else {
                            final(dev)@ == old(dev)@
                        },
                    },
                }
            }),
    {
        match self.phase {
            CreatePhase::CheckSink => match outcome {
                CommandOutcome::NotStarted => not_started_step("Failed to run pactl"),
                CommandOutcome::Finished(o) => {
                    if listing_contains(o.stdout.as_str(), dev.sink_name.as_str()) {
                        self.phase = CreatePhase::Unmute;
                        PactlStep::Run(dev.mute_off_command())
                    } else {
                        self.phase = CreatePhase::LoadSink;
                        PactlStep::Run(dev.null_sink_command())
                    }
                },
            },
            CreatePhase::LoadSink => match outcome {
                CommandOutcome::NotStarted => not_started_step("Failed to create virtual sink"),
                CommandOutcome::Finished(o) => {
                    if o.success {
                        dev.sink_module_id = parse_module_id(o.stdout.as_str());
                        self.phase = CreatePhase::Unmute;
                        PactlStep::Run(dev.mute_off_command())
                    } else {
                        PactlStep::Done(Err(PactlError::NullSinkFailed(o.stderr)))
                    }
                },
            },
            CreatePhase::Unmute => {
                self.phase = CreatePhase::SetVolume;
                PactlStep::Run(dev.full_volume_command())
            },
            CreatePhase::SetVolume => {
                self.phase = CreatePhase::CheckSource;
                let r = args_of(&["list", "short", "sources"]);
                assert(string_views(r@) =~= list_short_sources_args());
                PactlStep::Run(r)
            },
            CreatePhase::CheckSource => match outcome {
                CommandOutcome::NotStarted => not_started_step("Failed to run pactl"),
                CommandOutcome::Finished(o) => {
                    let src = dev.source_name();
                    if listing_contains(o.stdout.as_str(), src.as_str()) {
                        PactlStep::Done(Ok(()))
                    } else {
                        self.phase = CreatePhase::LoadSource;
                        PactlStep::Run(dev.virtual_source_command())
                    }
                },
            },
            CreatePhase::LoadSource => match outcome {
                CommandOutcome::NotStarted => not_started_step("Failed to create virtual source"),
                CommandOutcome::Finished(o) => {
                    if o.success {
                        dev.source_module_id = parse_module_id(o.stdout.as_str());
                    }
                    PactlStep::Done(Ok(()))
                },
            },
        }
    }
}

impl EnableMicOp {
    /// Takes what the last command came to and gives the next step.
    ///
    /// - RNNoise source loaded: its id is kept and the loopback takes the denoised
    ///   source; where loading failed the loopback takes the raw microphone.
    /// - Loopback loaded: its id is kept and the passthrough is on. Where loading
    ///   failed, an RNNoise source loaded for it is unloaded and the operation ends
    ///   with `pactl`'s trimmed standard error.
    /// - A command that could not be started ends the operation with an error.
    pub fn advance(&mut self, dev: &mut VirtualDevice, outcome: CommandOutcome) -> (step: PactlStep)
        ensures
            routes(old(dev)@, final(dev)@, enable_routing(old(self).phase, outcome)),
            final(self).source == old(self).source,
            final(dev)@.sink_name == old(dev)@.sink_name,
            final(dev)@.sink_module == old(dev)@.sink_module,
            final(dev)@.source_module == old(dev)@.source_module,
            ({
                let s = old(dev)@.sink_name;
                let src = old(self).source@;
                match old(self).phase {
                    EnablePhase::LoadLadspa => match outcome {
                        CommandOutcome::NotStarted => final(dev)@ == old(dev)@ && not_started(
                            step,
                            "Failed to create RNNoise LADSPA source"@,
                        ),
                        CommandOutcome::Finished(o) => final(self).phase is LoadLoopback && if o.success {
                            final(dev)@ == (DeviceView {
                                ladspa_module: module_id(o.stdout@),
                                ..old(dev)@
                            }) && runs(step, loopback_args(s, denoised_name_of(s)))
                        } else {
                            final(dev)@ == old(dev)@ && runs(step, loopback_args(s, src))
                        },
                    },
                    EnablePhase::LoadLoopback => match outcome {
                        CommandOutcome::NotStarted => final(dev)@ == old(dev)@ && not_started(
                            step,
                            "Failed to create mic loopback"@,
                        ),
                        CommandOutcome::Finished(o) => if o.success {
                            final(dev)@ == (DeviceView {
                                loopback_module: module_id(o.stdout@),
                                ..old(dev)@
                            }) && succeeds(step)
                        } else {
                            final(dev)@ == without_ladspa(old(dev)@) && match old(dev)@.ladspa_module {
                                Some(id) => final(self).phase is CleanupLadspa && final(self).failure@
                                    == trim(o.stderr@) && runs(step, unload_args(id)),
                                None => step matches PactlStep::Done(
                                    Err(PactlError::LoopbackFailed(e)),
                                ) && e@ == trim(o.stderr@),
                            }
                        },
                    },
                    EnablePhase::CleanupLadspa => final(dev)@ == old(dev)@ && (step matches PactlStep::Done(
                        Err(PactlError::LoopbackFailed(e)),
                    ) && e@ == old(self).failure@),
                }
            }),
    {
        match self.phase {
            EnablePhase::LoadLadspa => match outcome {
                CommandOutcome::NotStarted => not_started_step("Failed to create RNNoise LADSPA source"),
                CommandOutcome::Finished(o) => {
                    self.phase = EnablePhase::LoadLoopback;
                    if o.success {
                        dev.ladspa_module_id = parse_module_id(o.stdout.as_str());
                        let d = dev.denoised_source_name();
                        PactlStep::Run(dev.loopback_command(d.as_str()))
                    } else {
                        PactlStep::Run(dev.loopback_command(self.source.as_str()))
                    }
                },
            },
            EnablePhase::LoadLoopback => match outcome {
                CommandOutcome::NotStarted => not_started_step("Failed to create mic loopback"),
                CommandOutcome::Finished(o) => {
                    if o.success {
                        dev.loopback_module_id = parse_module_id(o.stdout.as_str());
                        PactlStep::Done(Ok(()))
                    } else {
                        let ev = chars_of(o.stderr.as_str());
                        let e = string_from_chars(trim_chars(ev.as_slice()).as_slice());
                        match dev.unload_ladspa() {
                            Some(cmd) => {
                                self.phase = EnablePhase::CleanupLadspa;
                                self.failure = e;
                                PactlStep::Run(cmd)
                            },
                            None => PactlStep::Done(Err(PactlError::LoopbackFailed(e))),
                        }
                    }
                },
            },
            EnablePhase::CleanupLadspa => PactlStep::Done(
                Err(PactlError::LoopbackFailed(self.failure.clone())),
            ),
        }
    }
}

impl DisableMicOp {
    /// Takes what the last command came to and gives the next step: after the loopback
    /// is unloaded (whatever its exit status) the RNNoise source follows; after that,
    /// done. A loopback unload that could not be started ends the operation with an
    /// error.
    pub fn advance(&mut self, dev: &mut VirtualDevice, outcome: CommandOutcome) -> (step: PactlStep)
        ensures
            routes(old(dev)@, final(dev)@, RoutingChange::Keep),
            match old(self).phase {
                DisablePhase::UnloadLoopback => match outcome {
                    CommandOutcome::NotStarted => final(dev)@ == old(dev)@ && not_started(
                        step,
                        "Failed to unload loopback module"@,
                    ),
                    CommandOutcome::Finished(_) => final(self).phase is UnloadLadspa
                        && final(dev)@ == without_ladspa(old(dev)@) && ladspa_unload_step(
                        old(dev)@,
                        step,
                    ),
                },
                DisablePhase::UnloadLadspa => final(dev)@ == old(dev)@ && succeeds(step),
            },
    {
        match self.phase {
            DisablePhase::UnloadLoopback => match outcome {
                CommandOutcome::NotStarted => not_started_step("Failed to unload loopback module"),
                CommandOutcome::Finished(_) => {
                    let (phase, step) = dev.ladspa_step();
                    self.phase = phase;
                    step
                },
            },
            DisablePhase::UnloadLadspa => PactlStep::Done(Ok(())),
        }
    }
}

impl DestroyOp {
    /// Takes what the last command came to and gives the next step.
    ///
    /// While disabling the passthrough, its steps are followed and its result ignored;
    /// then the RNNoise source, the virtual source and the null sink are unloaded in
    /// turn, each where the device loaded it. An unload of the virtual source or of
    /// the sink that could not be started ends the operation with an error.
    pub fn advance(&mut self, dev: &mut VirtualDevice, outcome: CommandOutcome) -> (step: PactlStep)
        ensures
            routes(old(dev)@, final(dev)@, RoutingChange::Keep),
            match old(self).phase {
                DestroyPhase::Disabling(d) => match d.phase {
                    DisablePhase::UnloadLoopback => match outcome {
                        CommandOutcome::NotStarted => teardown_continues(
                            old(dev)@,
                            final(dev)@,
                            final(self).phase,
                            step,
                        ),
                        CommandOutcome::Finished(_) => match old(dev)@.ladspa_module {
                            Some(id) => final(self).phase is Disabling && runs(step, unload_args(id))
                                && final(dev)@ == without_ladspa(old(dev)@),
                            None => teardown_continues(
                                old(dev)@,
                                final(dev)@,
                                final(self).phase,
                                step,
                            ),
                        },
                    },
                    DisablePhase::UnloadLadspa => teardown_continues(
                        old(dev)@,
                        final(dev)@,
                        final(self).phase,
                        step,
                    ),
                },
                DestroyPhase::UnloadLadspa => teardown_continues(
                    old(dev)@,
                    final(dev)@,
                    final(self).phase,
                    step,
                ),
                DestroyPhase::UnloadSource => match outcome {
                    CommandOutcome::NotStarted => final(dev)@ == old(dev)@ && not_started(
                        step,
                        "Failed to unload virtual source module"@,
                    ),
                    CommandOutcome::Finished(_) => teardown_continues(
                        old(dev)@,
                        final(dev)@,
                        final(self).phase,
                        step,
                    ),
                },
                DestroyPhase::UnloadSink => final(dev)@ == old(dev)@ && match outcome {
                    CommandOutcome::NotStarted => not_started(step, "Failed to unload sink module"@),
                    CommandOutcome::Finished(_) => succeeds(step),
                },
            },
    {
        match &mut self.phase {
            DestroyPhase::Disabling(d) => {
                let mut d2 = DisableMicOp { phase: d.phase.copy() };
                let step = d2.advance(dev, outcome);
                let (op, s) = dev.destroy_from_disable(d2, step);
                self.phase = op.phase;
                s
            },
            DestroyPhase::UnloadLadspa => {
                let (phase, s) = dev.teardown_step();
                self.phase = phase;
                s
            },
            DestroyPhase::UnloadSource => match outcome {
                CommandOutcome::NotStarted => not_started_step("Failed to unload virtual source module"),
                CommandOutcome::Finished(_) => {
                    let (phase, s) = dev.teardown_step();
                    self.phase = phase;
                    s
                },
            },
            DestroyPhase::UnloadSink => match outcome {
                CommandOutcome::NotStarted => not_started_step("Failed to unload sink module"),
                CommandOutcome::Finished(_) => PactlStep::Done(Ok(())),
            },
        }
    }
}

} // verus!
