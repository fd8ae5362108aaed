//! What holds of every run of a candidate and of every run of a scan,
//! whatever the host reports.
//!
//! A run is the sequence of steps that a sequence of events brings about.
//! The theorems here are stated over [`candidate_run`] and [`scan_run`].

use vstd::prelude::*;
use libloading::Library;
use crate::plugin::descriptor::name_in;
use crate::plugin::discovery::{following, remaining, start, turn, DiscoveryView};
use crate::plugin::error::FailureKind;
use crate::plugin::pipeline::{fresh, step, ActionView, CandidateView, EventView, Phase};
use crate::plugin::source::{is_candidate, logical_name, PluginSourceView};
use crate::plugin::toolchain::{
    artifact_path, assembly_command, native_command, stage_failure, Stage, ToolOutcomeView,
    ToolchainView,
};

verus! {

/// Where a run of a candidate ends, and the actions that its steps asked for.
pub struct CandidateRun {
    pub candidate: CandidateView,
    pub registry: Option<Seq<Library>>,
    pub actions: Seq<ActionView>,
}

/// The run of a candidate over `events`, one step for each event in order.
pub open spec fn candidate_run(
    candidate: CandidateView,
    toolchain: ToolchainView,
    registry: Option<Seq<Library>>,
    events: Seq<EventView>,
) -> CandidateRun
    decreases events.len(),
{
    if events.len() == 0 {
        CandidateRun { candidate, registry, actions: Seq::empty() }
    } else {
        let before = candidate_run(candidate, toolchain, registry, events.drop_last());
        let last = step(before.candidate, toolchain, before.registry, events.last());
        CandidateRun {
            candidate: last.candidate,
            registry: last.registry,
            actions: before.actions.push(last.action),
        }
    }
}

/// Where a run of a scan ends, and the actions that its turns asked for.
pub struct ScanRun {
    pub discovery: DiscoveryView,
    pub registry: Option<Seq<Library>>,
    pub actions: Seq<ActionView>,
}

/// The run of a scan over `events`, one turn for each event in order.
pub open spec fn scan_run(
    discovery: DiscoveryView,
    registry: Option<Seq<Library>>,
    events: Seq<EventView>,
) -> ScanRun
    decreases events.len(),
{
    if events.len() == 0 {
        ScanRun { discovery, registry, actions: Seq::empty() }
    } else {
        let before = scan_run(discovery, registry, events.drop_last());
        let last = turn(before.discovery, before.registry, events.last());
        ScanRun {
            discovery: last.discovery,
            registry: last.registry,
            actions: before.actions.push(last.action),
        }
    }
}

/// A run asks for one action per event.
pub proof fn candidate_run_answers_each_event(
    candidate: CandidateView,
    toolchain: ToolchainView,
    registry: Option<Seq<Library>>,
    events: Seq<EventView>,
)
    ensures
        candidate_run(candidate, toolchain, registry, events).actions.len() == events.len(),
    decreases events.len(),
{
    if events.len() > 0 {
        candidate_run_answers_each_event(candidate, toolchain, registry, events.drop_last());
    }
}

/// A scan asks for one action per event.
pub proof fn scan_run_answers_each_event(
    discovery: DiscoveryView,
    registry: Option<Seq<Library>>,
    events: Seq<EventView>,
)
    ensures
        scan_run(discovery, registry, events).actions.len() == events.len(),
    decreases events.len(),
{
    if events.len() > 0 {
        scan_run_answers_each_event(discovery, registry, events.drop_last());
    }
}

/// A candidate that is done or has failed stays as it is: no event changes
/// it or the registry, and every event is answered with `Stop`. There is no
/// retry.
pub proof fn terminal_candidate_stays(
    candidate: CandidateView,
    toolchain: ToolchainView,
    registry: Option<Seq<Library>>,
    events: Seq<EventView>,
)
    requires
        candidate.phase.is_terminal(),
    ensures
        candidate_run(candidate, toolchain, registry, events).candidate == candidate,
        candidate_run(candidate, toolchain, registry, events).registry == registry,
        forall|i: int|
            0 <= i < events.len() ==> #[trigger] candidate_run(
                candidate,
                toolchain,
                registry,
                events,
            ).actions[i] == ActionView::Stop,
    decreases events.len(),
{
    if events.len() > 0 {
        terminal_candidate_stays(candidate, toolchain, registry, events.drop_last());
        candidate_run_answers_each_event(candidate, toolchain, registry, events.drop_last());
    }
}

/// An entry whose file name does not hold the source suffix is dropped with
/// a `LoadError` at its first event, and never causes outside work: no step
/// of any run asks for a process, a load or a symbol, and the registry stays
/// as it was.
pub proof fn unrecognised_entry_is_dropped(
    source: PluginSourceView,
    toolchain: ToolchainView,
    registry: Option<Seq<Library>>,
    events: Seq<EventView>,
)
    requires
        !is_candidate(source.file_name),
        events.len() > 0,
    ensures
        ({
            let run = candidate_run(fresh(source), toolchain, registry, events);
            &&& run.candidate.phase == Phase::Failed(FailureKind::LoadError)
            &&& run.registry == registry
            &&& run.actions.len() == events.len()
            &&& run.actions[0] matches ActionView::Reject(failure) && failure.0
                == FailureKind::LoadError
            &&& forall|i: int|
                0 <= i < events.len() ==> !(#[trigger] run.actions[i]).is_outside_work()
        }),
    decreases events.len(),
{
    candidate_run_answers_each_event(fresh(source), toolchain, registry, events);
    if events.len() == 1 {
        assert(events.drop_last().len() == 0);
        let before = candidate_run(fresh(source), toolchain, registry, events.drop_last());
        assert(before.candidate == fresh(source));
    } else {
        unrecognised_entry_is_dropped(source, toolchain, registry, events.drop_last());
    }
}

/// A candidate keeps its entry, and once it has begun it is named after it:
/// in any run from the beginning, a candidate that is compiling, loading,
/// resolving or done carries the logical name of its entry's file name, so
/// every file the toolchain is asked to write is named after that.
pub proof fn candidate_is_named_after_its_entry(
    source: PluginSourceView,
    toolchain: ToolchainView,
    registry: Option<Seq<Library>>,
    events: Seq<EventView>,
)
    ensures
        ({
            let run = candidate_run(fresh(source), toolchain, registry, events);
            &&& run.candidate.source == source
            &&& !(run.candidate.phase is Pending || run.candidate.phase is Failed)
                ==> logical_name(source.file_name) == Some(run.candidate.name)
        }),
    decreases events.len(),
{
    if events.len() > 0 {
        candidate_is_named_after_its_entry(source, toolchain, registry, events.drop_last());
    }
}

/// There is no partial success: a step asks the host to load the native
/// library only when the second stage has just succeeded and the registry is
/// present, and a candidate reaches the second stage only when the first has
/// just succeeded.
pub proof fn library_is_loaded_only_after_both_stages(
    candidate: CandidateView,
    toolchain: ToolchainView,
    registry: Option<Seq<Library>>,
    event: EventView,
)
    ensures
        ({
            let after = step(candidate, toolchain, registry, event);
            &&& after.action is Load ==> candidate.phase == Phase::CompilingToNative
                && event is Tool && stage_failure(Stage::Native, event->Tool_0) is None
                && registry is Some
            &&& after.candidate.phase == Phase::CompilingToNative && candidate.phase
                != Phase::CompilingToNative ==> candidate.phase == Phase::CompilingToAssembly
                && event is Tool && stage_failure(Stage::Assembly, event->Tool_0) is None
        }),
{
}

/// The five events of a candidate for which everything goes well.
pub open spec fn smooth_events(
    first: ToolOutcomeView,
    second: ToolOutcomeView,
    library: Library,
    plugin: Seq<char>,
) -> Seq<EventView> {
    seq![
        EventView::Begin,
        EventView::Tool(first),
        EventView::Tool(second),
        EventView::Loaded(library),
        EventView::Resolved(plugin),
    ]
}

/// A candidate for which everything goes well is accepted. For every entry
/// whose file name holds the suffix, when both stages succeed, the library
/// loads and the descriptor is resolved, against a present registry that
/// holds `libraries`: the host is asked, in this order, to run the first
/// tool and the second, each on the files named after the entry's logical
/// name, to load the native library of that name, and to resolve the entry
/// symbol in the library at the position where the registry ended before;
/// the candidate is accepted with the name in the text the host reported,
/// which is that text itself when it holds no NUL; and the
/// registry holds the libraries it held, in their order, and the new one
/// behind them.
pub proof fn smooth_candidate_is_accepted(
    source: PluginSourceView,
    toolchain: ToolchainView,
    libraries: Seq<Library>,
    first: ToolOutcomeView,
    second: ToolOutcomeView,
    library: Library,
    plugin: Seq<char>,
)
    requires
        is_candidate(source.file_name),
        stage_failure(Stage::Assembly, first) is None,
        stage_failure(Stage::Native, second) is None,
    ensures
        ({
            let events = smooth_events(first, second, library, plugin);
            let run = candidate_run(fresh(source), toolchain, Some(libraries), events);
            let name = logical_name(source.file_name)->0;
            &&& run.candidate.phase == Phase::Done
            &&& run.registry == Some(libraries.push(library))
            &&& run.actions == seq![
                ActionView::Run(assembly_command(toolchain, name, source.path)),
                ActionView::Run(native_command(toolchain, name)),
                ActionView::Load(artifact_path(toolchain.workspace, name)),
                ActionView::Resolve(libraries.len()),
                ActionView::Accept(name_in(plugin)),
            ]
        }),
{
    let events = smooth_events(first, second, library, plugin);
    let registry = Some(libraries);
    let four = events.drop_last();
    let three = four.drop_last();
    let two = three.drop_last();
    let one = two.drop_last();
    let none = one.drop_last();
    assert(none.len() == 0);
    assert(one.last() == EventView::Begin);
    assert(two.last() == EventView::Tool(first));
    assert(three.last() == EventView::Tool(second));
    assert(four.last() == EventView::Loaded(library));
    assert(events.last() == EventView::Resolved(plugin));
    let run0 = candidate_run(fresh(source), toolchain, registry, none);
    assert(run0.candidate == fresh(source) && run0.registry == registry);
    let run1 = candidate_run(fresh(source), toolchain, registry, one);
    assert(run1.candidate.phase == Phase::CompilingToAssembly);
    let run2 = candidate_run(fresh(source), toolchain, registry, two);
    assert(run2.candidate.phase == Phase::CompilingToNative);
    let run3 = candidate_run(fresh(source), toolchain, registry, three);
    assert(run3.candidate.phase == Phase::Loading);
    let run4 = candidate_run(fresh(source), toolchain, registry, four);
    assert(run4.candidate.phase == Phase::ResolvingSymbol);
    let run = candidate_run(fresh(source), toolchain, registry, events);
    let name = logical_name(source.file_name)->0;
    assert(run.actions =~= seq![
        ActionView::Run(assembly_command(toolchain, name, source.path)),
        ActionView::Run(native_command(toolchain, name)),
        ActionView::Load(artifact_path(toolchain.workspace, name)),
        ActionView::Resolve(libraries.len()),
        ActionView::Accept(name_in(plugin)),
    ]);
}

/// Loading the same source twice gives two independent entries: when
/// everything goes well for two candidates of one entry, one after the
/// other, the registry holds what it held, then the first library, then the
/// second; the second candidate resolves in the library one position behind
/// the first, which stays where it was.
pub proof fn smooth_candidate_twice(
    source: PluginSourceView,
    toolchain: ToolchainView,
    libraries: Seq<Library>,
    first_events: (ToolOutcomeView, ToolOutcomeView, Library, Seq<char>),
    second_events: (ToolOutcomeView, ToolOutcomeView, Library, Seq<char>),
)
    requires
        is_candidate(source.file_name),
        stage_failure(Stage::Assembly, first_events.0) is None,
        stage_failure(Stage::Native, first_events.1) is None,
        stage_failure(Stage::Assembly, second_events.0) is None,
        stage_failure(Stage::Native, second_events.1) is None,
    ensures
        ({
            let first = candidate_run(
                fresh(source),
                toolchain,
                Some(libraries),
                smooth_events(first_events.0, first_events.1, first_events.2, first_events.3),
            );
            let second = candidate_run(
                fresh(source),
                toolchain,
                first.registry,
                smooth_events(second_events.0, second_events.1, second_events.2, second_events.3),
            );
            &&& first.actions[3] == ActionView::Resolve(libraries.len())
            &&& second.actions[3] == ActionView::Resolve(libraries.len() + 1)
            &&& second.candidate.phase == Phase::Done
            &&& second.registry == Some(libraries.push(first_events.2).push(second_events.2))
        }),
{
    smooth_candidate_is_accepted(
        source,
        toolchain,
        libraries,
        first_events.0,
        first_events.1,
        first_events.2,
        first_events.3,
    );
    smooth_candidate_is_accepted(
        source,
        toolchain,
        libraries.push(first_events.2),
        second_events.0,
        second_events.1,
        second_events.2,
        second_events.3,
    );
}

/// Nothing is loaded after teardown: in any run of a candidate against an
/// absent registry, no step asks the host to load a library or to resolve a
/// symbol, no candidate is accepted, and the registry stays absent.
pub proof fn absent_registry_loads_nothing(
    source: PluginSourceView,
    toolchain: ToolchainView,
    events: Seq<EventView>,
)
    ensures
        ({
            let run = candidate_run(fresh(source), toolchain, None, events);
            &&& run.registry is None
            &&& run.actions.len() == events.len()
            &&& !(run.candidate.phase is Loading || run.candidate.phase is ResolvingSymbol
                || run.candidate.phase is Done)
            &&& forall|i: int|
                0 <= i < events.len() ==> !((#[trigger] run.actions[i]) is Load
                    || run.actions[i] is Resolve || run.actions[i] is Accept)
        }),
    decreases events.len(),
{
    candidate_run_answers_each_event(fresh(source), toolchain, None, events);
    if events.len() > 0 {
        absent_registry_loads_nothing(source, toolchain, events.drop_last());
        candidate_run_answers_each_event(fresh(source), toolchain, None, events.drop_last());
    }
}

/// When the second tool cannot do its work, the candidate fails and nothing
/// is loaded: a run that begins a candidate, sees the first stage succeed
/// and then learns that the second failed rejects the candidate with that
/// failure, a `CompilerNotFound` when the tool could not be located and a
/// `CompileError` that names the second stage otherwise. No library is
/// loaded or resolved, and the registry stays as it was whatever follows.
pub proof fn failed_second_stage_registers_nothing(
    source: PluginSourceView,
    toolchain: ToolchainView,
    registry: Option<Seq<Library>>,
    first: ToolOutcomeView,
    second: ToolOutcomeView,
    events: Seq<EventView>,
)
    requires
        is_candidate(source.file_name),
        stage_failure(Stage::Assembly, first) is None,
        stage_failure(Stage::Native, second) is Some,
        events.len() >= 3,
        events[0] == EventView::Begin,
        events[1] == EventView::Tool(first),
        events[2] == EventView::Tool(second),
    ensures
        ({
            let run = candidate_run(fresh(source), toolchain, registry, events);
            let failure = stage_failure(Stage::Native, second)->0;
            let name = logical_name(source.file_name)->0;
            &&& failure.0 == FailureKind::CompilerNotFound || failure.0
                == FailureKind::CompileError
            &&& run.candidate.phase == Phase::Failed(failure.0)
            &&& run.registry == registry
            &&& run.actions.len() == events.len()
            &&& run.actions[0] == ActionView::Run(assembly_command(toolchain, name, source.path))
            &&& run.actions[1] == ActionView::Run(native_command(toolchain, name))
            &&& run.actions[2] == ActionView::Reject(failure)
            &&& forall|i: int|
                3 <= i < events.len() ==> #[trigger] run.actions[i] == ActionView::Stop
        }),
    decreases events.len(),
{
    candidate_run_answers_each_event(fresh(source), toolchain, registry, events);
    let shorter = events.drop_last();
    candidate_run_answers_each_event(fresh(source), toolchain, registry, shorter);
    if events.len() == 3 {
        let two = shorter;
        let one = two.drop_last();
        let none = one.drop_last();
        assert(none.len() == 0);
        assert(one.last() == EventView::Begin);
        assert(two.last() == EventView::Tool(first));
        assert(events.last() == EventView::Tool(second));
        let run0 = candidate_run(fresh(source), toolchain, registry, none);
        assert(run0.candidate == fresh(source));
        let run1 = candidate_run(fresh(source), toolchain, registry, one);
        assert(run1.candidate.phase == Phase::CompilingToAssembly);
        candidate_run_answers_each_event(fresh(source), toolchain, registry, one);
        let run2 = candidate_run(fresh(source), toolchain, registry, two);
        assert(run2.candidate.phase == Phase::CompilingToNative);
    } else {
        failed_second_stage_registers_nothing(source, toolchain, registry, first, second, shorter);
    }
}

/// Whether `after` holds the libraries `before` and exactly one more behind
/// them.
pub open spec fn grown_by_one(before: Seq<Library>, after: Option<Seq<Library>>) -> bool {
    after matches Some(libraries) && libraries.len() == before.len() + 1 && libraries.drop_last()
        == before
}

/// What a present registry that held `libraries` can hold once a candidate
/// has reached `phase`: nothing new before the candidate's library is loaded
/// or when compilation failed, one library more from then on.
pub open spec fn registry_fits(
    libraries: Seq<Library>,
    phase: Phase,
    registry: Option<Seq<Library>>,
) -> bool {
    match phase {
        Phase::ResolvingSymbol | Phase::Done => grown_by_one(libraries, registry),
        Phase::Failed(FailureKind::LoadError) => registry == Some(libraries) || grown_by_one(
            libraries,
            registry,
        ),
        _ => registry == Some(libraries),
    }
}

/// One candidate registers at most one library, and a candidate that
/// succeeds registers exactly one: run from its beginning against a present
/// registry, a candidate that is done has made the registry longer by one,
/// the libraries held before still in front; one that failed in compilation
/// has left it as it was.
pub proof fn candidate_registers_one(
    source: PluginSourceView,
    toolchain: ToolchainView,
    libraries: Seq<Library>,
    events: Seq<EventView>,
)
    ensures
        ({
            let run = candidate_run(fresh(source), toolchain, Some(libraries), events);
            &&& registry_fits(libraries, run.candidate.phase, run.registry)
            &&& run.candidate.phase is Done ==> run.registry is Some && run.registry->0.len()
                == libraries.len() + 1
        }),
    decreases events.len(),
{
    if events.len() > 0 {
        candidate_registers_one(source, toolchain, libraries, events.drop_last());
        let before = candidate_run(fresh(source), toolchain, Some(libraries), events.drop_last());
        if before.candidate.phase == Phase::Loading {
            if let EventView::Loaded(library) = events.last() {
                assert(libraries.push(library).drop_last() =~= libraries);
            }
        }
    }
}

/// Loading the same source twice gives two registry entries: when two
/// candidates for one entry both succeed, one after the other, the registry
/// is longer by two.
pub proof fn same_source_twice_registers_twice(
    source: PluginSourceView,
    toolchain: ToolchainView,
    libraries: Seq<Library>,
    first: Seq<EventView>,
    second: Seq<EventView>,
)
    requires
        candidate_run(fresh(source), toolchain, Some(libraries), first).candidate.phase is Done,
        candidate_run(
            fresh(source),
            toolchain,
            candidate_run(fresh(source), toolchain, Some(libraries), first).registry,
            second,
        ).candidate.phase is Done,
    ensures
        ({
            let between = candidate_run(fresh(source), toolchain, Some(libraries), first).registry;
            let after = candidate_run(fresh(source), toolchain, between, second).registry;
            &&& between is Some
            &&& after is Some
            &&& after->0.len() == libraries.len() + 2
        }),
{
    candidate_registers_one(source, toolchain, libraries, first);
    let between = candidate_run(fresh(source), toolchain, Some(libraries), first).registry;
    candidate_registers_one(source, toolchain, between->0, second);
}

/// When the first tool cannot do its work, the candidate fails and no library
/// is ever registered for it: a run that begins a recognised entry and then
/// learns that the first stage failed rejects the candidate with that
/// failure, a `CompilerNotFound` when the tool could not be located and a
/// `CompileError` otherwise. The second tool is never run, nothing is loaded
/// or resolved, and the registry stays as it was whatever follows.
pub proof fn failed_first_stage_registers_nothing(
    source: PluginSourceView,
    toolchain: ToolchainView,
    registry: Option<Seq<Library>>,
    outcome: ToolOutcomeView,
    events: Seq<EventView>,
)
    requires
        is_candidate(source.file_name),
        stage_failure(Stage::Assembly, outcome) is Some,
        events.len() >= 2,
        events[0] == EventView::Begin,
        events[1] == EventView::Tool(outcome),
    ensures
        ({
            let run = candidate_run(fresh(source), toolchain, registry, events);
            let failure = stage_failure(Stage::Assembly, outcome)->0;
            &&& failure.0 == FailureKind::CompilerNotFound || failure.0
                == FailureKind::CompileError
            &&& outcome is Unavailable ==> failure.0 == FailureKind::CompilerNotFound
            &&& run.candidate.phase == Phase::Failed(failure.0)
            &&& run.registry == registry
            &&& run.actions.len() == events.len()
            &&& run.actions[0] == ActionView::Run(
                assembly_command(
                    toolchain,
                    logical_name(source.file_name)->0,
                    source.path,
                ),
            )
            &&& run.actions[1] == ActionView::Reject(failure)
            &&& forall|i: int|
                2 <= i < events.len() ==> #[trigger] run.actions[i] == ActionView::Stop
        }),
    decreases events.len(),
{
    candidate_run_answers_each_event(fresh(source), toolchain, registry, events);
    let shorter = events.drop_last();
    candidate_run_answers_each_event(fresh(source), toolchain, registry, shorter);
    if events.len() == 2 {
        let begun = shorter.drop_last();
        assert(begun.len() == 0);
        assert(shorter.last() == EventView::Begin);
        assert(events.last() == EventView::Tool(outcome));
        let none = candidate_run(fresh(source), toolchain, registry, begun);
        assert(none.candidate == fresh(source));
        let one = candidate_run(fresh(source), toolchain, registry, shorter);
        assert(one.candidate.phase == Phase::CompilingToAssembly);
    } else {
        failed_first_stage_registers_nothing(source, toolchain, registry, outcome, shorter);
    }
}

/// Whether a scan holds no recognised entry, neither in hand nor waiting, and
/// the candidate in hand, if any, has not begun.
pub open spec fn nothing_to_load(discovery: DiscoveryView) -> bool {
    &&& discovery.current matches Some(candidate) ==> candidate == fresh(candidate.source)
        && !is_candidate(candidate.source.file_name)
    &&& forall|i: int|
        0 <= i < discovery.waiting.len() ==> !is_candidate(
            (#[trigger] discovery.waiting[i]).file_name,
        )
}

/// A scan over a directory without a recognised candidate returns no plugin
/// and performs no outside work: whatever the host reports, no turn asks for
/// a process, a load or a symbol, no plugin is accepted, and the registry
/// stays as it was.
pub proof fn scan_without_candidates_is_idle(
    toolchain: ToolchainView,
    sources: Seq<PluginSourceView>,
    registry: Option<Seq<Library>>,
    events: Seq<EventView>,
)
    requires
        forall|i: int| 0 <= i < sources.len() ==> !is_candidate((#[trigger] sources[i]).file_name),
    ensures
        ({
            let run = scan_run(start(toolchain, sources), registry, events);
            &&& run.discovery.plugins == Seq::<Seq<char>>::empty()
            &&& run.registry == registry
            &&& run.actions.len() == events.len()
            &&& forall|i: int|
                0 <= i < events.len() ==> !(#[trigger] run.actions[i]).is_outside_work()
            &&& nothing_to_load(run.discovery)
        }),
    decreases events.len(),
{
    scan_run_answers_each_event(start(toolchain, sources), registry, events);
    if events.len() == 0 {
        let begun = start(toolchain, sources);
        assert(nothing_to_load(begun)) by {
            assert forall|i: int| 0 <= i < begun.waiting.len() implies !is_candidate(
                (#[trigger] begun.waiting[i]).file_name,
            ) by {
                assert(begun.waiting[i] == sources[i + 1]);
            }
        }
    } else {
        scan_without_candidates_is_idle(toolchain, sources, registry, events.drop_last());
        let before = scan_run(start(toolchain, sources), registry, events.drop_last());
        scan_run_answers_each_event(start(toolchain, sources), registry, events.drop_last());
        let last = turn(before.discovery, before.registry, events.last());
        assert(nothing_to_load(last.discovery)) by {
            if before.discovery.current is Some {
                let waiting = before.discovery.waiting;
                assert forall|i: int| 0 <= i < remaining(waiting).len() implies !is_candidate(
                    (#[trigger] remaining(waiting)[i]).file_name,
                ) by {
                    assert(remaining(waiting)[i] == waiting[i + 1]);
                }
            }
        }
    }
}

/// The number of candidates in hand: one or none.
pub open spec fn in_hand(discovery: DiscoveryView) -> nat {
    if discovery.current is Some {
        1
    } else {
        0
    }
}

/// Whether a scan is in order over `total` entries: a candidate in hand has
/// not reached its end, entries wait only behind a candidate in hand, and
/// every entry is either accepted, recorded as failed, in hand, or waiting.
pub open spec fn in_order(discovery: DiscoveryView, total: nat) -> bool {
    &&& discovery.current matches Some(candidate) ==> !candidate.phase.is_terminal()
    &&& discovery.current is None ==> discovery.waiting.len() == 0
    &&& discovery.plugins.len() + discovery.failures.len() + discovery.waiting.len() + in_hand(
        discovery,
    ) == total
}

/// Every entry is processed exactly once and the scan never stalls: in any
/// run of a scan over `sources`, each entry is accepted, recorded as failed,
/// in hand or still waiting; and while an entry is in hand or waiting, the
/// candidate in hand can still move.
pub proof fn scan_stays_in_order(
    toolchain: ToolchainView,
    sources: Seq<PluginSourceView>,
    registry: Option<Seq<Library>>,
    events: Seq<EventView>,
)
    ensures
        in_order(scan_run(start(toolchain, sources), registry, events).discovery, sources.len()),
    decreases events.len(),
{
    if events.len() > 0 {
        scan_stays_in_order(toolchain, sources, registry, events.drop_last());
    }
}

/// A scan in order tells the host to stop only when no entry is left, and
/// then every entry has ended as a plugin or as a recorded failure.
pub proof fn stop_means_complete(
    discovery: DiscoveryView,
    total: nat,
    registry: Option<Seq<Library>>,
    event: EventView,
)
    requires
        in_order(discovery, total),
        turn(discovery, registry, event).action == ActionView::Stop,
    ensures
        discovery.current is None,
        discovery.waiting.len() == 0,
        discovery.plugins.len() + discovery.failures.len() == total,
        turn(discovery, registry, event).discovery == discovery,
        turn(discovery, registry, event).registry == registry,
{
}

/// A failure never ends the scan: after a turn in which the candidate in
/// hand is rejected, the failure stands last among the recorded failures,
/// the accepted plugins are untouched, and the next waiting entry is in hand
/// as a candidate that has not begun.
pub proof fn rejection_moves_on(
    discovery: DiscoveryView,
    registry: Option<Seq<Library>>,
    event: EventView,
)
    requires
        turn(discovery, registry, event).action is Reject,
    ensures
        ({
            let after = turn(discovery, registry, event);
            &&& after.discovery.failures == discovery.failures.push(after.action->Reject_0)
            &&& after.discovery.plugins == discovery.plugins
            &&& after.discovery.current == following(discovery.waiting)
            &&& discovery.waiting.len() > 0 ==> after.discovery.current == Some(
                fresh(discovery.waiting[0]),
            ) && after.discovery.waiting == discovery.waiting.drop_first()
        }),
{
}

/// Plugins are returned in the order in which their entries were processed:
/// a turn in which the candidate in hand is accepted puts its plugin last,
/// and no turn removes or reorders a plugin accepted before it.
pub proof fn plugins_keep_processing_order(
    discovery: DiscoveryView,
    registry: Option<Seq<Library>>,
    event: EventView,
)
    ensures
        ({
            let after = turn(discovery, registry, event);
            if after.action is Accept {
                after.discovery.plugins == discovery.plugins.push(after.action->Accept_0)
            } else {
                after.discovery.plugins == discovery.plugins
            }
        }),
{
}

} // verus!
