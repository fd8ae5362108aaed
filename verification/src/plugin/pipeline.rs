//! The life of one plugin candidate.
//!
//! A candidate moves through
//! `Pending -> CompilingToAssembly -> CompilingToNative -> Loading ->
//! ResolvingSymbol -> Done`, and any failure on the way ends it in `Failed`.
//! The host does the outside work: [`load_plugin`] tells it what to do next,
//! and the host reports back what happened as an [`Event`].

use vstd::prelude::*;
use vstd::string::*;
use libloading::Library;
use crate::plugin::descriptor::{name_in, Plugin};
use crate::plugin::error::{FailureKind, LoadPluginError};
use crate::plugin::registry::Registry;
use crate::plugin::source::{logical_name, PluginSource, PluginSourceView};
use crate::plugin::toolchain::{
    artifact_path, assembly_command, native_command, stage_failure, Invocation, InvocationView,
    Stage, ToolOutcome, ToolOutcomeView, Toolchain, ToolchainView,
};

verus! {

/// The symbol that every plugin library exports: a function without
/// arguments that returns the plugin's descriptor.
pub const ENTRY_SYMBOL: &'static str = "get_plugin";

/// Message for an entry whose file name does not name a plugin source.
pub const NOT_A_SOURCE: &'static str = "Reached EOF before plugin was loaded";

/// Message for a candidate whose library has no registry to go to.
pub const REGISTRY_GONE: &'static str = "the library registry has been torn down";

/// Opening of the message for a native library that could not be loaded.
pub const LOAD_FAILED: &'static str = "native library could not be loaded: ";

/// Opening of the message for a library that did not yield a descriptor.
pub const RESOLVE_FAILED: &'static str = "plugin descriptor could not be obtained: ";

/// Message for an event that does not answer what the candidate waits for.
pub const OUT_OF_TURN: &'static str = "event does not answer the pending action";

/// Where a candidate stands.
#[derive(Clone, Copy, Debug, PartialEq, Eq, Structural)]
pub enum Phase {
    Pending,
    CompilingToAssembly,
    CompilingToNative,
    Loading,
    ResolvingSymbol,
    Done,
    Failed(FailureKind),
}

impl Phase {
    /// Whether nothing more happens to a candidate in this phase.
    pub open spec fn is_terminal(self) -> bool {
        self is Done || self is Failed
    }

    /// Whether nothing more happens to a candidate in this phase.
    #[verifier::when_used_as_spec(is_terminal)]
    pub fn terminal(self) -> (terminal: bool)
        ensures
            terminal == self.is_terminal(),
    {
        match self {
            Phase::Done => true,
            Phase::Failed(_) => true,
            _ => false,
        }
    }
}

/// What the host reports to a candidate.
pub enum Event {
    /// The candidate may start.
    Begin,
    /// The tool that was to run ended in this way.
    Tool(ToolOutcome),
    /// The native library was loaded.
    Loaded(Library),
    /// The native library could not be loaded; the text says why.
    LoadFailed(String),
    /// The entry symbol was resolved and called; this is the text that the
    /// descriptor it returned points to, copied out of the library. The
    /// plugin's name is what stands in it before the first NUL.
    Resolved(String),
    /// The entry symbol could not be resolved; the text says why.
    ResolveFailed(String),
}

/// The texts of an event.
pub enum EventView {
    Begin,
    Tool(ToolOutcomeView),
    Loaded(Library),
    LoadFailed(Seq<char>),
    Resolved(Seq<char>),
    ResolveFailed(Seq<char>),
}

impl View for Event {
    type V = EventView;

    open spec fn view(&self) -> EventView {
        match self {
            Event::Begin => EventView::Begin,
            Event::Tool(outcome) => EventView::Tool(outcome@),
            Event::Loaded(library) => EventView::Loaded(*library),
            Event::LoadFailed(why) => EventView::LoadFailed(why@),
            Event::Resolved(name) => EventView::Resolved(name@),
            Event::ResolveFailed(why) => EventView::ResolveFailed(why@),
        }
    }
}

/// What the host is to do next.
#[derive(Debug)]
pub enum Action {
    /// Run this external process to its end and report a `Tool` event.
    Run(Invocation),
    /// Load the native library at this path and report `Loaded` or
    /// `LoadFailed`.
    Load(String),
    /// Resolve the entry symbol in the registry's library at this position,
    /// call it, copy the descriptor's name, and report `Resolved` or
    /// `ResolveFailed`.
    Resolve(usize),
    /// The candidate is done: this is its plugin.
    Accept(Plugin),
    /// The candidate is dropped: this is why.
    Reject(LoadPluginError),
    /// Nothing is left to do.
    Stop,
}

/// The texts of an action.
pub enum ActionView {
    Run(InvocationView),
    Load(Seq<char>),
    Resolve(nat),
    Accept(Seq<char>),
    Reject((FailureKind, Seq<char>)),
    Stop,
}

impl View for Action {
    type V = ActionView;

    open spec fn view(&self) -> ActionView {
        match self {
            Action::Run(invocation) => ActionView::Run(invocation@),
            Action::Load(path) => ActionView::Load(path@),
            Action::Resolve(position) => ActionView::Resolve(*position as nat),
            Action::Accept(plugin) => ActionView::Accept(plugin@),
            Action::Reject(error) => ActionView::Reject(error@),
            Action::Stop => ActionView::Stop,
        }
    }
}

impl ActionView {
    /// Whether the action asks the host for outside work: a process to run, a
    /// library to load, or a symbol to resolve.
    pub open spec fn is_outside_work(self) -> bool {
        self is Run || self is Load || self is Resolve
    }
}

/// One directory entry on its way to becoming a plugin.
#[derive(Debug)]
pub struct Candidate {
    source: PluginSource,
    name: String,
    phase: Phase,
}

/// The state of a candidate: its entry, the logical name derived from it
/// (empty until the candidate has begun), and its phase.
pub struct CandidateView {
    pub source: PluginSourceView,
    pub name: Seq<char>,
    pub phase: Phase,
}

impl View for Candidate {
    type V = CandidateView;

    closed spec fn view(&self) -> CandidateView {
        CandidateView { source: self.source@, name: self.name@, phase: self.phase }
    }
}

/// The state of a candidate that has not begun.
pub open spec fn fresh(source: PluginSourceView) -> CandidateView {
    CandidateView { source, name: Seq::<char>::empty(), phase: Phase::Pending }
}

/// A candidate, the registry and the action after one event.
pub struct Step {
    pub candidate: CandidateView,
    pub registry: Option<Seq<Library>>,
    pub action: ActionView,
}

/// The step that drops a candidate for the given failure. The registry stays
/// as it is.
pub open spec fn rejected(
    candidate: CandidateView,
    registry: Option<Seq<Library>>,
    failure: (FailureKind, Seq<char>),
) -> Step {
    Step {
        candidate: CandidateView { phase: Phase::Failed(failure.0), ..candidate },
        registry,
        action: ActionView::Reject(failure),
    }
}

/// The step that moves a candidate on to `phase` with the given action. The
/// registry stays as it is.
pub open spec fn moved(
    candidate: CandidateView,
    registry: Option<Seq<Library>>,
    phase: Phase,
    action: ActionView,
) -> Step {
    Step { candidate: CandidateView { phase, ..candidate }, registry, action }
}

/// What one event does to a candidate.
///
/// A candidate in a terminal phase stays as it is and the host is told to
/// stop. Otherwise the event must answer what the candidate waits for; one
/// that does not drops the candidate with a `LoadError`.
///
/// Nothing is loaded once the registry is torn down: when the second stage
/// has succeeded and the registry is absent, the candidate is dropped with a
/// `LoadError` in place of a request to load. A library that arrives after a
/// teardown in between is refused in the same way.
pub open spec fn step(
    candidate: CandidateView,
    toolchain: ToolchainView,
    registry: Option<Seq<Library>>,
    event: EventView,
) -> Step {
    match (candidate.phase, event) {
        (Phase::Done, _) => Step { candidate, registry, action: ActionView::Stop },
        (Phase::Failed(_), _) => Step { candidate, registry, action: ActionView::Stop },
        (Phase::Pending, EventView::Begin) => match logical_name(candidate.source.file_name) {
            Some(name) => Step {
                candidate: CandidateView { name, phase: Phase::CompilingToAssembly, ..candidate },
                registry,
                action: ActionView::Run(
                    assembly_command(toolchain, name, candidate.source.path),
                ),
            },
            None => rejected(candidate, registry, (FailureKind::LoadError, NOT_A_SOURCE@)),
        },
        (Phase::CompilingToAssembly, EventView::Tool(outcome)) => match stage_failure(
            Stage::Assembly,
            outcome,
        ) {
            None => moved(
                candidate,
                registry,
                Phase::CompilingToNative,
                ActionView::Run(native_command(toolchain, candidate.name)),
            ),
            Some(failure) => rejected(candidate, registry, failure),
        },
        (Phase::CompilingToNative, EventView::Tool(outcome)) => match stage_failure(
            Stage::Native,
            outcome,
        ) {
            None => match registry {
                Some(_) => moved(
                    candidate,
                    registry,
                    Phase::Loading,
                    ActionView::Load(artifact_path(toolchain.workspace, candidate.name)),
                ),
                None => rejected(candidate, registry, (FailureKind::LoadError, REGISTRY_GONE@)),
            },
            Some(failure) => rejected(candidate, registry, failure),
        },
        (Phase::Loading, EventView::Loaded(library)) => match registry {
            Some(libraries) => moved(
                candidate,
                Some(libraries.push(library)),
                Phase::ResolvingSymbol,
                ActionView::Resolve(libraries.len()),
            ),
            None => rejected(candidate, registry, (FailureKind::LoadError, REGISTRY_GONE@)),
        },
        (Phase::Loading, EventView::LoadFailed(why)) => rejected(
            candidate,
            registry,
            (FailureKind::LoadError, LOAD_FAILED@ + why),
        ),
        (Phase::ResolvingSymbol, EventView::Resolved(name)) => moved(
            candidate,
            registry,
            Phase::Done,
            ActionView::Accept(name_in(name)),
        ),
        (Phase::ResolvingSymbol, EventView::ResolveFailed(why)) => rejected(
            candidate,
            registry,
            (FailureKind::LoadError, RESOLVE_FAILED@ + why),
        ),
        _ => rejected(candidate, registry, (FailureKind::LoadError, OUT_OF_TURN@)),
    }
}

impl Candidate {
    /// A candidate for the given entry, not yet begun.
    pub fn new(source: PluginSource) -> (candidate: Candidate)
        ensures
            candidate@ == fresh(source@),
    {
        Candidate { source, name: String::new(), phase: Phase::Pending }
    }

    /// The candidate's phase.
    pub fn phase(&self) -> (phase: Phase)
        ensures
            phase == self@.phase,
    {
        self.phase
    }

    /// The logical name of the plugin; empty until the candidate has begun.
    pub fn name(&self) -> (name: &str)
        ensures
            name@ == self@.name,
    {
        self.name.as_str()
    }

    /// The entry that the candidate was made for.
    pub fn source(&self) -> (source: &PluginSource)
        ensures
            source@ == self@.source,
    {
        &self.source
    }

    /// Drops the candidate for the given error.
    fn reject(&mut self, error: LoadPluginError) -> (action: Action)
        ensures
            final(self)@ == (CandidateView { phase: Phase::Failed(error@.0), ..old(self)@ }),
            action@ == ActionView::Reject(error@),
    {
        self.phase = Phase::Failed(error.kind());
        Action::Reject(error)
    }

    /// Drops the candidate with a `LoadError` that carries `message`.
    fn reject_as(&mut self, message: &str) -> (action: Action)
        ensures
            final(self)@ == (CandidateView {
                phase: Phase::Failed(FailureKind::LoadError),
                ..old(self)@
            }),
            action@ == ActionView::Reject((FailureKind::LoadError, message@)),
    {
        self.reject(LoadPluginError::LoadError(message.to_owned()))
    }

    /// Drops the candidate with a `LoadError` made of `opening` and `detail`.
    fn reject_load(&mut self, opening: &str, detail: &str) -> (action: Action)
        ensures
            final(self)@ == (CandidateView {
                phase: Phase::Failed(FailureKind::LoadError),
                ..old(self)@
            }),
            action@ == ActionView::Reject((FailureKind::LoadError, opening@ + detail@)),
    {
        let mut message = opening.to_owned();
        message.append(detail);
        self.reject(LoadPluginError::LoadError(message))
    }
}

/// Hands one event to a candidate and says what the host is to do next.
///
/// A library that arrives with `Loaded` while the candidate is loading is
/// appended to the registry, which then owns it; the host gets the position
/// under which to resolve the entry symbol. In every other case the registry
/// stays as it is, and a library that arrives out of turn, or after the
/// registry was torn down, is released. The host is never asked to load a
/// library while the registry is torn down.
pub fn load_plugin(
    candidate: &mut Candidate,
    toolchain: &Toolchain,
    registry: &mut Registry,
    event: Event,
) -> (action: Action)
    ensures
        step(old(candidate)@, toolchain@, old(registry)@, event@) == (Step {
            candidate: final(candidate)@,
            registry: final(registry)@,
            action: action@,
        }),
{
    match candidate.phase {
        Phase::Done => Action::Stop,
        Phase::Failed(_) => Action::Stop,
        Phase::Pending => match event {
            Event::Begin => match candidate.source.name() {
                Some(name) => {
                    let invocation = toolchain.translate(
                        name.as_str(),
                        candidate.source.path.as_str(),
                    );
                    candidate.name = name;
                    candidate.phase = Phase::CompilingToAssembly;
                    Action::Run(invocation)
                },
                None => candidate.reject_as(NOT_A_SOURCE),
            },
            _ => candidate.reject_as(OUT_OF_TURN),
        },
        Phase::CompilingToAssembly => match event {
            Event::Tool(outcome) => match Stage::Assembly.judge(&outcome) {
                None => {
                    candidate.phase = Phase::CompilingToNative;
                    Action::Run(toolchain.link(candidate.name.as_str()))
                },
                Some(error) => candidate.reject(error),
            },
            _ => candidate.reject_as(OUT_OF_TURN),
        },
        Phase::CompilingToNative => match event {
            Event::Tool(outcome) => match Stage::Native.judge(&outcome) {
                None => {
                    if registry.is_present() {
                        candidate.phase = Phase::Loading;
                        Action::Load(toolchain.artifact_file(candidate.name.as_str()))
                    } else {
                        candidate.reject_as(REGISTRY_GONE)
                    }
                },
                Some(error) => candidate.reject(error),
            },
            _ => candidate.reject_as(OUT_OF_TURN),
        },
        Phase::Loading => match event {
            Event::Loaded(library) => match registry.register(library) {
                Some(position) => {
                    candidate.phase = Phase::ResolvingSymbol;
                    Action::Resolve(position)
                },
                None => candidate.reject_as(REGISTRY_GONE),
            },
            Event::LoadFailed(why) => candidate.reject_load(LOAD_FAILED, why.as_str()),
            _ => candidate.reject_as(OUT_OF_TURN),
        },
        Phase::ResolvingSymbol => match event {
            Event::Resolved(name) => {
                candidate.phase = Phase::Done;
                Action::Accept(Plugin::new(name.as_str()))
            },
            Event::ResolveFailed(why) => candidate.reject_load(RESOLVE_FAILED, why.as_str()),
            _ => candidate.reject_as(OUT_OF_TURN),
        },
    }
}

} // verus!
