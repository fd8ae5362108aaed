//! A scan over the entries of a plugin directory.
//!
//! The entries are taken one at a time, in the order given. Each becomes a
//! candidate and is driven to its end by [`load_plugins`]; then the next entry
//! takes its place, whether the candidate was accepted or dropped.

use vstd::prelude::*;
use libloading::Library;
use crate::plugin::descriptor::Plugin;
use crate::plugin::error::{FailureKind, LoadPluginError};
use crate::plugin::pipeline::{
    fresh, load_plugin, step, Action, ActionView, Candidate, CandidateView, Event, EventView,
};
use crate::plugin::registry::Registry;
use crate::plugin::source::{PluginSource, PluginSourceView};
use crate::plugin::toolchain::{Toolchain, ToolchainView};

verus! {

/// A scan in progress.
#[derive(Debug)]
pub struct Discovery {
    toolchain: Toolchain,
    current: Option<Candidate>,
    waiting: Vec<PluginSource>,
    plugins: Vec<Plugin>,
    failures: Vec<LoadPluginError>,
}

/// The state of a scan: the candidate in hand, the entries still waiting,
/// and the plugins accepted and the failures recorded so far, each in the
/// order in which their entries were processed.
pub struct DiscoveryView {
    pub toolchain: ToolchainView,
    pub current: Option<CandidateView>,
    pub waiting: Seq<PluginSourceView>,
    pub plugins: Seq<Seq<char>>,
    pub failures: Seq<(FailureKind, Seq<char>)>,
}

/// The views of a list of entries.
pub open spec fn source_views(sources: Seq<PluginSource>) -> Seq<PluginSourceView> {
    Seq::new(sources.len(), |i: int| sources[i]@)
}

/// The names of a list of plugins.
pub open spec fn plugin_names(plugins: Seq<Plugin>) -> Seq<Seq<char>> {
    Seq::new(plugins.len(), |i: int| plugins[i]@)
}

/// The views of a list of errors.
pub open spec fn error_views(errors: Seq<LoadPluginError>) -> Seq<(FailureKind, Seq<char>)> {
    Seq::new(errors.len(), |i: int| errors[i]@)
}

impl View for Discovery {
    type V = DiscoveryView;

    closed spec fn view(&self) -> DiscoveryView {
        DiscoveryView {
            toolchain: self.toolchain@,
            current: match self.current {
                Some(candidate) => Some(candidate@),
                None => None,
            },
            waiting: source_views(self.waiting@),
            plugins: plugin_names(self.plugins@),
            failures: error_views(self.failures@),
        }
    }
}

/// The candidate that follows when `waiting` are the entries left: a fresh
/// one for the first of them, or none.
pub open spec fn following(waiting: Seq<PluginSourceView>) -> Option<CandidateView> {
    if waiting.len() > 0 {
        Some(fresh(waiting[0]))
    } else {
        None
    }
}

/// The entries that wait once the first of `waiting` has been taken.
pub open spec fn remaining(waiting: Seq<PluginSourceView>) -> Seq<PluginSourceView> {
    if waiting.len() > 0 {
        waiting.drop_first()
    } else {
        waiting
    }
}

/// The state of a scan over `sources` before anything has happened.
pub open spec fn start(toolchain: ToolchainView, sources: Seq<PluginSourceView>) -> DiscoveryView {
    DiscoveryView {
        toolchain,
        current: following(sources),
        waiting: remaining(sources),
        plugins: Seq::empty(),
        failures: Seq::empty(),
    }
}

/// A scan, the registry and the action after one event.
pub struct Turn {
    pub discovery: DiscoveryView,
    pub registry: Option<Seq<Library>>,
    pub action: ActionView,
}

/// What one event does to a scan.
///
/// The event goes to the candidate in hand. When that accepts or rejects, the
/// plugin or the failure is recorded and the next entry becomes the candidate
/// in hand; otherwise the candidate stays. With no candidate in hand nothing
/// changes and the host is told to stop.
pub open spec fn turn(
    discovery: DiscoveryView,
    registry: Option<Seq<Library>>,
    event: EventView,
) -> Turn {
    match discovery.current {
        None => Turn { discovery, registry, action: ActionView::Stop },
        Some(candidate) => {
            let after = step(candidate, discovery.toolchain, registry, event);
            let discovery = match after.action {
                ActionView::Accept(name) => DiscoveryView {
                    current: following(discovery.waiting),
                    waiting: remaining(discovery.waiting),
                    plugins: discovery.plugins.push(name),
                    ..discovery
                },
                ActionView::Reject(failure) => DiscoveryView {
                    current: following(discovery.waiting),
                    waiting: remaining(discovery.waiting),
                    failures: discovery.failures.push(failure),
                    ..discovery
                },
                _ => DiscoveryView { current: Some(after.candidate), ..discovery },
            };
            Turn { discovery, registry: after.registry, action: after.action }
        },
    }
}

impl Discovery {
    /// A scan over `sources`, which are processed in the order given.
    pub fn new(toolchain: Toolchain, sources: Vec<PluginSource>) -> (discovery: Discovery)
        ensures
            discovery@ == start(toolchain@, source_views(sources@)),
    {
        let mut discovery = Discovery {
            toolchain,
            current: None,
            waiting: sources,
            plugins: Vec::new(),
            failures: Vec::new(),
        };
        discovery.advance();
        assert(discovery@.plugins =~= Seq::empty());
        assert(discovery@.failures =~= Seq::empty());
        discovery
    }

    /// Puts the next waiting entry in hand, or nothing when none waits.
    fn advance(&mut self)
        ensures
            final(self)@ == (DiscoveryView {
                current: following(old(self)@.waiting),
                waiting: remaining(old(self)@.waiting),
                ..old(self)@
            }),
    {
        if self.waiting.len() > 0 {
            let source = self.waiting.remove(0);
            self.current = Some(Candidate::new(source));
            assert(self@.waiting =~= remaining(old(self)@.waiting));
        } else {
            self.current = None;
        }
    }

    /// Whether every entry has been processed.
    pub fn is_complete(&self) -> (complete: bool)
        ensures
            complete == self@.current.is_none(),
    {
        self.current.is_none()
    }

    /// The number of entries that still wait behind the candidate in hand.
    pub fn waiting(&self) -> (count: usize)
        ensures
            count == self@.waiting.len(),
    {
        self.waiting.len()
    }

    /// The plugins accepted so far, in the order in which their entries were
    /// processed.
    pub fn plugins(&self) -> (plugins: &Vec<Plugin>)
        ensures
            plugin_names(plugins@) == self@.plugins,
    {
        &self.plugins
    }

    /// The failures recorded so far, in the order in which their entries were
    /// processed.
    pub fn failures(&self) -> (failures: &Vec<LoadPluginError>)
        ensures
            error_views(failures@) == self@.failures,
    {
        &self.failures
    }

    /// Ends the scan and hands out the accepted plugins.
    pub fn into_plugins(self) -> (plugins: Vec<Plugin>)
        ensures
            plugin_names(plugins@) == self@.plugins,
    {
        self.plugins
    }
}

/// Hands one event to the scan and says what the host is to do next.
///
/// After `Accept` or `Reject` the host reports `Begin` to start the next
/// entry; `Stop` says that no entry is left.
pub fn load_plugins(discovery: &mut Discovery, registry: &mut Registry, event: Event) -> (action:
    Action)
    ensures
        turn(old(discovery)@, old(registry)@, event@) == (Turn {
            discovery: final(discovery)@,
            registry: final(registry)@,
            action: action@,
        }),
{
    match discovery.current.take() {
        None => Action::Stop,
        Some(candidate) => {
            let mut candidate = candidate;
            let action = load_plugin(&mut candidate, &discovery.toolchain, registry, event);
            match &action {
                Action::Accept(plugin) => {
                    discovery.plugins.push(plugin.duplicate());
                    discovery.advance();
                    assert(discovery@.plugins =~= old(discovery)@.plugins.push(plugin@));
                },
                Action::Reject(error) => {
                    discovery.failures.push(error.duplicate());
                    discovery.advance();
                    assert(discovery@.failures =~= old(discovery)@.failures.push(error@));
                },
                _ => {
                    discovery.current = Some(candidate);
                },
            }
            action
        },
    }
}

} // verus!
