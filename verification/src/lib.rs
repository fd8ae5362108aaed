//! Core of a plugin host: the rules by which plugin sources are recognised,
//! compiled by an external toolchain, loaded and described, and the registry
//! that owns every loaded library until it is torn down.
//!
//! The crate performs no process or file-system work itself. A host runs the
//! requested actions and reports what happened; every decision is taken here.

pub mod plugin;

use vstd::prelude::*;
use crate::plugin::registry::{torn_down, Registry, UnloadFailure};

verus! {

/// Tears the registry down: every library it holds is unloaded, in
/// registration order, and the registry is absent from then on. On a registry
/// that is already absent this does nothing and reports zero unloads.
pub fn cleanup(registry: &mut Registry) -> (report: Result<usize, UnloadFailure>)
    ensures
        torn_down(old(registry)@, final(registry)@, report),
{
    registry.teardown()
}

} // verus!
