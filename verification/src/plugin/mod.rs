//! Plugins: how their sources are recognised and compiled, how their
//! libraries are held, and how a directory of them is scanned.

pub mod descriptor;
pub mod discovery;
pub mod error;
pub mod pipeline;
pub mod registry;
pub mod source;
pub mod toolchain;
pub mod traces;

pub use self::descriptor::Plugin;
pub use self::discovery::{load_plugins, Discovery};
pub use self::error::{FailureKind, LoadPluginError};
pub use self::pipeline::{load_plugin, Action, Candidate, Event, Phase};
pub use self::registry::{LibraryManager, Registry, UnloadFailure};
pub use self::source::PluginSource;
pub use self::toolchain::{Invocation, Stage, ToolOutcome, Toolchain};
