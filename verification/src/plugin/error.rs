//! The ways in which a single plugin candidate can fail.

use vstd::prelude::*;

verus! {

/// The three families of candidate failure.
#[derive(Clone, Copy, Debug, PartialEq, Eq, Structural)]
pub enum FailureKind {
    /// An external tool could not be located.
    CompilerNotFound,
    /// One of the two compilation stages failed.
    CompileError,
    /// The candidate is not a plugin source, or its native library could not
    /// be loaded or did not yield a descriptor.
    LoadError,
}

/// Why a plugin candidate was dropped, with a message for the log.
#[derive(Debug)]
pub enum LoadPluginError {
    CompilerNotFound(String),
    CompileError(String),
    LoadError(String),
}

impl View for LoadPluginError {
    type V = (FailureKind, Seq<char>);

    open spec fn view(&self) -> (FailureKind, Seq<char>) {
        match self {
            LoadPluginError::CompilerNotFound(m) => (FailureKind::CompilerNotFound, m@),
            LoadPluginError::CompileError(m) => (FailureKind::CompileError, m@),
            LoadPluginError::LoadError(m) => (FailureKind::LoadError, m@),
        }
    }
}

impl LoadPluginError {
    /// Builds the error of the given family around a message.
    pub fn of_kind(kind: FailureKind, message: String) -> (e: LoadPluginError)
        ensures
            e@ == (kind, message@),
    {
        match kind {
            FailureKind::CompilerNotFound => LoadPluginError::CompilerNotFound(message),
            FailureKind::CompileError => LoadPluginError::CompileError(message),
            FailureKind::LoadError => LoadPluginError::LoadError(message),
        }
    }

    /// The family this error belongs to.
    pub fn kind(&self) -> (k: FailureKind)
        ensures
            k == self@.0,
    {
        match self {
            LoadPluginError::CompilerNotFound(_) => FailureKind::CompilerNotFound,
            LoadPluginError::CompileError(_) => FailureKind::CompileError,
            LoadPluginError::LoadError(_) => FailureKind::LoadError,
        }
    }

    /// The message carried by the error.
    pub fn message(&self) -> (m: &str)
        ensures
            m@ == self@.1,
    {
        match self {
            LoadPluginError::CompilerNotFound(m) => m.as_str(),
            LoadPluginError::CompileError(m) => m.as_str(),
            LoadPluginError::LoadError(m) => m.as_str(),
        }
    }

    /// An independent copy of the error.
    pub fn duplicate(&self) -> (e: LoadPluginError)
        ensures
            e@ == self@,
    {
        match self {
            LoadPluginError::CompilerNotFound(m) => LoadPluginError::CompilerNotFound(m.clone()),
            LoadPluginError::CompileError(m) => LoadPluginError::CompileError(m.clone()),
            LoadPluginError::LoadError(m) => LoadPluginError::LoadError(m.clone()),
        }
    }
}

} // verus!
