//! The error taxonomy of the framework.
//!
//! Every variant but the advisory directory-creation failure is fatal to the
//! run that raises it: the engine aborts the whole map or aggregation pass
//! rather than skip or retry.

use vstd::prelude::*;

verus! {

/// A fatal condition raised while deriving paths, discovering summaries, or
/// preparing a task's input and output.
#[derive(Clone, Copy, Debug, PartialEq, Eq, Structural)]
pub enum EngineError {
    /// An input path has an empty base name, so no summary path can be
    /// derived from it.
    InvalidPath,
    /// Evaluating the summary glob pattern failed: the pattern was malformed
    /// or the filesystem could not be enumerated.
    GlobFailed,
    /// An input or summary file could not be opened for reading.
    InputNotFound,
    /// An output file could not be created for writing.
    OutputCreateFailed,
    /// The parent of an output path exists but is not a directory.
    OutputPathConflict,
}

impl EngineError {
    /// A short diagnostic text for operator-facing abort messages.
    pub fn describe(&self) -> &'static str {
        match self {
            EngineError::InvalidPath => "input path has no usable file name",
            EngineError::GlobFailed => "summary glob pattern could not be evaluated",
            EngineError::InputNotFound => "input file could not be opened",
            EngineError::OutputCreateFailed => "output file could not be created",
            EngineError::OutputPathConflict => "output path exists but is not a directory",
        }
    }
}

} // verus!
