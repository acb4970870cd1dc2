//! Error taxonomy of the orchestration core.
//!
//! Every fallible step reports a descriptive error to its caller at once;
//! there is no retry or partial-success path anywhere in this crate.

use vstd::prelude::*;

verus! {

/// Failures of the HTTP(S) fetch path.
#[derive(Debug, Clone, PartialEq, Eq)]
pub enum ProtocolError {
    /// The target string could not be parsed as a usable URL, or it lacks a
    /// host or an authority component.
    MalformedUrl { url: String },
    /// A redirection-class response carried no `Location` header.
    MissingRedirectTarget,
    /// A response status that is neither a success nor a redirection; the
    /// URL that was requested is kept for the report.
    RequestFailed { url: String },
}

/// Failures of toolchain acquisition planning.
#[derive(Debug, Clone, PartialEq, Eq)]
pub enum ConfigError {
    /// The (operating system, architecture) pair has no entry in the
    /// download-suffix table.
    UnsupportedPlatform { os: String, arch: String },
}

/// Failures reported by an external process the pipeline drives.
#[derive(Debug, Clone, PartialEq, Eq)]
pub enum ToolError {
    /// The archive-extraction utility exited with a non-zero status.
    ExtractionError { stderr: String },
    /// A compiler invocation exited with a non-zero status.
    CompilationError { stderr: String },
}

/// Failures of loading and invoking a sandboxed artifact.
#[derive(Debug, Clone, PartialEq, Eq)]
pub enum SandboxError {
    /// The artifact failed to parse or validate.
    LoadError,
    /// The default entry point is missing or its signature is not the
    /// required no-argument, no-result shape.
    InterfaceError,
    /// The invocation trapped or aborted; the cause is kept for the report.
    ExecutionTrap { cause: String },
}

} // verus!
