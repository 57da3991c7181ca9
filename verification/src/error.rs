//! Setup failures that are fatal at startup.
//!
//! Each variant names a platform capability the renderer cannot run without.
//! None of them is retried: the caller surfaces the error and stops.

use vstd::prelude::*;

verus! {

/// A capability probe failed during startup.
#[derive(Clone, Copy, Debug, PartialEq, Eq, Structural)]
pub enum SetupError {
    /// No adapter exposes graphics + presentation queues, the presentation
    /// extension, and at least one surface format and present mode.
    NoSuitableDevice,
    /// No memory type satisfies both the type-bit filter and the required
    /// property flags.
    NoMatchingMemoryType,
    /// No candidate format offers the required format features.
    NoSupportedFormat,
}

impl SetupError {
    /// A short diagnostic label for the failure.
    pub fn message(&self) -> &'static str {
        match self {
            SetupError::NoSuitableDevice => "no suitable GPU adapter",
            SetupError::NoMatchingMemoryType => "no matching memory type",
            SetupError::NoSupportedFormat => "no supported format",
        }
    }
}

} // verus!
