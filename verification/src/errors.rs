//! Error taxonomy of the conversion engine.

use vstd::prelude::*;

verus! {

/// One error of the conversion engine, carrying a human-readable message.
///
/// The variants separate how far an error reaches:
/// - `Probe`: duration or metadata could not be read; a task degrades to a
///   single segment instead of failing.
/// - `Plan`: the configuration is invalid (for example a zero segment
///   duration); fatal for the one task.
/// - `Spawn`: the external transcoder is missing or cannot be launched;
///   fatal for the whole batch, detected before any task is dispatched.
/// - `SegmentExecution`: the transcoder exited non-zero for one segment;
///   local to that segment.
/// - `Merge`: concatenating the finished segments failed; fails the task.
/// - `Io`: a file operation around a segment or task failed.
/// - `Cancelled`: the work was abandoned on the caller's cancellation flag.
#[derive(Debug, Clone)]
pub enum ConversionError {
    Probe(String),
    Plan(String),
    Spawn(String),
    SegmentExecution(String),
    Merge(String),
    Io(String),
    Cancelled(String),
}

impl ConversionError {
    /// The message carried by the error, whichever variant holds it.
    pub open spec fn spec_message(&self) -> Seq<char> {
        match self {
            ConversionError::Probe(m) => m@,
            ConversionError::Plan(m) => m@,
            ConversionError::Spawn(m) => m@,
            ConversionError::SegmentExecution(m) => m@,
            ConversionError::Merge(m) => m@,
            ConversionError::Io(m) => m@,
            ConversionError::Cancelled(m) => m@,
        }
    }

    /// Hands out the error's message for display.
    pub fn message(&self) -> (r: String)
        ensures
            r@ == self.spec_message(),
    {
        match self {
            ConversionError::Probe(m) => m.clone(),
            ConversionError::Plan(m) => m.clone(),
            ConversionError::Spawn(m) => m.clone(),
            ConversionError::SegmentExecution(m) => m.clone(),
            ConversionError::Merge(m) => m.clone(),
            ConversionError::Io(m) => m.clone(),
            ConversionError::Cancelled(m) => m.clone(),
        }
    }

    /// True exactly on the batch-fatal variant.
    pub fn is_spawn(&self) -> (r: bool)
        ensures
            r == (self is Spawn),
    {
        match self {
            ConversionError::Spawn(_) => true,
            _ => false,
        }
    }
}

} // verus!
