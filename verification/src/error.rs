//! The single error type of the crate. Every failure is fatal to a run; the
//! variants only say which kind of failure it was and where it arose.

use vstd::prelude::*;

verus! {

/// Why an input was rejected.
#[derive(Debug, Clone, Copy, PartialEq, Eq, Structural)]
pub enum InputFault {
    /// The image bytes could not be decoded.
    Undecodable,
    /// The image is not exactly seven pixels tall.
    WrongHeight { width: u32, height: u32 },
    /// At least one channel of the image carries colour.
    NotGrayscale,
    /// There is no column to tile: the image has no width.
    NoColumns,
    /// The output path exists already or cannot be created.
    PathUnusable,
}

/// Which internal invariant could not be kept.
#[derive(Debug, Clone, Copy, PartialEq, Eq, Structural)]
pub enum InternalFault {
    /// A calendar date left the range of day numbers.
    DateOverflow,
    /// A calendar date has no civil form to print.
    DateUnprintable,
}

/// The repository operation that failed.
#[derive(Debug, Clone, Copy, PartialEq, Eq, Structural)]
pub enum RepositoryStep {
    Init,
    Signature,
    Index,
    WriteTree,
    FindTree,
    FindReference,
    Commit,
    FindCommit,
}

#[derive(Debug, PartialEq, Eq)]
pub enum DrawError {
    InvalidInput(InputFault),
    InternalError(InternalFault),
    RepositoryError { step: RepositoryStep, detail: String },
}

impl DrawError {
    /// Whether the failure came from the caller's input.
    pub fn is_invalid_input(&self) -> (r: bool)
        ensures
            r == (*self is InvalidInput),
    {
        match self {
            DrawError::InvalidInput(_) => true,
            _ => false,
        }
    }

    /// Whether an internal invariant failed.
    pub fn is_internal(&self) -> (r: bool)
        ensures
            r == (*self is InternalError),
    {
        match self {
            DrawError::InternalError(_) => true,
            _ => false,
        }
    }

    /// Whether the repository refused an operation.
    pub fn is_repository(&self) -> (r: bool)
        ensures
            r == (*self is RepositoryError),
    {
        match self {
            DrawError::RepositoryError { .. } => true,
            _ => false,
        }
    }
}

} // verus!
