//! The error model: what an operation on an archive can fail with.

use vstd::prelude::*;
use vstd::std_specs::convert::FromSpecImpl;

verus! {

/// The status with which the engine reports that a named file does not exist.
pub const ERROR_FILE_NOT_FOUND: u32 = 2;

/// The value that the engine returns in place of a size or a position when
/// the query failed.
pub const SFILE_INVALID_SIZE: u32 = 0xFFFF_FFFF;

/// A status code of the engine, kept exactly as the engine reported it.
#[derive(Clone, Copy, PartialEq, Eq, Structural, Debug)]
pub struct ErrorCode(pub u32);

/// Why an operation failed.
#[derive(Clone, Copy, PartialEq, Eq, Structural, Debug)]
pub enum StormError {
    /// The path cannot be written in the text form that the engine takes.
    /// The engine was not asked anything.
    InvalidPath,
    /// The data or the file has more bytes than the engine can be told of in
    /// one call, which is `u32::MAX`. The engine was not asked to write or to
    /// read it.
    TooLarge,
    /// The engine reported a failure; the code is the one it gave.
    EngineError(ErrorCode),
}

impl From<ErrorCode> for StormError {
    /// A status code of the engine as the error that it stands for.
    fn from(code: ErrorCode) -> (e: StormError) {
        StormError::EngineError(code)
    }
}

impl FromSpecImpl<ErrorCode> for StormError {
    open spec fn obeys_from_spec() -> bool {
        true
    }

    open spec fn from_spec(code: ErrorCode) -> StormError {
        StormError::EngineError(code)
    }
}

impl ErrorCode {
    /// Whether this is the status "no such file".
    pub fn is_not_found(&self) -> (b: bool)
        ensures
            b == (self.0 == ERROR_FILE_NOT_FOUND),
    {
        self.0 == ERROR_FILE_NOT_FOUND
    }
}

} // verus!
