//! Safe, ownership-checked access to MPQ archives through a handle-based
//! archive engine.
//!
//! An MPQ archive holds many named files in one file on disk. The engine that
//! reads and writes the format hands out opaque handles and reports failures
//! through status codes. This crate is the layer above it: an [`Archive`] owns
//! the handle of an open archive, a [`File`] and a [`Search`] borrow their
//! archive and so cannot outlive it, every value is closed by using it up, and
//! every failure comes back as a [`StormError`].
//!
//! The engine itself is not part of this crate. It is handed in as a function
//! from [`Call`] to [`Reply`], and everything that decides what the engine is
//! asked, in which order, and what its answers mean lives here. What an
//! operation says to the engine is stated as a *run*: a function from the
//! replies of the engine to the calls that the operation makes and to what it
//! ends with. Each operation is proved to hold the conversation that its run
//! describes.

pub mod archive;
pub mod constants;
pub mod conversation;
pub mod engine;
pub mod error;
pub mod file;
pub mod path;
pub mod search;

pub use archive::{Archive, CreateFileOptions};
pub use constants::{CompressionFlags, CreateArchiveFlags, CreateFileFlags, OpenArchiveFlags};
pub use conversation::{Exchange, Line, Run};
pub use engine::{Call, CallView, Callback, DirectoryEntry, Handle, HostPath, HostPathView, Reply};
pub use error::{ErrorCode, StormError, ERROR_FILE_NOT_FOUND, SFILE_INVALID_SIZE};
pub use file::{File, FileState};
pub use search::{Search, SearchState};
