//! The boundary with the archive engine: the calls that can be put to it and
//! what it hands back.

use crate::error::{ErrorCode, StormError, ERROR_FILE_NOT_FOUND, SFILE_INVALID_SIZE};
use vstd::prelude::*;

verus! {

/// An opaque resource identifier of the engine: an open archive, an open file
/// or a running enumeration. The address `0` is the null handle.
#[derive(Clone, Copy, PartialEq, Eq, Structural, Debug)]
pub struct Handle {
    pub addr: usize,
}

impl Handle {
    /// The null handle.
    pub fn null() -> (h: Handle)
        ensures
            h.addr == 0,
    {
        Handle { addr: 0 }
    }

    pub open spec fn spec_is_null(&self) -> bool {
        self.addr == 0
    }

    /// Whether this is the null handle.
    #[verifier::when_used_as_spec(spec_is_null)]
    pub fn is_null(&self) -> (b: bool)
        ensures
            b == self.spec_is_null(),
    {
        self.addr == 0
    }
}

/// A progress callback of the caller, named by its address. The address `0`
/// stands for "no callback".
#[derive(Clone, Copy, PartialEq, Eq, Structural, Debug)]
pub struct Callback {
    pub addr: usize,
}

impl Callback {
    /// The value that clears a registered callback.
    pub fn none() -> (c: Callback)
        ensures
            c.addr == 0,
    {
        Callback { addr: 0 }
    }
}

/// One entry of an archive's directory, as the engine copies it out.
#[derive(Clone, Debug, PartialEq, Eq)]
pub struct DirectoryEntry {
    /// The full name of the file: a fixed-size buffer, the name first and
    /// zero bytes after it.
    pub file_name: Vec<u8>,
    /// The place of the file in the hash table of the archive.
    pub hash_index: u32,
    /// The place of the file in the block table of the archive.
    pub block_index: u32,
    /// The size of the file in bytes.
    pub file_size: u32,
    /// The storage bits of the file.
    pub file_flags: u32,
    /// The size of the file as it is stored.
    pub comp_size: u32,
    /// The low half of the time of the file.
    pub file_time_lo: u32,
    /// The high half of the time of the file.
    pub file_time_hi: u32,
    /// The locale of the file.
    pub locale: u32,
}

/// The path of an archive on the host, in the text form that the engine
/// takes there. As this crate writes them, both forms end with a zero unit
/// and hold no other.
#[derive(Clone, Debug, PartialEq, Eq)]
pub enum HostPath {
    Narrow(Vec<u8>),
    Wide(Vec<u16>),
}

/// What a [`HostPath`] says, with its text as a sequence.
pub enum HostPathView {
    Narrow(Seq<u8>),
    Wide(Seq<u16>),
}

impl View for HostPath {
    type V = HostPathView;

    open spec fn view(&self) -> HostPathView {
        match *self {
            HostPath::Narrow(bytes) => HostPathView::Narrow(bytes@),
            HostPath::Wide(units) => HostPathView::Wide(units@),
        }
    }
}

/// A call to the engine. File names inside an archive are zero-terminated
/// byte strings.
#[derive(Clone, Debug, PartialEq, Eq)]
pub enum Call {
    /// Create an archive at `path` for at most `max_file_count` files, and
    /// open it. The reply holds the handle of the archive.
    CreateArchive { path: HostPath, flags: u32, max_file_count: u32 },
    /// Open the archive at `path`. The reply holds the handle of the archive.
    OpenArchive { path: HostPath, priority: u32, flags: u32 },
    /// Write the changes held in memory to disk.
    FlushArchive { archive: Handle },
    /// Register `callback` as the progress callback of compaction, or clear
    /// the registered one.
    SetCompactCallback { archive: Handle, callback: Callback },
    /// Compact the archive.
    CompactArchive { archive: Handle },
    /// Tell whether the archive holds a file of this name.
    HasFile { archive: Handle, name: Vec<u8> },
    /// Begin a new file of `file_size` bytes. The reply holds the handle of
    /// the file.
    CreateFile { archive: Handle, name: Vec<u8>, file_time: u64, file_size: u32, flags: u32 },
    /// Write the first `size` bytes of `data` into a file that was begun.
    WriteFile { file: Handle, data: Vec<u8>, size: u32, compression: u32 },
    /// Finish a file that was begun, and release its handle.
    FinishFile { file: Handle },
    /// Open a file of the archive for reading. The reply holds the handle of
    /// the file.
    OpenFile { archive: Handle, name: Vec<u8> },
    /// Remove a file from the archive.
    RemoveFile { archive: Handle, name: Vec<u8> },
    /// Release the handle of an archive.
    CloseArchive { archive: Handle },
    /// Tell the size of a file. The reply holds its two halves.
    GetFileSize { file: Handle },
    /// Set the read position of a file, counted from its start. The reply
    /// holds the low half of the new position.
    SetFilePointer { file: Handle, position: u64 },
    /// Read up to `to_read` bytes from the read position on. The reply holds
    /// a buffer of `to_read` bytes and the number of bytes that were read
    /// into it.
    ReadFile { file: Handle, to_read: u32 },
    /// Release the handle of a file that was opened for reading.
    CloseFile { file: Handle },
    /// Begin to enumerate the files whose names match `mask`. The reply
    /// holds the handle of the enumeration and the first entry, or the null
    /// handle where no name matches.
    FindFirstFile { archive: Handle, mask: Vec<u8> },
    /// Go on with an enumeration. The reply holds the next entry.
    FindNextFile { find: Handle },
    /// Release the handle of an enumeration.
    FindClose { find: Handle },
}

/// What a [`Call`] says, with its buffers as sequences.
pub enum CallView {
    CreateArchive { path: HostPathView, flags: u32, max_file_count: u32 },
    OpenArchive { path: HostPathView, priority: u32, flags: u32 },
    FlushArchive { archive: Handle },
    SetCompactCallback { archive: Handle, callback: Callback },
    CompactArchive { archive: Handle },
    HasFile { archive: Handle, name: Seq<u8> },
    CreateFile { archive: Handle, name: Seq<u8>, file_time: u64, file_size: u32, flags: u32 },
    WriteFile { file: Handle, data: Seq<u8>, size: u32, compression: u32 },
    FinishFile { file: Handle },
    OpenFile { archive: Handle, name: Seq<u8> },
    RemoveFile { archive: Handle, name: Seq<u8> },
    CloseArchive { archive: Handle },
    GetFileSize { file: Handle },
    SetFilePointer { file: Handle, position: u64 },
    ReadFile { file: Handle, to_read: u32 },
    CloseFile { file: Handle },
    FindFirstFile { archive: Handle, mask: Seq<u8> },
    FindNextFile { find: Handle },
    FindClose { find: Handle },
}

impl View for Call {
    type V = CallView;

    open spec fn view(&self) -> CallView {
        match *self {
            Call::CreateArchive { path, flags, max_file_count } => CallView::CreateArchive {
                path: path@,
                flags,
                max_file_count,
            },
            Call::OpenArchive { path, priority, flags } => CallView::OpenArchive {
                path: path@,
                priority,
                flags,
            },
            Call::FlushArchive { archive } => CallView::FlushArchive { archive },
            Call::SetCompactCallback { archive, callback } => CallView::SetCompactCallback {
                archive,
                callback,
            },
            Call::CompactArchive { archive } => CallView::CompactArchive { archive },
            Call::HasFile { archive, name } => CallView::HasFile { archive, name: name@ },
            Call::CreateFile { archive, name, file_time, file_size, flags } => CallView::CreateFile {
                archive,
                name: name@,
                file_time,
                file_size,
                flags,
            },
            Call::WriteFile { file, data, size, compression } => CallView::WriteFile {
                file,
                data: data@,
                size,
                compression,
            },
            Call::FinishFile { file } => CallView::FinishFile { file },
            Call::OpenFile { archive, name } => CallView::OpenFile { archive, name: name@ },
            Call::RemoveFile { archive, name } => CallView::RemoveFile { archive, name: name@ },
            Call::CloseArchive { archive } => CallView::CloseArchive { archive },
            Call::GetFileSize { file } => CallView::GetFileSize { file },
            Call::SetFilePointer { file, position } => CallView::SetFilePointer { file, position },
            Call::ReadFile { file, to_read } => CallView::ReadFile { file, to_read },
            Call::CloseFile { file } => CallView::CloseFile { file },
            Call::FindFirstFile { archive, mask } => CallView::FindFirstFile { archive, mask: mask@ },
            Call::FindNextFile { find } => CallView::FindNextFile { find },
            Call::FindClose { find } => CallView::FindClose { find },
        }
    }
}

/// The outcome of a read, with the bytes as a sequence.
pub open spec fn bytes_read(r: Result<Vec<u8>, StormError>) -> Result<Seq<u8>, StormError> {
    match r {
        Ok(bytes) => Ok(bytes@),
        Err(e) => Err(e),
    }
}

/// Everything the engine hands back from one call: its result and what it
/// wrote through its out-parameters. A part that the call does not fill keeps
/// the value that [`Reply::default`] gives it.
#[derive(Clone, Debug, PartialEq, Eq)]
pub struct Reply {
    /// The boolean result of the call.
    pub success: bool,
    /// The engine's last-error status after the call. It means something only
    /// where the call failed.
    pub last_error: u32,
    /// The handle that the call returned or wrote.
    pub handle: Handle,
    /// The low 32 bits of a size or position that the call returned.
    pub low: u32,
    /// The high 32 bits of a size that the call wrote.
    pub high: u32,
    /// The buffer that a read filled.
    pub data: Vec<u8>,
    /// The number of bytes that a read put into `data`.
    pub count: u32,
    /// The directory entry that an enumeration step wrote.
    pub entry: DirectoryEntry,
}

/// Whether an entry is the empty one: no name, and zero everywhere.
pub open spec fn is_empty_entry(entry: DirectoryEntry) -> bool {
    &&& entry.file_name@ == Seq::<u8>::empty()
    &&& entry.hash_index == 0
    &&& entry.block_index == 0
    &&& entry.file_size == 0
    &&& entry.file_flags == 0
    &&& entry.comp_size == 0
    &&& entry.file_time_lo == 0
    &&& entry.file_time_hi == 0
    &&& entry.locale == 0
}

impl Default for DirectoryEntry {
    /// The empty entry.
    fn default() -> (entry: DirectoryEntry)
        ensures
            is_empty_entry(entry),
    {
        DirectoryEntry {
            file_name: Vec::new(),
            hash_index: 0,
            block_index: 0,
            file_size: 0,
            file_flags: 0,
            comp_size: 0,
            file_time_lo: 0,
            file_time_hi: 0,
            locale: 0,
        }
    }
}

impl DirectoryEntry {
    /// The name of the file: the bytes of `file_name` that stand before its
    /// first zero byte, or all of them where it holds none.
    pub fn name(&self) -> (name: Vec<u8>)
        ensures
            name@.len() <= self.file_name@.len(),
            name@ == self.file_name@.take(name@.len() as int),
            !name@.contains(0u8),
            name@.len() < self.file_name@.len() ==> self.file_name@[name@.len() as int] == 0u8,
    {
        let n: usize = self.file_name.len();
        let mut name: Vec<u8> = Vec::new();
        let mut i: usize = 0;
        while i < n && self.file_name[i] != 0
            invariant
                i <= n,
                n == self.file_name@.len(),
                name@ == self.file_name@.take(i as int),
                !name@.contains(0u8),
            decreases n - i,
        {
            let ghost before = name@;
            name.push(self.file_name[i]);
            assert(name@ =~= self.file_name@.take(i + 1));
            assert(!name@.contains(0u8)) by {
                assert forall|j: int| 0 <= j < name@.len() implies name@[j] != 0u8 by {
                    if j < before.len() {
                        assert(before[j] == name@[j]);
                        assert(before.contains(before[j]));
                    }
                }
            }
            i += 1;
        }
        name
    }
}

impl Default for Reply {
    /// The reply of a call that failed without a status and filled nothing.
    fn default() -> (reply: Reply)
        ensures
            !reply.success,
            reply.last_error == 0,
            reply.handle.is_null(),
            reply.low == 0,
            reply.high == 0,
            reply.data@ == Seq::<u8>::empty(),
            reply.count == 0,
            is_empty_entry(reply.entry),
    {
        Reply {
            success: false,
            last_error: 0,
            handle: Handle::null(),
            low: 0,
            high: 0,
            data: Vec::new(),
            count: 0,
            entry: DirectoryEntry::default(),
        }
    }
}

impl Reply {
    /// The error that a failed call is reported with.
    pub open spec fn failure(&self) -> StormError {
        StormError::EngineError(ErrorCode(self.last_error))
    }

    pub open spec fn spec_status(&self) -> Result<(), StormError> {
        if self.success {
            Ok(())
        } else {
            Err(self.failure())
        }
    }

    /// Reads the reply to a call that either succeeds or fails.
    #[verifier::when_used_as_spec(spec_status)]
    pub fn status(&self) -> (r: Result<(), StormError>)
        ensures
            r == self.spec_status(),
    {
        if self.success {
            Ok(())
        } else {
            Err(StormError::EngineError(ErrorCode(self.last_error)))
        }
    }

    pub open spec fn spec_probe(&self) -> Result<bool, StormError> {
        if self.success {
            Ok(true)
        } else if self.last_error == ERROR_FILE_NOT_FOUND {
            Ok(false)
        } else {
            Err(self.failure())
        }
    }

    /// Reads the reply to a call that looks for a named file: that the file
    /// is not there is an answer, not a failure.
    #[verifier::when_used_as_spec(spec_probe)]
    pub fn probe(&self) -> (r: Result<bool, StormError>)
        ensures
            r == self.spec_probe(),
    {
        if self.success {
            Ok(true)
        } else if self.last_error == ERROR_FILE_NOT_FOUND {
            Ok(false)
        } else {
            Err(StormError::EngineError(ErrorCode(self.last_error)))
        }
    }

    pub open spec fn spec_opened(&self) -> Result<Handle, StormError> {
        if self.success {
            Ok(self.handle)
        } else {
            Err(self.failure())
        }
    }

    /// Reads the reply to a call that opens or creates a resource.
    #[verifier::when_used_as_spec(spec_opened)]
    pub fn opened(&self) -> (r: Result<Handle, StormError>)
        ensures
            r == self.spec_opened(),
    {
        if self.success {
            Ok(self.handle)
        } else {
            Err(StormError::EngineError(ErrorCode(self.last_error)))
        }
    }

    pub open spec fn spec_size(&self) -> Result<u64, StormError> {
        if self.low == SFILE_INVALID_SIZE {
            Err(self.failure())
        } else {
            Ok((self.high as int * 0x1_0000_0000 + self.low as int) as u64)
        }
    }

    /// Reads the reply to a size query: the size is put together from its
    /// high and low halves.
    #[verifier::when_used_as_spec(spec_size)]
    pub fn size(&self) -> (r: Result<u64, StormError>)
        ensures
            r == self.spec_size(),
            r matches Ok(size) ==> size == self.high as int * 0x1_0000_0000 + self.low as int,
    {
        if self.low == SFILE_INVALID_SIZE {
            Err(StormError::EngineError(ErrorCode(self.last_error)))
        } else {
            let low: u32 = self.low;
            let high: u32 = self.high;
            let size: u64 = ((high as u64) << 32) | (low as u64);
            assert(((high as u64) << 32) | (low as u64) == (high as u64) * 0x1_0000_0000 + (low as u64))
                by (bit_vector);
            Ok(size)
        }
    }

    pub open spec fn spec_moved(&self) -> Result<(), StormError> {
        if self.low == SFILE_INVALID_SIZE {
            Err(self.failure())
        } else {
            Ok(())
        }
    }

    /// Reads the reply to a call that moves the read position.
    #[verifier::when_used_as_spec(spec_moved)]
    pub fn moved(&self) -> (r: Result<(), StormError>)
        ensures
            r == self.spec_moved(),
    {
        if self.low == SFILE_INVALID_SIZE {
            Err(StormError::EngineError(ErrorCode(self.last_error)))
        } else {
            Ok(())
        }
    }

    /// What a read of a file of `size` bytes yields: the buffer, cut to the
    /// bytes that were read where the engine read fewer than `size`. A count
    /// beyond the end of the buffer cuts nothing.
    pub open spec fn spec_bytes(&self, size: u64) -> Result<Seq<u8>, StormError> {
        if !self.success {
            Err(self.failure())
        } else if self.count < size && self.count <= self.data@.len() {
            Ok(self.data@.take(self.count as int))
        } else {
            Ok(self.data@)
        }
    }

    /// Reads the reply to a read of a file of `size` bytes.
    pub fn bytes(self, size: u64) -> (r: Result<Vec<u8>, StormError>)
        ensures
            bytes_read(r) == self.spec_bytes(size),
    {
        if !self.success {
            return Err(StormError::EngineError(ErrorCode(self.last_error)));
        }
        let mut buf = self.data;
        if (self.count as u64) < size {
            buf.truncate(self.count as usize);
        }
        Ok(buf)
    }

    pub open spec fn spec_first(&self) -> Option<(Handle, DirectoryEntry)> {
        if self.handle.is_null() {
            None
        } else {
            Some((self.handle, self.entry))
        }
    }

    /// Reads the reply to the start of an enumeration: the enumeration's
    /// handle and the first entry, or nothing where no entry matches.
    pub fn first(self) -> (r: Option<(Handle, DirectoryEntry)>)
        ensures
            r == self.spec_first(),
    {
        if self.handle.is_null() {
            None
        } else {
            Some((self.handle, self.entry))
        }
    }

    pub open spec fn spec_next(&self) -> Option<DirectoryEntry> {
        if self.success {
            Some(self.entry)
        } else {
            None
        }
    }

    /// Reads the reply to a step of an enumeration: the next entry, or
    /// nothing where there is none left.
    pub fn next(self) -> (r: Option<DirectoryEntry>)
        ensures
            r == self.spec_next(),
    {
        if self.success {
            Some(self.entry)
        } else {
            None
        }
    }
}

} // verus!
