//! An open archive: its lifecycle and the operations on its contents.

use crate::constants::{CompressionFlags, CreateArchiveFlags, CreateFileFlags, OpenArchiveFlags};
use crate::conversation::{
    answered, carried_out, ended, replies_of, takes_every_call, Exchange, Line, Run,
};
use crate::engine::{Call, CallView, Callback, Handle, HostPath, HostPathView, Reply};
use crate::error::{ErrorCode, StormError, ERROR_FILE_NOT_FOUND};
use crate::file::{law_read_whole, read_all_run, tells_size, File, FileState};
use crate::path::{
    c_string, has_nul, narrow_path, to_c_string, to_narrow_path, to_wide_path, wide_path, written,
};
use crate::search::{Search, SearchState};
use vstd::prelude::*;
use vstd::slice::slice_to_vec;

verus! {

/// The run of an operation that ends before the engine is asked anything.
pub open spec fn refused<T>(error: StormError) -> Run<Result<T, StormError>> {
    Run { calls: seq![], end: Err(error) }
}

/// Opening an archive: one call, unless the path could not be written.
pub open spec fn open_run(path: Option<HostPathView>, flags: u32, replies: Seq<Reply>) -> Run<
    Result<Handle, StormError>,
> {
    match path {
        None => refused(StormError::InvalidPath),
        Some(path) => Run {
            calls: seq![CallView::OpenArchive { path, priority: 0, flags }],
            end: replies[0].opened(),
        },
    }
}

/// Creating an archive: one call, unless the path could not be written.
pub open spec fn create_run(
    path: Option<HostPathView>,
    flags: u32,
    max_file_count: u32,
    replies: Seq<Reply>,
) -> Run<Result<Handle, StormError>> {
    match path {
        None => refused(StormError::InvalidPath),
        Some(path) => Run {
            calls: seq![CallView::CreateArchive { path, flags, max_file_count }],
            end: replies[0].opened(),
        },
    }
}

/// Flushing an archive: one call.
pub open spec fn flush_run(archive: Handle, replies: Seq<Reply>) -> Run<Result<(), StormError>> {
    Run { calls: seq![CallView::FlushArchive { archive }], end: replies[0].status() }
}

/// Compacting an archive. With a callback: the callback is registered, the
/// archive compacted, the callback cleared; the first of the three that fails
/// ends the operation. Without one: the archive is compacted.
pub open spec fn compact_run(archive: Handle, callback: Option<Callback>, replies: Seq<Reply>) -> Run<
    Result<(), StormError>,
> {
    let compact = CallView::CompactArchive { archive };
    match callback {
        None => Run { calls: seq![compact], end: replies[0].status() },
        Some(callback) => {
            let register = CallView::SetCompactCallback { archive, callback };
            let clear = CallView::SetCompactCallback { archive, callback: Callback { addr: 0 } };
            if !replies[0].success {
                Run { calls: seq![register], end: Err(replies[0].failure()) }
            } else if !replies[1].success {
                Run { calls: seq![register, compact], end: Err(replies[1].failure()) }
            } else {
                Run { calls: seq![register, compact, clear], end: replies[2].status() }
            }
        },
    }
}

/// Probing for a file: one call, unless the name cannot be written.
pub open spec fn has_file_run(archive: Handle, path: Seq<char>, replies: Seq<Reply>) -> Run<
    Result<bool, StormError>,
> {
    if has_nul(path) {
        refused(StormError::InvalidPath)
    } else {
        Run {
            calls: seq![CallView::HasFile { archive, name: c_string(path) }],
            end: replies[0].probe(),
        }
    }
}

/// Removing a file: one call, unless the name cannot be written.
pub open spec fn remove_file_run(archive: Handle, path: Seq<char>, replies: Seq<Reply>) -> Run<
    Result<bool, StormError>,
> {
    if has_nul(path) {
        refused(StormError::InvalidPath)
    } else {
        Run {
            calls: seq![CallView::RemoveFile { archive, name: c_string(path) }],
            end: replies[0].probe(),
        }
    }
}

/// Opening a file of the archive: one call, unless the name cannot be
/// written.
pub open spec fn open_file_run(archive: Handle, path: Seq<char>, replies: Seq<Reply>) -> Run<
    Result<Handle, StormError>,
> {
    if has_nul(path) {
        refused(StormError::InvalidPath)
    } else {
        Run {
            calls: seq![CallView::OpenFile { archive, name: c_string(path) }],
            end: replies[0].opened(),
        }
    }
}

/// Writing a new file into the archive. Nothing is asked where the name
/// cannot be written, or where the data has more bytes than the engine can
/// be told of. Otherwise the file is begun. Where that fails, the operation
/// ends. Where it goes well, the data is written and the file finished, which
/// releases the handle of the file: also after a write that failed, and then
/// the operation ends with the failure of the write.
pub open spec fn create_file_run(
    archive: Handle,
    path: Seq<char>,
    data: Seq<u8>,
    flags: u32,
    file_time: u64,
    compression: u32,
    replies: Seq<Reply>,
) -> Run<Result<(), StormError>> {
    let size = data.len() as u32;
    let begin = CallView::CreateFile {
        archive,
        name: c_string(path),
        file_time,
        file_size: size,
        flags,
    };
    let write = CallView::WriteFile { file: replies[0].handle, data, size, compression };
    let finish = CallView::FinishFile { file: replies[0].handle };
    if has_nul(path) {
        refused(StormError::InvalidPath)
    } else if data.len() > u32::MAX {
        refused(StormError::TooLarge)
    } else if !replies[0].success {
        Run { calls: seq![begin], end: Err(replies[0].failure()) }
    } else {
        Run {
            calls: seq![begin, write, finish],
            end: if replies[1].success {
                replies[2].status()
            } else {
                Err(replies[1].failure())
            },
        }
    }
}

/// What a new file is made of.
pub struct CreateFileOptions<'a> {
    /// The name of the file inside the archive.
    pub path: &'a str,
    /// The contents of the file.
    pub data: &'a Vec<u8>,
    /// How the file is stored.
    pub flags: CreateFileFlags,
    /// The modification time of the file.
    pub mtime: u64,
    /// How the data is compressed.
    pub compression: CompressionFlags,
}

/// An open archive. It owns the engine's handle of the archive, and the
/// engine is reached through it.
pub struct Archive<E: Fn(Call) -> Reply> {
    line: Line<E>,
    handle: Handle,
    log: Ghost<Seq<Exchange>>,
}

impl<E: Fn(Call) -> Reply> Archive<E> {
    /// The engine that the archive was opened with.
    pub closed spec fn engine(&self) -> E {
        self.line.engine()
    }

    /// The engine's handle of the archive.
    pub closed spec fn spec_handle(&self) -> Handle {
        self.handle
    }

    /// The engine's handle of the archive.
    #[verifier::when_used_as_spec(spec_handle)]
    pub fn handle(&self) -> (handle: Handle)
        ensures
            handle == self.spec_handle(),
    {
        self.handle
    }

    /// Every call that was made through this value, with its reply, oldest
    /// first.
    pub closed spec fn log(&self) -> Seq<Exchange> {
        self.log@
    }

    /// Whether `self` is the archive `before`, some calls later.
    pub open spec fn same_archive(&self, before: &Self) -> bool {
        &&& self.engine() == before.engine()
        &&& self.handle() == before.handle()
    }

    /// Whether an attempt to open or create an archive went as `run`
    /// describes and ended with `r`.
    pub open spec fn begun(
        engine: E,
        run: spec_fn(Seq<Reply>) -> Run<Result<Handle, StormError>>,
        r: Result<Self, StormError>,
    ) -> bool {
        exists|said: Seq<Exchange>|
            {
                &&& carried_out(engine, said, #[trigger] run(replies_of(said)))
                &&& match r {
                    Ok(archive) => {
                        &&& archive.engine() == engine
                        &&& archive.log() == said
                        &&& run(replies_of(said)).end == Ok::<Handle, StormError>(archive.handle())
                    },
                    Err(e) => run(replies_of(said)).end == Err::<Handle, StormError>(e),
                }
            }
    }

    /// Puts one call to the engine and notes it.
    fn ask(&mut self, call: Call) -> (reply: Reply)
        ensures
            final(self).same_archive(old(self)),
            final(self).log() == old(self).log().push(Exchange { call, reply }),
            answered(old(self).engine(), Exchange { call, reply }),
    {
        self.line.ask(call, &mut self.log)
    }

    /// The line to the engine, for the files and the searches of this
    /// archive.
    pub(crate) fn line(&self) -> (line: &Line<E>)
        ensures
            line.engine() == self.engine(),
    {
        &self.line
    }

    /// Puts the call that opens or creates an archive, and makes the archive
    /// of the handle that comes back.
    fn begin(engine: E, call: Call) -> (r: (Result<Self, StormError>, Ghost<Exchange>))
        requires
            takes_every_call(engine),
        ensures
            r.1@.call == call,
            answered(engine, r.1@),
            match r.0 {
                Ok(archive) => {
                    &&& archive.engine() == engine
                    &&& archive.log() == seq![r.1@]
                    &&& r.1@.reply.opened() == Ok::<Handle, StormError>(archive.handle())
                },
                Err(e) => r.1@.reply.opened() == Err::<Handle, StormError>(e),
            },
    {
        let line = Line::new(engine);
        let mut log: Ghost<Seq<Exchange>> = Ghost(Seq::empty());
        let reply = line.ask(call, &mut log);
        let x: Ghost<Exchange> = Ghost(log@[0]);
        match reply.opened() {
            Ok(handle) => (Ok(Archive { line, handle, log }), x),
            Err(e) => (Err(e), x),
        }
    }

    /// Opens the archive at a path that was written, or fails where the path
    /// was refused.
    fn open_at(engine: E, path: Result<HostPath, StormError>, flags: OpenArchiveFlags) -> (r:
        Result<Self, StormError>)
        requires
            takes_every_call(engine),
            path matches Err(e) ==> e == StormError::InvalidPath,
        ensures
            Self::begun(engine, |replies: Seq<Reply>| open_run(written(path), flags.bits, replies), r),
    {
        let ghost run = |replies: Seq<Reply>| open_run(written(path), flags.bits, replies);
        let path = match path {
            Ok(path) => path,
            Err(e) => {
                assert(carried_out(
                    engine,
                    Seq::<Exchange>::empty(),
                    run(replies_of(Seq::<Exchange>::empty())),
                ));
                return Err(e);
            },
        };
        let (r, Ghost(x)) = Self::begin(
            engine,
            Call::OpenArchive { path, priority: 0, flags: flags.bits() },
        );
        assert(carried_out(engine, seq![x], run(replies_of(seq![x]))));
        r
    }

    /// Creates an archive at a path that was written, or fails where the
    /// path was refused.
    fn create_at(
        engine: E,
        path: Result<HostPath, StormError>,
        flags: CreateArchiveFlags,
        max_file_count: u32,
    ) -> (r: Result<Self, StormError>)
        requires
            takes_every_call(engine),
            path matches Err(e) ==> e == StormError::InvalidPath,
        ensures
            Self::begun(
                engine,
                |replies: Seq<Reply>| create_run(written(path), flags.bits, max_file_count, replies),
                r,
            ),
    {
        let ghost run = |replies: Seq<Reply>|
            create_run(written(path), flags.bits, max_file_count, replies);
        let path = match path {
            Ok(path) => path,
            Err(e) => {
                assert(carried_out(
                    engine,
                    Seq::<Exchange>::empty(),
                    run(replies_of(Seq::<Exchange>::empty())),
                ));
                return Err(e);
            },
        };
        let (r, Ghost(x)) = Self::begin(
            engine,
            Call::CreateArchive { path, flags: flags.bits(), max_file_count },
        );
        assert(carried_out(engine, seq![x], run(replies_of(seq![x]))));
        r
    }

    /// Opens an archive. The path goes to the engine as narrow text.
    pub fn open(engine: E, path: &str, flags: OpenArchiveFlags) -> (r: Result<Self, StormError>)
        requires
            takes_every_call(engine),
        ensures
            Self::begun(
                engine,
                |replies: Seq<Reply>| open_run(narrow_path(path@), flags.bits, replies),
                r,
            ),
    {
        Self::open_at(engine, to_narrow_path(path), flags)
    }

    /// Opens an archive. The path is given in 16-bit units, without a
    /// terminator, and goes to the engine as wide text.
    pub fn open_wide(engine: E, path: &[u16], flags: OpenArchiveFlags) -> (r: Result<
        Self,
        StormError,
    >)
        requires
            takes_every_call(engine),
        ensures
            Self::begun(
                engine,
                |replies: Seq<Reply>| open_run(wide_path(path@), flags.bits, replies),
                r,
            ),
    {
        Self::open_at(engine, to_wide_path(path), flags)
    }

    /// Creates a new archive for at most `max_file_count` files. The path
    /// goes to the engine as narrow text.
    pub fn create(engine: E, path: &str, flags: CreateArchiveFlags, max_file_count: u32) -> (r:
        Result<Self, StormError>)
        requires
            takes_every_call(engine),
        ensures
            Self::begun(
                engine,
                |replies: Seq<Reply>|
                    create_run(narrow_path(path@), flags.bits, max_file_count, replies),
                r,
            ),
    {
        Self::create_at(engine, to_narrow_path(path), flags, max_file_count)
    }

    /// Creates a new archive for at most `max_file_count` files. The path is
    /// given in 16-bit units, without a terminator, and goes to the engine as
    /// wide text.
    pub fn create_wide(engine: E, path: &[u16], flags: CreateArchiveFlags, max_file_count: u32) -> (r:
        Result<Self, StormError>)
        requires
            takes_every_call(engine),
        ensures
            Self::begun(
                engine,
                |replies: Seq<Reply>|
                    create_run(wide_path(path@), flags.bits, max_file_count, replies),
                r,
            ),
    {
        Self::create_at(engine, to_wide_path(path), flags, max_file_count)
    }

    /// Closes the archive: the engine is told to release the handle. The
    /// value is used up, so an archive is closed once at most. What was said
    /// to the engine comes back as a ghost value.
    pub fn close(self) -> (said: Ghost<Seq<Exchange>>)
        ensures
            carried_out(
                self.engine(),
                said@,
                Run { calls: seq![CallView::CloseArchive { archive: self.handle() }], end: () },
            ),
    {
        let mut said: Ghost<Seq<Exchange>> = Ghost(Seq::empty());
        self.line.ask(Call::CloseArchive { archive: self.handle }, &mut said);
        said
    }

    /// Flushes the changes that are held in memory to the archive on disk.
    /// The engine also does so when the archive is closed.
    pub fn flush(&mut self) -> (r: Result<(), StormError>)
        ensures
            final(self).same_archive(old(self)),
            ended(
                old(self).engine(),
                old(self).log(),
                final(self).log(),
                |replies: Seq<Reply>| flush_run(old(self).handle(), replies),
                r,
            ),
    {
        let reply = self.ask(Call::FlushArchive { archive: self.handle });
        reply.status()
    }

    /// Tells whether the archive holds a file of this name, without opening
    /// the file.
    pub fn has_file(&mut self, path: &str) -> (r: Result<bool, StormError>)
        ensures
            final(self).same_archive(old(self)),
            ended(
                old(self).engine(),
                old(self).log(),
                final(self).log(),
                |replies: Seq<Reply>| has_file_run(old(self).handle(), path@, replies),
                r,
            ),
    {
        let name = match to_c_string(path) {
            Ok(name) => name,
            Err(e) => {
                return Err(e);
            },
        };
        let reply = self.ask(Call::HasFile { archive: self.handle, name });
        reply.probe()
    }

    /// Compacts the archive: writes it anew, so that the room of removed and
    /// replaced files is given back. A callback, where one is given, is
    /// registered before and cleared after.
    pub fn compact(&mut self, callback: Option<Callback>) -> (r: Result<(), StormError>)
        ensures
            final(self).same_archive(old(self)),
            ended(
                old(self).engine(),
                old(self).log(),
                final(self).log(),
                |replies: Seq<Reply>| compact_run(old(self).handle(), callback, replies),
                r,
            ),
    {
        if let Some(callback) = callback {
            let reply = self.ask(Call::SetCompactCallback { archive: self.handle, callback });
            if let Err(e) = reply.status() {
                return Err(e);
            }
        }
        let reply = self.ask(Call::CompactArchive { archive: self.handle });
        if let Err(e) = reply.status() {
            return Err(e);
        }
        if callback.is_some() {
            let reply = self.ask(
                Call::SetCompactCallback { archive: self.handle, callback: Callback::none() },
            );
            if let Err(e) = reply.status() {
                return Err(e);
            }
        }
        Ok(())
    }

    /// Writes a new file into the archive: begins it, writes all of its data
    /// and finishes it. Data of more than `u32::MAX` bytes is refused before
    /// the engine is asked. A file that was begun is finished whether the
    /// write went well or not, so that its handle is released; what a failed
    /// write left in the archive is not undone.
    pub fn create_file(&mut self, opts: &CreateFileOptions) -> (r: Result<(), StormError>)
        ensures
            final(self).same_archive(old(self)),
            ended(
                old(self).engine(),
                old(self).log(),
                final(self).log(),
                |replies: Seq<Reply>|
                    create_file_run(
                        old(self).handle(),
                        opts.path@,
                        opts.data@,
                        opts.flags.bits,
                        opts.mtime,
                        opts.compression.bits,
                        replies,
                    ),
                r,
            ),
    {
        let name = match to_c_string(opts.path) {
            Ok(name) => name,
            Err(e) => {
                return Err(e);
            },
        };
        let len: usize = opts.data.len();
        if len as u64 > 0xFFFF_FFFF {
            return Err(StormError::TooLarge);
        }
        let size: u32 = len as u32;
        let reply = self.ask(
            Call::CreateFile {
                archive: self.handle,
                name,
                file_time: opts.mtime,
                file_size: size,
                flags: opts.flags.bits(),
            },
        );
        let file = match reply.opened() {
            Ok(file) => file,
            Err(e) => {
                return Err(e);
            },
        };
        let data: Vec<u8> = slice_to_vec(opts.data.as_slice());
        let wrote = self.ask(
            Call::WriteFile { file, data, size, compression: opts.compression.bits() },
        );
        let finished = self.ask(Call::FinishFile { file });
        match wrote.status() {
            Ok(()) => finished.status(),
            Err(e) => Err(e),
        }
    }

    /// Opens a file of the archive for reading. The file borrows the archive
    /// for as long as it lives.
    pub fn open_file<'a>(&'a mut self, path: &str) -> (r: Result<File<'a, E>, StormError>)
        ensures
            final(self).same_archive(old(self)),
            ended(
                old(self).engine(),
                old(self).log(),
                final(self).log(),
                |replies: Seq<Reply>| open_file_run(old(self).handle(), path@, replies),
                handle_opened(r),
            ),
            r matches Ok(file) ==> {
                &&& file.archive() == *final(self)
                &&& file.state() == (FileState { size: None, need_reset: false })
                &&& file.log() == Seq::<Exchange>::empty()
            },
    {
        let name = match to_c_string(path) {
            Ok(name) => name,
            Err(e) => {
                return Err(e);
            },
        };
        let reply = self.ask(Call::OpenFile { archive: self.handle, name });
        match reply.opened() {
            Ok(handle) => Ok(File::new(self, handle)),
            Err(e) => Err(e),
        }
    }

    /// Removes a file from the archive. That there is no such file is an
    /// answer, `false`, and no failure.
    pub fn remove_file(&mut self, path: &str) -> (r: Result<bool, StormError>)
        ensures
            final(self).same_archive(old(self)),
            ended(
                old(self).engine(),
                old(self).log(),
                final(self).log(),
                |replies: Seq<Reply>| remove_file_run(old(self).handle(), path@, replies),
                r,
            ),
    {
        let name = match to_c_string(path) {
            Ok(name) => name,
            Err(e) => {
                return Err(e);
            },
        };
        let reply = self.ask(Call::RemoveFile { archive: self.handle, name });
        reply.probe()
    }

    /// A search for the files whose names match `filter`, or for all files
    /// where no filter is given. The engine is not asked anything before the
    /// first step of the search.
    pub fn search<'a>(&'a self, filter: Option<&str>) -> (r: Result<Search<'a, E>, StormError>)
        ensures
            r is Err <==> has_nul(search_mask(filter)),
            r matches Err(e) ==> e == StormError::InvalidPath,
            r matches Ok(search) ==> {
                &&& search.archive() == *self
                &&& search.mask() == c_string(search_mask(filter))
                &&& search.state() == (SearchState { find: None, exhausted: false })
                &&& search.log() == Seq::<Exchange>::empty()
            },
    {
        let text: &str = match filter {
            Some(text) => text,
            None => {
                proof {
                    reveal_strlit("*");
                    assert("*"@ =~= seq!['*']);
                }
                "*"
            },
        };
        match to_c_string(text) {
            Ok(mask) => Ok(Search::new(self, mask)),
            Err(e) => Err(e),
        }
    }
}

/// The outcome of opening a file, with the file as its handle.
pub open spec fn handle_opened<'a, E: Fn(Call) -> Reply>(
    r: Result<File<'a, E>, StormError>,
) -> Result<Handle, StormError> {
    match r {
        Ok(file) => Ok(file.handle()),
        Err(e) => Err(e),
    }
}

/// The mask of a search: the filter where one is given, and the mask that
/// every name matches where none is.
pub open spec fn search_mask(filter: Option<&str>) -> Seq<char> {
    match filter {
        Some(text) => text@,
        None => seq!['*'],
    }
}

/// A file that the engine finds is there: the probe ends with `true`. A file
/// that the engine reports as not found is not there: the probe ends with
/// `false`, which is no error. Any other failure of the engine is an error
/// that carries the engine's code.
pub proof fn law_has_file(archive: Handle, path: Seq<char>, reply: Reply)
    requires
        !has_nul(path),
    ensures
        has_file_run(archive, path, seq![reply]).calls == seq![
            CallView::HasFile { archive, name: c_string(path) },
        ],
        reply.success ==> has_file_run(archive, path, seq![reply]).end == Ok::<bool, StormError>(
            true,
        ),
        !reply.success && reply.last_error == ERROR_FILE_NOT_FOUND ==> has_file_run(
            archive,
            path,
            seq![reply],
        ).end == Ok::<bool, StormError>(false),
        !reply.success && reply.last_error != ERROR_FILE_NOT_FOUND ==> has_file_run(
            archive,
            path,
            seq![reply],
        ).end == Err::<bool, StormError>(StormError::EngineError(ErrorCode(reply.last_error))),
{
}

/// Removing a file that the engine reports as not found ends with `false`,
/// which is no error; removing one that the engine removes ends with `true`;
/// any other failure of the engine is an error that carries the engine's
/// code.
pub proof fn law_remove_file(archive: Handle, path: Seq<char>, reply: Reply)
    requires
        !has_nul(path),
    ensures
        remove_file_run(archive, path, seq![reply]).calls == seq![
            CallView::RemoveFile { archive, name: c_string(path) },
        ],
        reply.success ==> remove_file_run(archive, path, seq![reply]).end == Ok::<
            bool,
            StormError,
        >(true),
        !reply.success && reply.last_error == ERROR_FILE_NOT_FOUND ==> remove_file_run(
            archive,
            path,
            seq![reply],
        ).end == Ok::<bool, StormError>(false),
        !reply.success && reply.last_error != ERROR_FILE_NOT_FOUND ==> remove_file_run(
            archive,
            path,
            seq![reply],
        ).end == Err::<bool, StormError>(StormError::EngineError(ErrorCode(reply.last_error))),
{
}

/// A path or a name that cannot be written is refused before the engine is
/// asked anything, whatever the engine would have said.
pub proof fn law_invalid_path_asks_nothing(
    archive: Handle,
    path: Seq<char>,
    units: Seq<u16>,
    flags: u32,
    max_file_count: u32,
    data: Seq<u8>,
    file_time: u64,
    compression: u32,
    replies: Seq<Reply>,
)
    requires
        has_nul(path),
        units.contains(0u16),
    ensures
        open_run(narrow_path(path), flags, replies) == refused::<Handle>(StormError::InvalidPath),
        open_run(wide_path(units), flags, replies) == refused::<Handle>(StormError::InvalidPath),
        create_run(narrow_path(path), flags, max_file_count, replies) == refused::<Handle>(
            StormError::InvalidPath,
        ),
        create_run(wide_path(units), flags, max_file_count, replies) == refused::<Handle>(
            StormError::InvalidPath,
        ),
        has_file_run(archive, path, replies) == refused::<bool>(StormError::InvalidPath),
        remove_file_run(archive, path, replies) == refused::<bool>(StormError::InvalidPath),
        open_file_run(archive, path, replies) == refused::<Handle>(StormError::InvalidPath),
        create_file_run(archive, path, data, flags, file_time, compression, replies) == refused::<
            (),
        >(StormError::InvalidPath),
        refused::<()>(StormError::InvalidPath).calls.len() == 0,
{
}

/// Data of more bytes than the engine can be told of is refused before the
/// engine is asked anything. The size that the engine is told, where it is
/// asked, is the number of the bytes.
pub proof fn law_large_data_is_refused(
    archive: Handle,
    path: Seq<char>,
    data: Seq<u8>,
    flags: u32,
    file_time: u64,
    compression: u32,
    replies: Seq<Reply>,
)
    requires
        !has_nul(path),
    ensures
        ({
            let run = create_file_run(archive, path, data, flags, file_time, compression, replies);
            let size = data.len() as u32;
            &&& data.len() > u32::MAX ==> run == refused::<()>(StormError::TooLarge)
            &&& run.end is Ok ==> data.len() <= u32::MAX
            &&& run.calls.len() > 0 ==> size == data.len() && run.calls[0] == (CallView::CreateFile {
                archive,
                name: c_string(path),
                file_time,
                file_size: size,
                flags,
            })
            &&& run.calls.len() > 1 ==> run.calls[1] == (CallView::WriteFile {
                file: replies[0].handle,
                data,
                size,
                compression,
            })
        }),
{
}

/// A compaction with a callback registers the callback first. It clears the
/// callback exactly when both the registration and the compaction went well,
/// and then as its last call. It succeeds exactly when all three calls do.
pub proof fn law_compact_with_callback(archive: Handle, callback: Callback, replies: Seq<Reply>)
    ensures
        ({
            let run = compact_run(archive, Some(callback), replies);
            let clear = CallView::SetCompactCallback { archive, callback: Callback { addr: 0 } };
            &&& run.calls[0] == (CallView::SetCompactCallback { archive, callback })
            &&& run.calls.len() == 3 <==> replies[0].success && replies[1].success
            &&& run.calls.len() == 3 ==> run.calls[2] == clear
            &&& run.calls.len() >= 2 <==> replies[0].success
            &&& run.calls.len() >= 2 ==> run.calls[1] == (CallView::CompactArchive { archive })
            &&& run.end is Ok <==> replies[0].success && replies[1].success && replies[2].success
        }),
{
}

/// A compaction without a callback asks the engine to compact the archive,
/// and nothing else.
pub proof fn law_compact_without_callback(archive: Handle, replies: Seq<Reply>)
    ensures
        compact_run(archive, None, replies).calls == seq![CallView::CompactArchive { archive }],
        compact_run(archive, None, replies).end == replies[0].status(),
{
}

/// Where the engine begins the new file, the data that it is then given to
/// write is the caller's data, unchanged, with the caller's compression
/// bits, on the handle that the engine gave. The operation succeeds exactly
/// when all three calls do, and a failed write is what it fails with.
pub proof fn law_create_file_hands_the_data_on(
    archive: Handle,
    path: Seq<char>,
    data: Seq<u8>,
    flags: u32,
    file_time: u64,
    compression: u32,
    replies: Seq<Reply>,
)
    requires
        !has_nul(path),
        data.len() <= u32::MAX,
    ensures
        ({
            let run = create_file_run(archive, path, data, flags, file_time, compression, replies);
            &&& run.calls.len() == 3 <==> replies[0].success
            &&& run.calls.len() == 3 ==> run.calls[1] == (CallView::WriteFile {
                file: replies[0].handle,
                data,
                size: data.len() as u32,
                compression,
            })
            &&& run.end is Ok <==> replies[0].success && replies[1].success && replies[2].success
            &&& replies[0].success && !replies[1].success ==> run.end == Err::<(), StormError>(
                replies[1].failure(),
            )
        }),
{
}

/// The handle of a file that was begun is released once, on every way out:
/// the run makes no call at all, or the one call that failed to begin the
/// file, or it ends with the call that finishes the file and releases the
/// handle, after a write that went well as after one that failed. No other
/// call of the run releases a handle.
pub proof fn law_create_file_releases_the_handle(
    archive: Handle,
    path: Seq<char>,
    data: Seq<u8>,
    flags: u32,
    file_time: u64,
    compression: u32,
    replies: Seq<Reply>,
)
    ensures
        ({
            let run = create_file_run(archive, path, data, flags, file_time, compression, replies);
            let begun = run.calls.len() > 0 && replies[0].success;
            &&& begun ==> run.calls.len() == 3 && run.calls[2] == (CallView::FinishFile {
                file: replies[0].handle,
            })
            &&& !begun ==> run.calls.len() <= 1
            &&& forall|i: int|
                0 <= i < run.calls.len() && #[trigger] run.calls[i] is FinishFile ==> begun && i == 2
        }),
{
}

/// What is written comes back. Take a file that was written into an archive
/// with any storage and compression bits, all three steps having gone well.
/// Where the engine later tells the size of that file as the number of the
/// bytes that it was given to write, and reads those bytes, the file reads
/// as the bytes that the caller wrote.
pub proof fn law_round_trip(
    archive: Handle,
    path: Seq<char>,
    data: Seq<u8>,
    flags: u32,
    file_time: u64,
    compression: u32,
    written: Seq<Reply>,
    file: Handle,
    sized: Reply,
    read: Reply,
)
    requires
        !has_nul(path),
        create_file_run(archive, path, data, flags, file_time, compression, written).end is Ok,
        create_file_run(archive, path, data, flags, file_time, compression, written).calls[1]
            matches CallView::WriteFile { data: given, .. } && {
            &&& tells_size(sized, given.len())
            &&& read.success
            &&& read.data@ == given
            &&& read.count == given.len()
        },
    ensures
        read_all_run(file, FileState { size: None, need_reset: false }, seq![sized, read]).end.1
            == Ok::<Seq<u8>, StormError>(data),
{
    law_create_file_hands_the_data_on(archive, path, data, flags, file_time, compression, written);
    law_read_whole(file, data, sized, read);
}

} // verus!
