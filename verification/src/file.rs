//! A file of an archive, open for reading.

use crate::archive::Archive;
use crate::conversation::{answered, carried_out, ended, lemma_said_joined, Exchange, Run};
use crate::engine::{bytes_read, Call, CallView, Handle, Reply};
use crate::error::{ErrorCode, StormError, SFILE_INVALID_SIZE};
use vstd::prelude::*;

verus! {

/// What a file remembers between reads.
pub struct FileState {
    /// The size of the file, once the engine has told it.
    pub size: Option<u64>,
    /// Whether the file has been read from, so that the read position has to
    /// go back to the start before the next read.
    pub need_reset: bool,
}

/// Asking for the size of a file: one call where the size is not known yet,
/// none where it is. The run ends with the size that is known afterwards and
/// with the answer. A failed query leaves the size unknown.
pub open spec fn get_size_run(file: Handle, known: Option<u64>, replies: Seq<Reply>) -> Run<
    (Option<u64>, Result<u64, StormError>),
> {
    match known {
        Some(size) => Run { calls: seq![], end: (known, Ok(size)) },
        None => Run {
            calls: seq![CallView::GetFileSize { file }],
            end: match replies[0].size() {
                Ok(size) => (Some(size), Ok(size)),
                Err(e) => (None, Err(e)),
            },
        },
    }
}

/// Reading a whole file. Where the file has been read from before, the read
/// position goes back to the start first. Then the size is asked for, unless
/// it is known. A file of more bytes than the engine can be asked for in one
/// read is refused, and no read is asked. Otherwise as many bytes as the
/// size says are read. The first of these that fails ends the operation.
/// From the read on, the file counts as read from.
pub open spec fn read_all_run(file: Handle, state: FileState, replies: Seq<Reply>) -> Run<
    (FileState, Result<Seq<u8>, StormError>),
> {
    let rewind = if state.need_reset {
        seq![CallView::SetFilePointer { file, position: 0 }]
    } else {
        seq![]
    };
    let sized = get_size_run(file, state.size, replies.skip(rewind.len() as int));
    let asked = rewind + sized.calls;
    if state.need_reset && replies[0].moved() is Err {
        Run { calls: rewind, end: (state, Err(replies[0].failure())) }
    } else {
        match sized.end.1 {
            Err(e) => Run {
                calls: asked,
                end: (FileState { size: sized.end.0, need_reset: state.need_reset }, Err(e)),
            },
            Ok(size) => if size > u32::MAX {
                Run {
                    calls: asked,
                    end: (
                        FileState { size: Some(size), need_reset: state.need_reset },
                        Err(StormError::TooLarge),
                    ),
                }
            } else {
                Run {
                    calls: asked.push(CallView::ReadFile { file, to_read: size as u32 }),
                    end: (
                        FileState { size: Some(size), need_reset: true },
                        replies[asked.len() as int].spec_bytes(size),
                    ),
                }
            },
        }
    }
}

/// A file of an archive, open for reading. It borrows the archive, so it
/// cannot outlive it.
pub struct File<'a, E: Fn(Call) -> Reply> {
    archive: &'a Archive<E>,
    handle: Handle,
    size: Option<u64>,
    need_reset: bool,
    log: Ghost<Seq<Exchange>>,
}

impl<'a, E: Fn(Call) -> Reply> File<'a, E> {
    /// The archive that the file belongs to.
    pub closed spec fn archive(&self) -> Archive<E> {
        *self.archive
    }

    /// The engine's handle of the file.
    pub closed spec fn spec_handle(&self) -> Handle {
        self.handle
    }

    /// The engine's handle of the file.
    #[verifier::when_used_as_spec(spec_handle)]
    pub fn handle(&self) -> (handle: Handle)
        ensures
            handle == self.spec_handle(),
    {
        self.handle
    }

    /// What the file remembers.
    pub closed spec fn state(&self) -> FileState {
        FileState { size: self.size, need_reset: self.need_reset }
    }

    /// Every call that was made through this value, with its reply, oldest
    /// first.
    pub closed spec fn log(&self) -> Seq<Exchange> {
        self.log@
    }

    /// Whether `self` is the file `before`, some calls later.
    pub open spec fn same_file(&self, before: &Self) -> bool {
        &&& self.archive() == before.archive()
        &&& self.handle() == before.handle()
    }

    /// A file that was just opened.
    pub(crate) fn new(archive: &'a Archive<E>, handle: Handle) -> (file: Self)
        ensures
            file.archive() == *archive,
            file.handle() == handle,
            file.state() == (FileState { size: None, need_reset: false }),
            file.log() == Seq::<Exchange>::empty(),
    {
        File { archive, handle, size: None, need_reset: false, log: Ghost(Seq::empty()) }
    }

    /// Puts one call to the engine and notes it.
    fn ask(&mut self, call: Call) -> (reply: Reply)
        ensures
            final(self).same_file(old(self)),
            final(self).state() == old(self).state(),
            final(self).log() == old(self).log().push(Exchange { call, reply }),
            answered(old(self).archive().engine(), Exchange { call, reply }),
    {
        self.archive.line().ask(call, &mut self.log)
    }

    /// The size of the file. The engine is asked once; after that the size
    /// is known. A failed query can be tried again.
    pub fn get_size(&mut self) -> (r: Result<u64, StormError>)
        ensures
            final(self).same_file(old(self)),
            final(self).state().need_reset == old(self).state().need_reset,
            ended(
                old(self).archive().engine(),
                old(self).log(),
                final(self).log(),
                |replies: Seq<Reply>| get_size_run(old(self).handle(), old(self).state().size, replies),
                (final(self).state().size, r),
            ),
    {
        if let Some(size) = self.size {
            return Ok(size);
        }
        let reply = self.ask(Call::GetFileSize { file: self.handle });
        match reply.size() {
            Ok(size) => {
                self.size = Some(size);
                Ok(size)
            },
            Err(e) => Err(e),
        }
    }

    /// Reads the whole file, from its start, however often it has been read
    /// before. Where the engine reads fewer bytes than the size of the file,
    /// those are returned. A file of more than `u32::MAX` bytes cannot be
    /// asked for in one read and is refused.
    pub fn read_all(&mut self) -> (r: Result<Vec<u8>, StormError>)
        ensures
            final(self).same_file(old(self)),
            ended(
                old(self).archive().engine(),
                old(self).log(),
                final(self).log(),
                |replies: Seq<Reply>| read_all_run(old(self).handle(), old(self).state(), replies),
                (final(self).state(), bytes_read(r)),
            ),
    {
        let ghost log0 = self.log();
        if self.need_reset {
            let reply = self.ask(Call::SetFilePointer { file: self.handle, position: 0 });
            if let Err(e) = reply.moved() {
                return Err(e);
            }
        }
        let ghost log1 = self.log();
        let size = match self.get_size() {
            Ok(size) => size,
            Err(e) => {
                proof {
                    lemma_said_joined(log0, log1, self.log());
                }
                return Err(e);
            },
        };
        let ghost log2 = self.log();
        if size > 0xFFFF_FFFF {
            proof {
                lemma_said_joined(log0, log1, log2);
            }
            return Err(StormError::TooLarge);
        }
        self.need_reset = true;
        let reply = self.ask(Call::ReadFile { file: self.handle, to_read: size as u32 });
        proof {
            lemma_said_joined(log0, log1, log2);
        }
        reply.bytes(size)
    }

    /// Closes the file: the engine is told to release the handle. The value
    /// is used up, so a file is closed once at most. What was said to the
    /// engine comes back as a ghost value.
    pub fn close(self) -> (said: Ghost<Seq<Exchange>>)
        ensures
            carried_out(
                self.archive().engine(),
                said@,
                Run { calls: seq![CallView::CloseFile { file: self.handle() }], end: () },
            ),
    {
        let mut said: Ghost<Seq<Exchange>> = Ghost(Seq::empty());
        self.archive.line().ask(Call::CloseFile { file: self.handle }, &mut said);
        said
    }
}

/// Whether a reply to a size query tells this size.
pub open spec fn tells_size(reply: Reply, size: nat) -> bool {
    &&& reply.low != SFILE_INVALID_SIZE
    &&& reply.high as int * 0x1_0000_0000 + reply.low as int == size
}

/// A file that was just opened, whose size the engine tells and whose bytes
/// the engine reads in full, is read as exactly those bytes: the size is the
/// number of the bytes, and the content is the bytes, none added, dropped or
/// changed.
pub proof fn law_read_whole(file: Handle, content: Seq<u8>, sized: Reply, read: Reply)
    requires
        tells_size(sized, content.len()),
        read.success,
        read.data@ == content,
        read.count == content.len(),
    ensures
        get_size_run(file, None, seq![sized]).end.1 == Ok::<u64, StormError>(content.len() as u64),
        read_all_run(
            file,
            FileState { size: None, need_reset: false },
            seq![sized, read],
        ).calls == seq![
            CallView::GetFileSize { file },
            CallView::ReadFile { file, to_read: content.len() as u32 },
        ],
        read_all_run(file, FileState { size: None, need_reset: false }, seq![sized, read]).end.1
            == Ok::<Seq<u8>, StormError>(content),
{
    let replies = seq![sized, read];
    assert(replies.skip(0) =~= replies);
}

/// The same holds where the size is asked for first and the file read
/// after: the size query ends with the number of the bytes, and the read,
/// which then asks for no size, with the bytes.
pub proof fn law_size_then_read(file: Handle, content: Seq<u8>, sized: Reply, read: Reply)
    requires
        tells_size(sized, content.len()),
        read.success,
        read.data@ == content,
        read.count == content.len(),
    ensures
        ({
            let asked = get_size_run(file, None, seq![sized]);
            let then = read_all_run(
                file,
                FileState { size: asked.end.0, need_reset: false },
                seq![read],
            );
            &&& asked.end.1 == Ok::<u64, StormError>(content.len() as u64)
            &&& then.calls == seq![
                CallView::ReadFile { file, to_read: content.len() as u32 },
            ]
            &&& then.end.1 == Ok::<Seq<u8>, StormError>(content)
        }),
{
}

/// Where the engine reads fewer bytes than the size of the file, the read
/// ends with the bytes that were read, and with no error.
pub proof fn law_short_read(read: Reply, size: u64)
    requires
        read.success,
        read.count < size,
        read.count <= read.data@.len(),
    ensures
        read.spec_bytes(size) == Ok::<Seq<u8>, StormError>(read.data@.take(read.count as int)),
{
}

/// Reading a file twice gives the same content twice. After a read that
/// went well, the next read first sets the read position back to the start,
/// does not ask for the size again, and asks for as many bytes as the first;
/// where the engine then reads the same bytes, the read ends as the first
/// did, and leaves the file as the first did.
pub proof fn law_read_twice(
    file: Handle,
    state: FileState,
    first: Seq<Reply>,
    rewound: Reply,
    read: Reply,
)
    requires
        read_all_run(file, state, first).end.1 is Ok,
        read == first[read_all_run(file, state, first).calls.len() - 1],
        rewound.moved() is Ok,
    ensures
        ({
            let once = read_all_run(file, state, first);
            let twice = read_all_run(file, once.end.0, seq![rewound, read]);
            &&& twice.calls == seq![
                CallView::SetFilePointer { file, position: 0 },
                once.calls.last(),
            ]
            &&& twice.end == once.end
        }),
{
    let once = read_all_run(file, state, first);
    let again = seq![rewound, read];
    assert(again.skip(1) =~= seq![read]);
}

/// The size of a file, once it is known, stays what it is: no size query
/// and no read changes it, and a size query then asks the engine nothing.
pub proof fn law_known_size_stays(file: Handle, state: FileState, size: u64, replies: Seq<Reply>)
    requires
        state.size == Some(size),
    ensures
        get_size_run(file, state.size, replies).calls.len() == 0,
        get_size_run(file, state.size, replies).end == (Some(size), Ok::<u64, StormError>(size)),
        read_all_run(file, state, replies).end.0.size == Some(size),
{
}

/// A file of more bytes than the engine can be asked for in one read is not
/// read short: the read is refused, the engine is asked for no byte, and the
/// file does not count as read from on that account.
pub proof fn law_large_file_is_refused(file: Handle, state: FileState, size: u64, replies: Seq<Reply>)
    requires
        read_all_run(file, state, replies).end.0.size == Some(size),
        size > u32::MAX,
    ensures
        read_all_run(file, state, replies).end.1 is Err,
        read_all_run(file, state, replies).end.0.need_reset == state.need_reset,
        forall|i: int|
            0 <= i < read_all_run(file, state, replies).calls.len() ==> !(#[trigger] read_all_run(
                file,
                state,
                replies,
            ).calls[i] is ReadFile),
        state.size == Some(size) && !state.need_reset ==> read_all_run(file, state, replies).calls.len()
            == 0 && read_all_run(file, state, replies).end.1 == Err::<Seq<u8>, StormError>(
            StormError::TooLarge,
        ),
{
}

/// A read that goes well has asked for exactly as many bytes as the file
/// has: the last call of the run is the read, for the size of the file.
pub proof fn law_read_asks_for_the_whole_file(file: Handle, state: FileState, replies: Seq<Reply>)
    requires
        read_all_run(file, state, replies).end.1 is Ok,
    ensures
        ({
            let run = read_all_run(file, state, replies);
            &&& run.end.0.size is Some
            &&& run.end.0.size.unwrap() <= u32::MAX
            &&& run.calls.len() > 0
            &&& run.calls.last() == (CallView::ReadFile {
                file,
                to_read: run.end.0.size.unwrap() as u32,
            })
        }),
{
}

/// A size query that fails leaves the size unknown, so that the next query
/// asks the engine again.
pub proof fn law_failed_size_query_can_be_tried_again(file: Handle, failed: Reply, replies: Seq<Reply>)
    requires
        failed.low == SFILE_INVALID_SIZE,
    ensures
        get_size_run(file, None, seq![failed]).end == (
            None::<u64>,
            Err::<u64, StormError>(StormError::EngineError(ErrorCode(failed.last_error))),
        ),
        get_size_run(file, get_size_run(file, None, seq![failed]).end.0, replies).calls == seq![
            CallView::GetFileSize { file },
        ],
{
}

} // verus!
