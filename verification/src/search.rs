//! A search through the directory of an archive.

use crate::archive::Archive;
use crate::conversation::{answered, carried_out, ended, Exchange, Run};
use crate::engine::{Call, CallView, DirectoryEntry, Handle, Reply};
use vstd::prelude::*;

verus! {

/// How far a search has come.
pub struct SearchState {
    /// The engine's handle of the enumeration, once it has begun.
    pub find: Option<Handle>,
    /// Whether the search has come to its end.
    pub exhausted: bool,
}

/// One step of a search. A search that has come to its end stays there, and
/// the engine is not asked again. Otherwise the first step asks the engine
/// for the first entry that matches the mask, and keeps the handle of the
/// enumeration where there is one; each later step asks for the next entry.
/// A step that finds no entry ends the search.
pub open spec fn next_run(archive: Handle, mask: Seq<u8>, state: SearchState, replies: Seq<Reply>) -> Run<
    (SearchState, Option<DirectoryEntry>),
> {
    if state.exhausted {
        Run { calls: seq![], end: (state, None) }
    } else {
        match state.find {
            Some(find) => Run {
                calls: seq![CallView::FindNextFile { find }],
                end: match replies[0].spec_next() {
                    Some(entry) => (state, Some(entry)),
                    None => (SearchState { find: state.find, exhausted: true }, None),
                },
            },
            None => Run {
                calls: seq![CallView::FindFirstFile { archive, mask }],
                end: match replies[0].spec_first() {
                    Some((find, entry)) => (
                        SearchState { find: Some(find), exhausted: false },
                        Some(entry),
                    ),
                    None => (SearchState { find: None, exhausted: true }, None),
                },
            },
        }
    }
}

/// Ending a search: one call where an enumeration has begun, none where it
/// has not.
pub open spec fn close_run(state: SearchState) -> Run<()> {
    match state.find {
        Some(find) => Run { calls: seq![CallView::FindClose { find }], end: () },
        None => Run { calls: seq![], end: () },
    }
}

/// A search through the directory of an archive: the entries whose names
/// match a mask, one at a time. It borrows the archive, so it cannot outlive
/// it. A search cannot be started again: make a new one.
pub struct Search<'a, E: Fn(Call) -> Reply> {
    archive: &'a Archive<E>,
    mask: Vec<u8>,
    find_handle: Option<Handle>,
    exhausted: bool,
    log: Ghost<Seq<Exchange>>,
}

impl<'a, E: Fn(Call) -> Reply> Search<'a, E> {
    /// The archive that is searched.
    pub closed spec fn archive(&self) -> Archive<E> {
        *self.archive
    }

    /// The mask that names have to match, as a zero-terminated byte string.
    pub closed spec fn mask(&self) -> Seq<u8> {
        self.mask@
    }

    /// How far the search has come.
    pub closed spec fn state(&self) -> SearchState {
        SearchState { find: self.find_handle, exhausted: self.exhausted }
    }

    /// The engine's handle of the enumeration, once it has begun.
    pub fn find_handle(&self) -> (find: Option<Handle>)
        ensures
            find == self.state().find,
    {
        self.find_handle
    }

    /// Every call that was made through this value, with its reply, oldest
    /// first.
    pub closed spec fn log(&self) -> Seq<Exchange> {
        self.log@
    }

    /// Whether `self` is the search `before`, some calls later.
    pub open spec fn same_search(&self, before: &Self) -> bool {
        &&& self.archive() == before.archive()
        &&& self.mask() == before.mask()
    }

    /// A search that has not begun.
    pub(crate) fn new(archive: &'a Archive<E>, mask: Vec<u8>) -> (search: Self)
        ensures
            search.archive() == *archive,
            search.mask() == mask@,
            search.state() == (SearchState { find: None, exhausted: false }),
            search.log() == Seq::<Exchange>::empty(),
    {
        Search { archive, mask, find_handle: None, exhausted: false, log: Ghost(Seq::empty()) }
    }

    /// Puts one call to the engine and notes it.
    fn ask(&mut self, call: Call) -> (reply: Reply)
        ensures
            final(self).same_search(old(self)),
            final(self).state() == old(self).state(),
            final(self).log() == old(self).log().push(Exchange { call, reply }),
            answered(old(self).archive().engine(), Exchange { call, reply }),
    {
        self.archive.line().ask(call, &mut self.log)
    }

    /// The next entry that matches, or `None` where there is none left.
    pub fn next(&mut self) -> (r: Option<DirectoryEntry>)
        ensures
            final(self).same_search(old(self)),
            ended(
                old(self).archive().engine(),
                old(self).log(),
                final(self).log(),
                |replies: Seq<Reply>|
                    next_run(
                        old(self).archive().handle(),
                        old(self).mask(),
                        old(self).state(),
                        replies,
                    ),
                (final(self).state(), r),
            ),
    {
        if self.exhausted {
            return None;
        }
        match self.find_handle {
            Some(find) => {
                let reply = self.ask(Call::FindNextFile { find });
                match reply.next() {
                    Some(entry) => Some(entry),
                    None => {
                        self.exhausted = true;
                        None
                    },
                }
            },
            None => {
                let mask = self.mask.clone();
                let archive = self.archive.handle();
                let reply = self.ask(Call::FindFirstFile { archive, mask });
                match reply.first() {
                    Some((find, entry)) => {
                        self.find_handle = Some(find);
                        Some(entry)
                    },
                    None => {
                        self.exhausted = true;
                        None
                    },
                }
            },
        }
    }

    /// Ends the search: where the enumeration has begun, the engine is told
    /// to release its handle; where it has not, the engine is not asked. The
    /// value is used up, so a search is ended once at most. What was said to
    /// the engine comes back as a ghost value.
    pub fn close(self) -> (said: Ghost<Seq<Exchange>>)
        ensures
            carried_out(self.archive().engine(), said@, close_run(self.state())),
    {
        let mut said: Ghost<Seq<Exchange>> = Ghost(Seq::empty());
        if let Some(find) = self.find_handle {
            self.archive.line().ask(Call::FindClose { find }, &mut said);
        }
        said
    }
}

/// A search in which the engine finds one entry and no second one yields
/// that entry, then nothing: the first step asks for the first entry and
/// hands it out, the second asks for the next and ends the search.
pub proof fn law_one_match(archive: Handle, mask: Seq<u8>, first: Reply, second: Reply)
    requires
        !first.handle.is_null(),
        !second.success,
    ensures
        ({
            let fresh = SearchState { find: None, exhausted: false };
            let one = next_run(archive, mask, fresh, seq![first]);
            let two = next_run(archive, mask, one.end.0, seq![second]);
            &&& one.calls == seq![CallView::FindFirstFile { archive, mask }]
            &&& one.end.1 == Some(first.entry)
            &&& two.calls == seq![CallView::FindNextFile { find: first.handle }]
            &&& two.end.1 == None::<DirectoryEntry>
            &&& two.end.0 == (SearchState { find: Some(first.handle), exhausted: true })
        }),
{
}

/// A search in which the engine finds no entry is at its end after the
/// first step, and no enumeration is left to release.
pub proof fn law_no_match(archive: Handle, mask: Seq<u8>, first: Reply)
    requires
        first.handle.is_null(),
    ensures
        ({
            let fresh = SearchState { find: None, exhausted: false };
            let one = next_run(archive, mask, fresh, seq![first]);
            &&& one.calls == seq![CallView::FindFirstFile { archive, mask }]
            &&& one.end == (SearchState { find: None, exhausted: true }, None::<DirectoryEntry>)
        }),
{
}

/// A search that has come to its end stays there: every further step yields
/// nothing, asks the engine nothing and keeps the handle of the enumeration
/// for its release.
pub proof fn law_exhausted_stays(archive: Handle, mask: Seq<u8>, state: SearchState, replies: Seq<Reply>)
    requires
        state.exhausted,
    ensures
        next_run(archive, mask, state, replies).calls.len() == 0,
        next_run(archive, mask, state, replies).end == (state, None::<DirectoryEntry>),
{
}

/// A step of a search yields nothing exactly when it leaves the search at
/// its end, and it never lets go of the handle of the enumeration.
pub proof fn law_nothing_means_the_end(
    archive: Handle,
    mask: Seq<u8>,
    state: SearchState,
    replies: Seq<Reply>,
)
    ensures
        next_run(archive, mask, state, replies).end.1 is None <==> next_run(
            archive,
            mask,
            state,
            replies,
        ).end.0.exhausted,
        state.find is Some ==> next_run(archive, mask, state, replies).end.0.find == state.find,
{
}

} // verus!
