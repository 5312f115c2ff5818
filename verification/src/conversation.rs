//! Conversations with the engine: what was asked and what was answered, and
//! how an operation is held to the conversation that it is meant to have.

use crate::engine::{Call, CallView, Reply};
use vstd::prelude::*;

verus! {

/// A call together with the reply that the engine gave to it.
pub struct Exchange {
    pub call: Call,
    pub reply: Reply,
}

/// The replies of a conversation, in order.
pub open spec fn replies_of(said: Seq<Exchange>) -> Seq<Reply> {
    said.map_values(|x: Exchange| x.reply)
}

/// What an operation does when the engine answers its calls with given
/// replies: the calls it makes, in order, and what it ends with.
pub struct Run<T> {
    pub calls: Seq<CallView>,
    pub end: T,
}

/// Whether the engine can be put every call.
pub open spec fn takes_every_call<E: Fn(Call) -> Reply>(engine: E) -> bool {
    forall|call: Call| engine.requires((call,))
}

/// Whether the engine gave this reply to this call.
pub open spec fn answered<E: Fn(Call) -> Reply>(engine: E, x: Exchange) -> bool {
    engine.ensures((x.call,), x.reply)
}

/// The line to the engine. There is one way to put a call to the engine,
/// [`Line::ask`], and it writes the call and its reply into the log that it
/// is handed.
pub struct Line<E: Fn(Call) -> Reply> {
    engine: E,
}

impl<E: Fn(Call) -> Reply> Line<E> {
    #[verifier::type_invariant]
    spec fn engine_takes_every_call(self) -> bool {
        takes_every_call(self.engine)
    }

    /// The engine at the end of the line.
    pub closed spec fn engine(&self) -> E {
        self.engine
    }

    /// A line to this engine.
    pub fn new(engine: E) -> (line: Self)
        requires
            takes_every_call(engine),
        ensures
            line.engine() == engine,
    {
        Line { engine }
    }

    /// Puts one call to the engine and notes it, with the reply, at the end
    /// of `log`.
    pub fn ask(&self, call: Call, log: &mut Ghost<Seq<Exchange>>) -> (reply: Reply)
        ensures
            final(log)@ == old(log)@.push(Exchange { call, reply }),
            answered(self.engine(), Exchange { call, reply }),
    {
        proof {
            use_type_invariant(self);
        }
        let ghost asked = call;
        let reply = (self.engine)(call);
        proof {
            log@ = log@.push(Exchange { call: asked, reply });
        }
        reply
    }
}

/// Whether a conversation with the engine is the one that `run` describes:
/// the calls are those of `run`, in order, and each reply is one that the
/// engine gave to its call.
pub open spec fn carried_out<E: Fn(Call) -> Reply, T>(
    engine: E,
    said: Seq<Exchange>,
    run: Run<T>,
) -> bool {
    &&& said.len() == run.calls.len()
    &&& forall|i: int|
        #![trigger said[i]]
        #![trigger replies_of(said)[i]]
        0 <= i < said.len() ==> {
            &&& said[i].call@ == run.calls[i]
            &&& replies_of(said)[i] == said[i].reply
            &&& answered(engine, said[i])
        }
}

/// Whether the conversation `after` is the conversation `before` with more
/// at its end.
pub open spec fn extends(after: Seq<Exchange>, before: Seq<Exchange>) -> bool {
    &&& before.len() <= after.len()
    &&& after.take(before.len() as int) =~= before
}

/// What was said in `after` that was not yet said in `before`.
pub open spec fn said_since(after: Seq<Exchange>, before: Seq<Exchange>) -> Seq<Exchange> {
    after.skip(before.len() as int)
}

/// Whether what took the conversation from `before` to `after` is the
/// operation that `run` describes.
pub open spec fn performed<E: Fn(Call) -> Reply, T>(
    engine: E,
    before: Seq<Exchange>,
    after: Seq<Exchange>,
    run: spec_fn(Seq<Reply>) -> Run<T>,
) -> bool {
    &&& extends(after, before)
    &&& carried_out(engine, said_since(after, before), run(replies_of(said_since(after, before))))
}

/// What the operation that `run` describes ended with, given the
/// conversation before and after it.
pub open spec fn end_of<T>(
    before: Seq<Exchange>,
    after: Seq<Exchange>,
    run: spec_fn(Seq<Reply>) -> Run<T>,
) -> T {
    run(replies_of(said_since(after, before))).end
}

/// Whether what took the conversation from `before` to `after` is the
/// operation that `run` describes, and `end` is what it ended with.
pub open spec fn ended<E: Fn(Call) -> Reply, T>(
    engine: E,
    before: Seq<Exchange>,
    after: Seq<Exchange>,
    run: spec_fn(Seq<Reply>) -> Run<T>,
    end: T,
) -> bool {
    &&& performed(engine, before, after, run)
    &&& end == end_of(before, after, run)
}

/// What was said from `before` to `after` is what was said up to `mid` and
/// then what was said after it.
pub proof fn lemma_said_joined(before: Seq<Exchange>, mid: Seq<Exchange>, after: Seq<Exchange>)
    requires
        extends(mid, before),
        extends(after, mid),
    ensures
        extends(after, before),
        said_since(after, before) =~= said_since(mid, before) + said_since(after, mid),
        replies_of(said_since(after, before)) =~= replies_of(said_since(mid, before)) + replies_of(
            said_since(after, mid),
        ),
{
    assert(after.take(before.len() as int) =~= mid.take(before.len() as int)) by {
        assert(after.take(mid.len() as int) =~= mid);
        assert forall|i: int| 0 <= i < before.len() implies after[i] == mid[i] by {
            assert(after.take(mid.len() as int)[i] == mid[i]);
        }
    }
    assert forall|i: int| 0 <= i < mid.len() - before.len() implies said_since(after, before)[i]
        == said_since(mid, before)[i] by {
        assert(after.take(mid.len() as int)[i + before.len()] == mid[i + before.len()]);
    }
}

} // verus!
