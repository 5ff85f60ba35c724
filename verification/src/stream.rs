//! The stream adapter: one shape for every asynchronous source.
//!
//! A source is either a computation that resolves once or a sequence that
//! delivers many values. The application polls it; what the poll returned is
//! handed to the adapter, which answers with what the adapted sequence yields.
//! The adapter holds no items and queues nothing.

use futures::{Async, Poll};
use vstd::prelude::*;

verus! {

/// The `Async` of the futures crate, with its two variants: a value that is
/// ready, or the notice that it is not ready yet.
#[verifier::external_type_specification]
#[verifier::reject_recursive_types(T)]
pub struct ExAsync<T>(Async<T>);

/// What one poll of a one-shot computation means once the computation is
/// seen as a sequence: its value is the one item, its failure stays a failure,
/// and "not ready" stays "not ready".
pub open spec fn lifted<I, E>(polled: Poll<I, E>) -> Poll<Option<I>, E> {
    match polled {
        Ok(Async::Ready(value)) => Ok(Async::Ready(Some(value))),
        Ok(Async::NotReady) => Ok(Async::NotReady),
        Err(error) => Err(error),
    }
}

/// The items that a run of polls of a sequence delivers: each ready item, in
/// order, up to the first poll that reports the end or a failure.
pub open spec fn yielded<I, E>(polls: Seq<Poll<Option<I>, E>>) -> Seq<I>
    decreases polls.len(),
{
    if polls.len() == 0 {
        Seq::empty()
    } else {
        match polls[0] {
            Ok(Async::Ready(Some(item))) => seq![item] + yielded(polls.skip(1)),
            Ok(Async::NotReady) => yielded(polls.skip(1)),
            Ok(Async::Ready(None)) => Seq::empty(),
            Err(_) => Seq::empty(),
        }
    }
}

/// Marks a source as a computation that resolves once.
pub struct OneShot;

/// Marks a source as a sequence that delivers many values.
pub struct Sequence;

/// Adapter state over a sequence: there is nothing to remember.
pub struct Direct;

/// Adapter state over a one-shot computation: whether its result, value or
/// failure, has been passed on.
pub struct Once {
    pub done: bool,
}

/// The uniform sequence that every source is turned into. `S` is the state
/// the adapter keeps for the shape of the source.
pub struct RelmStream<S> {
    pub stream: S,
}

/// Sources that can be seen as a sequence.
pub trait ToStream<S>: Sized {
    /// The adapter a source of this shape starts with.
    spec fn adapter(self) -> RelmStream<S>;

    /// Wraps the source: the result is the adapter in its first state.
    fn to_stream(self) -> (adapted: RelmStream<S>)
        ensures
            adapted == self.adapter(),
    ;
}

impl ToStream<Direct> for Sequence {
    open spec fn adapter(self) -> RelmStream<Direct> {
        RelmStream::<Direct>::passing()
    }

    fn to_stream(self) -> (adapted: RelmStream<Direct>) {
        RelmStream { stream: Direct }
    }
}

impl ToStream<Once> for OneShot {
    open spec fn adapter(self) -> RelmStream<Once> {
        RelmStream::<Once>::fresh()
    }

    fn to_stream(self) -> (adapted: RelmStream<Once>) {
        RelmStream { stream: Once { done: false } }
    }
}

impl RelmStream<Direct> {
    /// The adapter over a sequence; there is only one.
    pub open spec fn passing() -> RelmStream<Direct> {
        RelmStream { stream: Direct }
    }

    /// Hands on what the sequence's poll returned, unchanged.
    pub fn poll<I, E>(&mut self, polled: Poll<Option<I>, E>) -> (out: Poll<Option<I>, E>)
        ensures
            out == polled,
            *final(self) == *old(self),
    {
        polled
    }
}

impl RelmStream<Once> {
    /// The adapter over a computation that has not resolved yet.
    pub open spec fn fresh() -> RelmStream<Once> {
        RelmStream { stream: Once { done: false } }
    }

    /// Whether the computation's result has been passed on.
    pub open spec fn ended(&self) -> bool {
        self.stream.done
    }

    /// Whether the computation's result has been passed on. From then on the
    /// computation must not be polled again.
    pub fn is_ended(&self) -> (ended: bool)
        ensures
            ended == self.ended(),
    {
        self.stream.done
    }

    /// Answers one poll of the adapted sequence. `polled` is what the
    /// computation's poll returned; once the adapter has ended it is ignored
    /// and the sequence reports its end.
    pub fn poll<I, E>(&mut self, polled: Poll<I, E>) -> (out: Poll<Option<I>, E>)
        ensures
            out == once_step(old(self).ended(), polled).0,
            final(self).ended() == once_step(old(self).ended(), polled).1,
    {
        if self.stream.done {
            return Ok(Async::Ready(None));
        }
        match polled {
            Ok(Async::NotReady) => Ok(Async::NotReady),
            Ok(Async::Ready(value)) => {
                self.stream.done = true;
                Ok(Async::Ready(Some(value)))
            },
            Err(error) => {
                self.stream.done = true;
                Err(error)
            },
        }
    }
}

/// One poll of the sequence made from a one-shot computation: what it yields
/// and whether the adapter has ended afterwards.
pub open spec fn once_step<I, E>(ended: bool, polled: Poll<I, E>) -> (Poll<Option<I>, E>, bool) {
    if ended {
        (Ok(Async::Ready(None)), true)
    } else {
        (lifted(polled), !(polled matches Ok(Async::NotReady)))
    }
}

/// A run of polls of the sequence made from a one-shot computation.
pub open spec fn once_run<I, E>(ended: bool, polls: Seq<Poll<I, E>>) -> Seq<Poll<Option<I>, E>>
    decreases polls.len(),
{
    if polls.len() == 0 {
        Seq::empty()
    } else {
        let (out, next) = once_step(ended, polls[0]);
        seq![out] + once_run(next, polls.skip(1))
    }
}

/// The polls of a sequence that delivers `items` in order and then ends.
pub open spec fn delivering<I, E>(items: Seq<I>) -> Seq<Poll<Option<I>, E>> {
    Seq::new(items.len(), |k: int| Ok::<Async<Option<I>>, E>(Async::Ready(Some(items[k])))).push(
        Ok(Async::Ready(None)),
    )
}

/// Once the adapter over a one-shot computation has ended, every later poll
/// reports the end of the sequence.
pub proof fn once_stays_ended<I, E>(polls: Seq<Poll<I, E>>)
    ensures
        once_run(true, polls).len() == polls.len(),
        forall|k: int|
            0 <= k < polls.len() ==> #[trigger] once_run(true, polls)[k] == Ok::<
                Async<Option<I>>,
                E,
            >(Async::Ready(None)),
    decreases polls.len(),
{
    if polls.len() > 0 {
        once_stays_ended(polls.skip(1));
        let rest = once_run(true, polls.skip(1));
        assert forall|k: int| 0 <= k < polls.len() implies #[trigger] once_run(true, polls)[k]
            == Ok::<Async<Option<I>>, E>(Async::Ready(None)) by {
            if k > 0 {
                assert(once_run(true, polls)[k] == rest[k - 1]);
            }
        }
    }
}

/// A computation that is not ready for `waits` polls and then resolves to
/// `value` becomes a sequence that is not ready for as many polls, then
/// yields `value`, and reports its end at every poll after that, whatever the
/// computation would answer then. The items it delivers are `value` alone.
pub proof fn single_result_adaptation<I, E>(waits: nat, value: I, later: Seq<Poll<I, E>>)
    ensures
        ({
            let polls = Seq::new(waits, |k: int| Ok::<Async<I>, E>(Async::NotReady)).push(
                Ok(Async::Ready(value)),
            ) + later;
            let outs = once_run(false, polls);
            &&& outs.len() == polls.len()
            &&& forall|k: int| 0 <= k < waits ==> #[trigger] outs[k] == Ok::<Async<Option<I>>, E>(Async::NotReady)
            &&& outs[waits as int] == Ok::<Async<Option<I>>, E>(Async::Ready(Some(value)))
            &&& forall|k: int|
                waits < k < polls.len() ==> #[trigger] outs[k] == Ok::<Async<Option<I>>, E>(
                    Async::Ready(None),
                )
            &&& yielded(outs) == seq![value]
        }),
    decreases waits,
{
    let polls = Seq::new(waits, |k: int| Ok::<Async<I>, E>(Async::NotReady)).push(
        Ok(Async::Ready(value)),
    ) + later;
    let outs = once_run(false, polls);
    let tail = once_run::<I, E>(if waits == 0 { true } else { false }, polls.skip(1));
    assert(outs == seq![once_step(false, polls[0]).0] + tail);
    if waits == 0 {
        assert(polls.skip(1) == later);
        once_stays_ended(later);
        assert forall|k: int| 0 < k < polls.len() implies #[trigger] outs[k] == Ok::<
            Async<Option<I>>,
            E,
        >(Async::Ready(None)) by {
            assert(outs[k] == tail[k - 1]);
        }
        assert(outs.skip(1) == tail);
        if later.len() > 0 {
            assert(tail[0] == Ok::<Async<Option<I>>, E>(Async::Ready(None)));
        }
        assert(yielded(tail) == Seq::<I>::empty());
        assert(yielded(outs) == seq![value] + yielded(outs.skip(1)));
    } else {
        let shorter = Seq::new((waits - 1) as nat, |k: int| Ok::<Async<I>, E>(Async::NotReady)).push(
            Ok(Async::Ready(value)),
        ) + later;
        assert(polls.skip(1) == shorter);
        single_result_adaptation((waits - 1) as nat, value, later);
        assert forall|k: int| 0 <= k < polls.len() implies outs[k] == (if k == 0 {
            Ok::<Async<Option<I>>, E>(Async::NotReady)
        } else {
            tail[k - 1]
        }) by {}
        assert(outs.skip(1) == tail);
        assert(yielded(outs) == yielded(outs.skip(1)));
    }
}

/// A sequence that delivers `items` and then ends yields exactly `items`, in
/// the same order, through the adapter, which hands every poll on unchanged:
/// nothing is added, dropped or moved, whether there are no items, one or
/// many.
pub proof fn multi_result_passthrough<I, E>(items: Seq<I>)
    ensures
        yielded(delivering::<I, E>(items)) == items,
    decreases items.len(),
{
    let polls = delivering::<I, E>(items);
    if items.len() == 0 {
        assert(polls[0] == Ok::<Async<Option<I>>, E>(Async::Ready(None)));
        assert(yielded(polls) == Seq::<I>::empty());
        assert(items == Seq::<I>::empty());
    } else {
        assert(polls[0] == Ok::<Async<Option<I>>, E>(Async::Ready(Some(items[0]))));
        assert(polls.skip(1) == delivering::<I, E>(items.skip(1)));
        multi_result_passthrough::<I, E>(items.skip(1));
        assert(seq![items[0]] + items.skip(1) == items);
    }
}

} // verus!
