//! Pipelines: each binds one asynchronous source to a message bus, turning
//! the items the source yields into messages. The driver polls the source and
//! puts the messages on the bus; what to do after each poll is decided here.

use crate::stream::{once_run, once_step, single_result_adaptation, yielded, Direct, Once, RelmStream};
use futures::{Async, Poll};
use vstd::prelude::*;

verus! {

/// What a pipeline asks of its driver after one poll of its source.
pub enum Flow<M> {
    /// The source yielded an item: put this message on the bus, then poll
    /// again.
    Emit(M),
    /// The source is not ready: suspend until it wakes the pipeline.
    Pending,
    /// The pipeline is complete.
    Finished,
    /// The source failed and the pipeline is complete. The failure itself is
    /// dropped: it reaches neither the widget nor the bus.
    Failed,
}

/// One pipeline from an asynchronous source to a message bus: the adapter over
/// the source, the mapping from items to messages, and the pipeline's own
/// handle to the bus. Pipelines share nothing with each other.
pub struct Connection<C, A, S> {
    stream: RelmStream<A>,
    callback: C,
    bus: S,
    closed: bool,
}

/// One step of a pipeline whose mapping is `callback`: `closed` says whether
/// the pipeline was complete when its adapted source answered `adapted`, and
/// `flow` is what may be asked of the driver.
pub open spec fn flowed<C: Fn(I) -> M, I, E, M>(
    callback: C,
    closed: bool,
    adapted: Poll<Option<I>, E>,
    flow: Flow<M>,
) -> bool {
    if closed {
        flow is Finished
    } else {
        match adapted {
            Ok(Async::Ready(Some(item))) => {
                &&& flow matches Flow::Emit(message)
                &&& call_ensures(callback, (item,), message)
            },
            Ok(Async::NotReady) => flow is Pending,
            Ok(Async::Ready(None)) => flow is Finished,
            Err(_) => flow is Failed,
        }
    }
}

/// Whether a pipeline is complete after the step that `flowed` describes.
pub open spec fn closes<I, E>(closed: bool, adapted: Poll<Option<I>, E>) -> bool {
    closed || adapted is Err || adapted == Ok::<Async<Option<I>>, E>(Async::Ready(None))
}

/// One step of a pipeline whose mapping computes `mapping`: what is asked of
/// the driver, and whether the pipeline is complete afterwards.
pub open spec fn flow_step<I, E, M>(
    mapping: spec_fn(I) -> M,
    closed: bool,
    adapted: Poll<Option<I>, E>,
) -> (Flow<M>, bool) {
    if closed {
        (Flow::Finished, true)
    } else {
        match adapted {
            Ok(Async::Ready(Some(item))) => (Flow::Emit(mapping(item)), false),
            Ok(Async::NotReady) => (Flow::Pending, false),
            Ok(Async::Ready(None)) => (Flow::Finished, true),
            Err(_) => (Flow::Failed, true),
        }
    }
}

/// What a pipeline asks of its driver, poll by poll, over a run of polls of
/// its adapted source.
pub open spec fn flow_run<I, E, M>(
    mapping: spec_fn(I) -> M,
    closed: bool,
    polls: Seq<Poll<Option<I>, E>>,
) -> Seq<Flow<M>>
    decreases polls.len(),
{
    if polls.len() == 0 {
        Seq::empty()
    } else {
        let (flow, next) = flow_step(mapping, closed, polls[0]);
        seq![flow] + flow_run(mapping, next, polls.skip(1))
    }
}

/// The messages that a run of requests puts on the bus, in order.
pub open spec fn emitted<M>(flows: Seq<Flow<M>>) -> Seq<M>
    decreases flows.len(),
{
    if flows.len() == 0 {
        Seq::empty()
    } else {
        match flows[0] {
            Flow::Emit(message) => seq![message] + emitted(flows.skip(1)),
            _ => emitted(flows.skip(1)),
        }
    }
}

/// Where the mapping of a pipeline computes `mapping`, each step of the
/// pipeline asks exactly what `flow_step` says.
pub proof fn flow_is_determined<C: Fn(I) -> M, I, E, M>(
    callback: C,
    mapping: spec_fn(I) -> M,
    closed: bool,
    adapted: Poll<Option<I>, E>,
    flow: Flow<M>,
)
    requires
        forall|item: I, message: M|
            call_ensures(callback, (item,), message) ==> message == mapping(item),
        flowed(callback, closed, adapted, flow),
    ensures
        flow == flow_step(mapping, closed, adapted).0,
        closes(closed, adapted) == flow_step(mapping, closed, adapted).1,
{
}

/// A complete pipeline answers `Finished` to every poll and puts nothing on
/// the bus.
pub proof fn closed_pipeline_is_silent<I, E, M>(
    mapping: spec_fn(I) -> M,
    polls: Seq<Poll<Option<I>, E>>,
)
    ensures
        flow_run(mapping, true, polls).len() == polls.len(),
        forall|k: int|
            0 <= k < polls.len() ==> #[trigger] flow_run(mapping, true, polls)[k] == Flow::<
                M,
            >::Finished,
        emitted(flow_run(mapping, true, polls)) == Seq::<M>::empty(),
    decreases polls.len(),
{
    if polls.len() > 0 {
        closed_pipeline_is_silent(mapping, polls.skip(1));
        let flows = flow_run(mapping, true, polls);
        let rest = flow_run(mapping, true, polls.skip(1));
        assert(flows.skip(1) == rest);
        assert forall|k: int| 0 <= k < polls.len() implies #[trigger] flows[k] == Flow::<
            M,
        >::Finished by {
            if k > 0 {
                assert(flows[k] == rest[k - 1]);
            }
        }
    }
}

/// Over any run of polls, the messages a pipeline puts on the bus are the
/// images under its mapping of the items its source yields before it ends or
/// fails: as many, and in the same order.
pub proof fn messages_follow_items<I, E, M>(
    mapping: spec_fn(I) -> M,
    polls: Seq<Poll<Option<I>, E>>,
)
    ensures
        flow_run(mapping, false, polls).len() == polls.len(),
        emitted(flow_run(mapping, false, polls)) == yielded(polls).map_values(mapping),
    decreases polls.len(),
{
    let flows = flow_run(mapping, false, polls);
    if polls.len() == 0 {
        assert(yielded(polls).map_values(mapping) == Seq::<M>::empty());
    } else {
        let (flow, next) = flow_step(mapping, false, polls[0]);
        let rest = flow_run(mapping, next, polls.skip(1));
        assert(flows.skip(1) == rest);
        if next {
            closed_pipeline_is_silent(mapping, polls.skip(1));
            assert(yielded(polls) == Seq::<I>::empty());
            assert(yielded(polls).map_values(mapping) == Seq::<M>::empty());
        } else {
            messages_follow_items(mapping, polls.skip(1));
            match polls[0] {
                Ok(Async::Ready(Some(item))) => {
                    let tail = yielded(polls.skip(1));
                    assert(yielded(polls) == seq![item] + tail);
                    assert((seq![item] + tail).map_values(mapping) == seq![mapping(item)]
                        + tail.map_values(mapping));
                },
                _ => {},
            }
        }
    }
}

/// A source that yields `items` and then fails has its pipeline put exactly
/// their images on the bus, one per item and in order, answer `Failed` once,
/// and stay silent from then on, whatever the source would still answer. The
/// failure is not handed on, and nothing the pipeline asks for closes the bus.
pub proof fn error_swallowing<I, E, M>(
    mapping: spec_fn(I) -> M,
    items: Seq<I>,
    error: E,
    later: Seq<Poll<Option<I>, E>>,
)
    ensures
        ({
            let polls = Seq::new(
                items.len(),
                |k: int| Ok::<Async<Option<I>>, E>(Async::Ready(Some(items[k]))),
            ).push(Err(error)) + later;
            let flows = flow_run(mapping, false, polls);
            &&& flows.len() == polls.len()
            &&& forall|k: int|
                0 <= k < items.len() ==> #[trigger] flows[k] == Flow::Emit(mapping(items[k]))
            &&& flows[items.len() as int] == Flow::<M>::Failed
            &&& forall|k: int| items.len() < k < polls.len() ==> #[trigger] flows[k] == Flow::<M>::Finished
            &&& emitted(flows) == items.map_values(mapping)
        }),
    decreases items.len(),
{
    let polls = Seq::new(
        items.len(),
        |k: int| Ok::<Async<Option<I>>, E>(Async::Ready(Some(items[k]))),
    ).push(Err(error)) + later;
    let flows = flow_run(mapping, false, polls);
    let (flow, next) = flow_step(mapping, false, polls[0]);
    let rest = flow_run(mapping, next, polls.skip(1));
    assert(flows == seq![flow] + rest);
    assert(flows.skip(1) == rest);
    if items.len() == 0 {
        assert(polls.skip(1) == later);
        closed_pipeline_is_silent(mapping, later);
        assert forall|k: int| 0 < k < polls.len() implies #[trigger] flows[k] == Flow::<
            M,
        >::Finished by {
            assert(flows[k] == rest[k - 1]);
        }
        assert(items.map_values(mapping) == Seq::<M>::empty());
    } else {
        let fewer = items.skip(1);
        let shorter = Seq::new(
            fewer.len(),
            |k: int| Ok::<Async<Option<I>>, E>(Async::Ready(Some(fewer[k]))),
        ).push(Err(error)) + later;
        assert(polls.skip(1) == shorter);
        error_swallowing(mapping, fewer, error, later);
        assert forall|k: int| 0 <= k < items.len() implies #[trigger] flows[k] == Flow::Emit(
            mapping(items[k]),
        ) by {
            if k > 0 {
                assert(flows[k] == rest[k - 1]);
                assert(fewer[k - 1] == items[k]);
            }
        }
        assert(flows[items.len() as int] == rest[items.len() - 1]);
        assert forall|k: int| items.len() < k < polls.len() implies #[trigger] flows[k]
            == Flow::<M>::Finished by {
            assert(flows[k] == rest[k - 1]);
        }
        assert(items.map_values(mapping) == seq![mapping(items[0])] + fewer.map_values(mapping));
    }
}

/// A pipeline over a one-shot computation that resolves to `value` puts one
/// message on the bus, the image of `value`, however long the computation
/// was not ready before and whatever it would answer afterwards.
pub proof fn one_shot_emits_once<I, E, M>(
    mapping: spec_fn(I) -> M,
    waits: nat,
    value: I,
    later: Seq<Poll<I, E>>,
)
    ensures
        ({
            let polls = Seq::new(waits, |k: int| Ok::<Async<I>, E>(Async::NotReady)).push(
                Ok(Async::Ready(value)),
            ) + later;
            emitted(flow_run(mapping, false, once_run(false, polls))) == seq![mapping(value)]
        }),
{
    let polls = Seq::new(waits, |k: int| Ok::<Async<I>, E>(Async::NotReady)).push(
        Ok(Async::Ready(value)),
    ) + later;
    single_result_adaptation(waits, value, later);
    messages_follow_items(mapping, once_run(false, polls));
    assert(seq![value].map_values(mapping) == seq![mapping(value)]);
}

impl<C, A, S> Connection<C, A, S> {
    /// A pipeline that has not run yet, from the adapter over its source, its
    /// mapping and its handle to the bus.
    pub fn new(stream: RelmStream<A>, callback: C, bus: S) -> (connection: Self)
        ensures
            connection.adapter() == stream,
            connection.mapping() == callback,
            connection.target() == bus,
            !connection.closed(),
    {
        Connection { stream, callback, bus, closed: false }
    }

    /// The adapter over the pipeline's source.
    pub closed spec fn adapter(&self) -> RelmStream<A> {
        self.stream
    }

    /// The mapping from items to messages.
    pub closed spec fn mapping(&self) -> C {
        self.callback
    }

    /// The pipeline's handle to the bus.
    pub closed spec fn target(&self) -> S {
        self.bus
    }

    /// Whether the pipeline is complete.
    pub closed spec fn closed(&self) -> bool {
        self.closed
    }

    /// The handle to the bus on which the driver puts the messages.
    pub fn bus(&self) -> (bus: &S)
        ensures
            *bus == self.target(),
    {
        &self.bus
    }

    /// Whether the pipeline is complete. A complete pipeline asks for nothing
    /// more, and its source is not polled again.
    pub fn is_closed(&self) -> (closed: bool)
        ensures
            closed == self.closed(),
    {
        self.closed
    }

    fn advance<I, E, M>(&mut self, adapted: Poll<Option<I>, E>) -> (flow: Flow<M>) where
        C: Fn(I) -> M,

        requires
            !old(self).closed(),
            adapted matches Ok(Async::Ready(Some(item))) ==> call_requires(
                old(self).mapping(),
                (item,),
            ),
        ensures
            flowed(old(self).mapping(), false, adapted, flow),
            final(self).closed() == closes(false, adapted),
            final(self).mapping() == old(self).mapping(),
            final(self).target() == old(self).target(),
            final(self).adapter() == old(self).adapter(),
    {
        match adapted {
            Ok(Async::Ready(Some(item))) => {
                let message = (self.callback)(item);
                Flow::Emit(message)
            },
            Ok(Async::NotReady) => Flow::Pending,
            Ok(Async::Ready(None)) => {
                self.closed = true;
                Flow::Finished
            },
            Err(_) => {
                self.closed = true;
                Flow::Failed
            },
        }
    }
}

impl<C, S> Connection<C, Direct, S> {
    /// One step of a pipeline over a sequence: `polled` is what the poll of
    /// the sequence returned. An item is mapped to a message for the bus; the
    /// end of the sequence completes the pipeline; so does a failure, which
    /// is dropped. A complete pipeline answers `Finished` to whatever comes
    /// and maps nothing.
    pub fn poll<I, E, M>(&mut self, polled: Poll<Option<I>, E>) -> (flow: Flow<M>) where
        C: Fn(I) -> M,

        requires
            polled matches Ok(Async::Ready(Some(item))) ==> call_requires(
                old(self).mapping(),
                (item,),
            ),
        ensures
            flowed(old(self).mapping(), old(self).closed(), polled, flow),
            final(self).closed() == closes(old(self).closed(), polled),
            final(self).mapping() == old(self).mapping(),
            final(self).target() == old(self).target(),
            final(self).adapter() == old(self).adapter(),
    {
        if self.closed {
            return Flow::Finished;
        }
        let adapted = self.stream.poll(polled);
        self.advance(adapted)
    }
}

impl<C, S> Connection<C, Once, S> {
    /// Whether the driver is to poll the computation before the next step.
    /// It is not once the computation's result has been taken or the pipeline
    /// is complete.
    pub fn needs_poll(&self) -> (needed: bool)
        ensures
            needed == (!self.closed() && !self.adapter().ended()),
    {
        !self.closed && !self.stream.is_ended()
    }

    /// One step of a pipeline over a one-shot computation: `polled` is what
    /// the poll of the computation returned. Its value is mapped to the one
    /// message for the bus, and the step after that completes the pipeline; a
    /// failure completes it at once and is dropped. Where `needs_poll` is
    /// false `polled` is ignored.
    pub fn poll<I, E, M>(&mut self, polled: Poll<I, E>) -> (flow: Flow<M>) where C: Fn(I) -> M
        requires
            !old(self).closed() && !old(self).adapter().ended() ==> (polled matches Ok(
                Async::Ready(item),
            ) ==> call_requires(old(self).mapping(), (item,))),
        ensures
            flowed(
                old(self).mapping(),
                old(self).closed(),
                once_step(old(self).adapter().ended(), polled).0,
                flow,
            ),
            final(self).closed() == closes(
                old(self).closed(),
                once_step(old(self).adapter().ended(), polled).0,
            ),
            final(self).mapping() == old(self).mapping(),
            final(self).target() == old(self).target(),
            final(self).adapter().ended() == (if old(self).closed() {
                old(self).adapter().ended()
            } else {
                once_step(old(self).adapter().ended(), polled).1
            }),
    {
        if self.closed {
            return Flow::Finished;
        }
        let adapted = self.stream.poll(polled);
        self.advance(adapted)
    }
}

} // verus!
