//! Widgets: what a widget must offer, how one is brought up, and the loop
//! that feeds it its messages.

use crate::context::Relm;
use futures::{Async, Poll};
use vstd::pervasive::cloned;
use vstd::prelude::*;

verus! {

/// What every widget offers. `M` is the type of its messages.
///
/// Beside each operation stands a relation that the operation promises of its
/// result. A widget that states nothing about itself leaves them as they are:
/// they then hold of everything. A widget that is itself verified can say
/// there what its operations do, and what is proved of the framework then
/// speaks of exactly that.
pub trait Widget<M: Clone>: Sized {
    /// The toolkit's visual root of the widget.
    type Container: Clone;

    /// A unit of background work for the scheduler.
    type Task;

    /// The handle to the scheduler that the widget is given.
    type Handle: Clone;

    /// The handle to the message bus that the widget is given.
    type Stream: Clone;

    /// `widget` is what `new` may make of `relm`.
    open spec fn built(relm: Relm<Self::Handle, Self::Stream>, widget: Self) -> bool {
        true
    }

    /// `connect_events` may turn `before` into `after`.
    open spec fn wired(before: Self, after: Self) -> bool {
        true
    }

    /// `tasks` are what `subscriptions` may declare for `widget`.
    open spec fn subscribed(widget: Self, tasks: Seq<Self::Task>) -> bool {
        true
    }

    /// `update` with `message` may turn `before` into `after` and hand out
    /// `task`.
    open spec fn updated(before: Self, message: M, after: Self, task: Self::Task) -> bool {
        true
    }

    /// `container` is what `widget` may expose as its visual root.
    open spec fn shown(widget: Self, container: Self::Container) -> bool {
        true
    }

    /// Builds the initial model and view. The context may be kept.
    fn new(relm: Relm<Self::Handle, Self::Stream>) -> (widget: Self)
        ensures
            Self::built(relm, widget),
    ;

    /// Binds the toolkit's signals to the message bus. Called once, after
    /// `new` and before anything else.
    fn connect_events(&mut self)
        ensures
            Self::wired(*old(self), *final(self)),
    ;

    /// The long-lived background sources, in the order they are to be
    /// started.
    fn subscriptions(&self) -> (tasks: Vec<Self::Task>)
        ensures
            Self::subscribed(*self, tasks@),
    ;

    /// The one state transition. What it returns is run by the scheduler.
    fn update(&mut self, message: M) -> (task: Self::Task)
        ensures
            Self::updated(*old(self), message, *final(self), task),
    ;

    /// The visual root, for mounting into a parent.
    fn container(&self) -> (container: &Self::Container)
        ensures
            Self::shown(*self, *container),
    ;
}

/// What the loop of a widget asks of its driver after one poll of the bus.
pub enum Turn<T, E> {
    /// A message was handed to `update`: start this work, then poll again.
    Spawn(T),
    /// No message is waiting: suspend until the bus wakes the loop.
    Pending,
    /// The bus has ended: the loop is complete.
    Finished,
    /// The bus failed: the loop is complete, with this failure.
    Failed(E),
}

/// The perpetual task of one widget: it owns the widget and hands it each
/// message of its bus, one at a time and in the order the bus delivers them.
pub struct EventLoop<D, S> {
    widget: D,
    stream: S,
    stopped: bool,
}

/// One turn of the loop: `before` and `stopped` are the widget and the state
/// of the loop when the bus answered `polled`; `after`, `stops` and `turn`
/// are what may follow.
pub open spec fn turned<D: Widget<M>, M: Clone, E>(
    before: D,
    stopped: bool,
    polled: Poll<Option<M>, E>,
    after: D,
    stops: bool,
    turn: Turn<D::Task, E>,
) -> bool {
    if stopped {
        after == before && stops && turn is Finished
    } else {
        match polled {
            Ok(Async::Ready(Some(message))) => {
                &&& !stops
                &&& turn matches Turn::Spawn(task)
                &&& D::updated(before, message, after, task)
            },
            Ok(Async::NotReady) => after == before && !stops && turn is Pending,
            Ok(Async::Ready(None)) => after == before && stops && turn is Finished,
            Err(error) => after == before && stops && turn == Turn::<D::Task, E>::Failed(error),
        }
    }
}

/// `messages` were handed to `update` one after the other, each to the
/// widget as the one before left it, starting from `before` and ending in
/// `after`; `tasks` are what the calls returned, in the same order.
pub open spec fn delivered<D: Widget<M>, M: Clone>(
    before: D,
    messages: Seq<M>,
    after: D,
    tasks: Seq<D::Task>,
) -> bool {
    exists|states: Seq<D>|
        {
            &&& #[trigger] states.len() == messages.len() + 1
            &&& tasks.len() == messages.len()
            &&& states[0] == before
            &&& states[messages.len() as int] == after
            &&& forall|k: int|
                0 <= k < messages.len() ==> D::updated(
                    #[trigger] states[k],
                    messages[k],
                    states[k + 1],
                    tasks[k],
                )
        }
}

/// One turn of the loop that finds a message ready is the delivery of that
/// one message.
pub proof fn turn_delivers_one<D: Widget<M>, M: Clone, E>(
    before: D,
    message: M,
    after: D,
    stops: bool,
    turn: Turn<D::Task, E>,
)
    requires
        turned::<D, M, E>(before, false, Ok(Async::Ready(Some(message))), after, stops, turn),
    ensures
        !stops,
        turn matches Turn::Spawn(task) && delivered::<D, M>(
            before,
            seq![message],
            after,
            seq![task],
        ),
{
    let states = seq![before, after];
    assert(states.len() == seq![message].len() + 1);
}

/// Updates are serial: handing a widget `first` and then `second` is handing
/// it the two one after the other as one run. No update of the second batch
/// sees the widget before the last update of the first has left it.
pub proof fn delivery_composes<D: Widget<M>, M: Clone>(
    before: D,
    first: Seq<M>,
    between: D,
    first_tasks: Seq<D::Task>,
    second: Seq<M>,
    after: D,
    second_tasks: Seq<D::Task>,
)
    requires
        delivered::<D, M>(before, first, between, first_tasks),
        delivered::<D, M>(between, second, after, second_tasks),
    ensures
        delivered::<D, M>(before, first + second, after, first_tasks + second_tasks),
{
    let head = choose|states: Seq<D>|
        {
            &&& #[trigger] states.len() == first.len() + 1
            &&& first_tasks.len() == first.len()
            &&& states[0] == before
            &&& states[first.len() as int] == between
            &&& forall|k: int|
                0 <= k < first.len() ==> D::updated(
                    #[trigger] states[k],
                    first[k],
                    states[k + 1],
                    first_tasks[k],
                )
        };
    let tail = choose|states: Seq<D>|
        {
            &&& #[trigger] states.len() == second.len() + 1
            &&& second_tasks.len() == second.len()
            &&& states[0] == between
            &&& states[second.len() as int] == after
            &&& forall|k: int|
                0 <= k < second.len() ==> D::updated(
                    #[trigger] states[k],
                    second[k],
                    states[k + 1],
                    second_tasks[k],
                )
        };
    let messages = first + second;
    let tasks = first_tasks + second_tasks;
    let states = head + tail.skip(1);
    assert(states.len() == messages.len() + 1);
    assert forall|k: int| 0 <= k < messages.len() implies D::updated(
        #[trigger] states[k],
        messages[k],
        states[k + 1],
        tasks[k],
    ) by {
        if k < first.len() {
            assert(states[k] == head[k]);
            assert(states[k + 1] == head[k + 1]);
            assert(D::updated(head[k], first[k], head[k + 1], first_tasks[k]));
        } else {
            let j = k - first.len();
            assert(states[k + 1] == tail[j + 1]);
            if j == 0 {
                assert(states[k] == head[first.len() as int]);
                assert(states[k] == tail[0]);
            } else {
                assert(states[k] == tail[j]);
            }
            assert(D::updated(tail[j], second[j], tail[j + 1], second_tasks[j]));
        }
    }
}

impl<D, S> EventLoop<D, S> {
    /// The widget as the loop holds it.
    pub closed spec fn model(&self) -> D {
        self.widget
    }

    /// The bus the loop consumes.
    pub closed spec fn bus(&self) -> S {
        self.stream
    }

    /// Whether the loop is complete.
    pub closed spec fn stopped(&self) -> bool {
        self.stopped
    }

    /// The bus the loop consumes, for the driver to poll.
    pub fn stream(&self) -> (stream: &S)
        ensures
            *stream == self.bus(),
    {
        &self.stream
    }

    /// The widget, to look at between two turns.
    pub fn widget(&self) -> (widget: &D)
        ensures
            *widget == self.model(),
    {
        &self.widget
    }

    /// Whether the loop is complete. A complete loop is not polled again.
    pub fn is_stopped(&self) -> (stopped: bool)
        ensures
            stopped == self.stopped(),
    {
        self.stopped
    }

    /// One turn: `polled` is what the poll of the bus returned. A message goes
    /// to `update`, and the work it returns is to be started; the end or a
    /// failure of the bus completes the loop. A complete loop answers
    /// `Finished` to whatever comes.
    pub fn poll<M: Clone, E>(&mut self, polled: Poll<Option<M>, E>) -> (turn: Turn<D::Task, E>) where
        D: Widget<M>,

        ensures
            turned::<D, M, E>(
                old(self).model(),
                old(self).stopped(),
                polled,
                final(self).model(),
                final(self).stopped(),
                turn,
            ),
            final(self).bus() == old(self).bus(),
    {
        if self.stopped {
            return Turn::Finished;
        }
        match polled {
            Ok(Async::Ready(Some(message))) => {
                let task = self.widget.update(message);
                Turn::Spawn(task)
            },
            Ok(Async::NotReady) => Turn::Pending,
            Ok(Async::Ready(None)) => {
                self.stopped = true;
                Turn::Finished
            },
            Err(error) => {
                self.stopped = true;
                Turn::Failed(error)
            },
        }
    }

    /// Hands the widget every message of `messages`, first to last, and
    /// returns the work of each update in the same order. No update starts
    /// before the one before it has returned. A complete loop hands on
    /// nothing and returns no work.
    pub fn deliver<M: Clone>(&mut self, messages: Vec<M>) -> (tasks: Vec<D::Task>) where
        D: Widget<M>,

        ensures
            !old(self).stopped() ==> delivered::<D, M>(
                old(self).model(),
                messages@,
                final(self).model(),
                tasks@,
            ),
            old(self).stopped() ==> tasks@.len() == 0 && final(self).model() == old(self).model(),
            final(self).bus() == old(self).bus(),
            final(self).stopped() == old(self).stopped(),
    {
        if self.stopped {
            return Vec::new();
        }
        let mut tasks: Vec<D::Task> = Vec::new();
        let mut messages = messages;
        let ghost all = messages@;
        let ghost mut states: Seq<D> = seq![self.widget];
        let ghost first = self.widget;
        let ghost bus = self.stream;
        while messages.len() > 0
            invariant
                !self.stopped,
                self.stream == bus,
                tasks@.len() + messages@.len() == all.len(),
                messages@ == all.skip(tasks@.len() as int),
                states.len() == tasks@.len() + 1,
                states[0] == first,
                states[tasks@.len() as int] == self.widget,
                forall|k: int|
                    0 <= k < tasks@.len() ==> D::updated(
                        #[trigger] states[k],
                        all[k],
                        states[k + 1],
                        tasks@[k],
                    ),
            decreases messages@.len(),
        {
            let message = messages.remove(0);
            let task = self.widget.update(message);
            tasks.push(task);
            proof {
                states = states.push(self.widget);
            }
        }
        proof {
            assert(tasks@.len() == all.len());
            assert(states.len() == all.len() + 1);
        }
        tasks
    }
}

/// What bringing a widget up leaves behind.
pub struct Created<D: Widget<M>, M: Clone> {
    /// The widget's visual root, for the caller to mount.
    pub container: D::Container,
    /// The widget's subscriptions, to be started in this order.
    pub subscriptions: Vec<D::Task>,
    /// The widget's loop, holding the widget, to be started after them.
    pub event_loop: EventLoop<D, D::Stream>,
}

/// A unit of work for the scheduler.
pub enum Job<D: Widget<M>, M: Clone> {
    /// Background work that a widget declared or returned.
    Work(D::Task),
    /// The loop of a widget.
    Consume(EventLoop<D, D::Stream>),
}

/// `result` is what bringing a widget of type `D` up with `handle` and
/// `stream` may leave behind: the widget was built from a context that holds
/// duplicates of both, then wired; its subscriptions and its container were
/// taken from the wired widget; and the loop holds that widget and `stream`
/// itself.
pub open spec fn created<D: Widget<M>, M: Clone>(
    handle: D::Handle,
    stream: D::Stream,
    result: Created<D, M>,
) -> bool {
    exists|relm: Relm<D::Handle, D::Stream>, fresh: D, shown: D::Container|
        {
            &&& cloned(handle, relm.scheduler())
            &&& cloned(stream, relm.bus())
            &&& #[trigger] D::built(relm, fresh)
            &&& D::wired(fresh, result.event_loop.model())
            &&& D::subscribed(result.event_loop.model(), result.subscriptions@)
            &&& #[trigger] D::shown(result.event_loop.model(), shown)
            &&& cloned(shown, result.container)
            &&& result.event_loop.bus() == stream
            &&& !result.event_loop.stopped()
        }
}

/// Brings a widget up. `stream` is the widget's own, new bus and `handle` the
/// scheduler's handle. The widget is built from a context holding duplicates
/// of the two; then its signals are wired; only then are its subscriptions
/// asked for and its container taken. Nothing is started here: the result
/// holds what the scheduler is to be given, and `spawn_order` says in which
/// order.
pub fn create_widget<D: Widget<M>, M: Clone>(handle: &D::Handle, stream: D::Stream) -> (result:
    Created<D, M>)
    ensures
        created::<D, M>(*handle, stream, result),
{
    let relm = Relm::new(handle.clone(), stream.clone());
    let mut widget = D::new(relm);
    let ghost fresh = widget;
    widget.connect_events();
    let subscriptions = widget.subscriptions();
    let exposed = widget.container();
    let ghost shown = *exposed;
    let container = exposed.clone();
    let result = Created { container, subscriptions, event_loop: EventLoop { widget, stream, stopped: false } };
    proof {
        assert(D::built(relm, fresh) && D::shown(result.event_loop.model(), shown));
    }
    result
}

impl<D: Widget<M>, M: Clone> Created<D, M> {
    /// The container to mount and the work to start, in the order in which it
    /// is to be started: every subscription as declared, then the loop.
    pub fn spawn_order(self) -> (out: (D::Container, Vec<Job<D, M>>))
        ensures
            out.0 == self.container,
            out.1@.len() == self.subscriptions@.len() + 1,
            forall|k: int|
                0 <= k < self.subscriptions@.len() ==> #[trigger] out.1@[k] == Job::<D, M>::Work(
                    self.subscriptions@[k],
                ),
            out.1@[self.subscriptions@.len() as int] == Job::<D, M>::Consume(self.event_loop),
    {
        let Created { container, subscriptions, event_loop } = self;
        let mut subscriptions = subscriptions;
        let ghost all = subscriptions@;
        let mut jobs: Vec<Job<D, M>> = Vec::new();
        while subscriptions.len() > 0
            invariant
                jobs@.len() + subscriptions@.len() == all.len(),
                subscriptions@ == all.skip(jobs@.len() as int),
                forall|k: int| 0 <= k < jobs@.len() ==> #[trigger] jobs@[k] == Job::<D, M>::Work(all[k]),
            decreases subscriptions@.len(),
        {
            let task = subscriptions.remove(0);
            jobs.push(Job::Work(task));
        }
        jobs.push(Job::Consume(event_loop));
        (container, jobs)
    }
}

/// What can hold child widgets whose containers are of type `C`.
pub trait AddWidget<C>: Sized {
    /// `add` with `child` may turn `before` into `after`: afterwards the
    /// child's container is among what this one holds.
    open spec fn holding(before: Self, child: C, after: Self) -> bool {
        true
    }

    /// Attaches a container as a child of this one.
    fn add(&mut self, child: &C)
        ensures
            Self::holding(*old(self), *child, *final(self)),
    ;

    /// Brings a child widget up exactly as `create_widget` does, and attaches
    /// its container to this one. The child's subscriptions and its loop are
    /// in the result, as they are for a widget brought up on its own.
    fn add_widget<D: Widget<M, Container = C>, M: Clone>(
        &mut self,
        handle: &D::Handle,
        stream: D::Stream,
    ) -> (result: Created<D, M>)
        ensures
            created::<D, M>(*handle, stream, result),
            Self::holding(*old(self), result.container, *final(self)),
    {
        let result = create_widget::<D, M>(handle, stream);
        self.add(&result.container);
        result
    }
}

} // verus!
