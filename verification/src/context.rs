//! The context a widget is given when it is built.

use crate::pipeline::Connection;
use crate::stream::ToStream;
use vstd::pervasive::cloned;
use vstd::prelude::*;

verus! {

/// The context of one widget: a handle to the scheduler and a handle to the
/// widget's own message bus. Every widget gets its own.
pub struct Relm<H, S> {
    handle: H,
    stream: S,
}

/// The request to run `task` on the scheduler behind `handle`, to completion
/// and without anybody waiting for it.
pub struct Spawn<'a, H, F> {
    pub handle: &'a H,
    pub task: F,
}

impl<H, S> Relm<H, S> {
    /// The scheduler's handle in this context.
    pub closed spec fn scheduler(&self) -> H {
        self.handle
    }

    /// The bus's handle in this context.
    pub closed spec fn bus(&self) -> S {
        self.stream
    }

    /// The context made of the two handles.
    pub fn new(handle: H, stream: S) -> (relm: Self)
        ensures
            relm.scheduler() == handle,
            relm.bus() == stream,
    {
        Relm { handle, stream }
    }

    /// Binds a source to the widget's bus: every item the source yields is
    /// mapped by `callback` to a message for the bus, until the source ends or
    /// fails. `to_stream` says of which shape the source is. The pipeline is
    /// returned unstarted, with its own duplicate of the handle to the bus;
    /// starting it is the caller's business.
    pub fn connect<C, A, T: ToStream<A>>(&self, to_stream: T, callback: C) -> (connection:
        Connection<C, A, S>) where S: Clone
        ensures
            connection.adapter() == to_stream.adapter(),
            connection.mapping() == callback,
            cloned(self.bus(), connection.target()),
            !connection.closed(),
    {
        let bus = self.stream.clone();
        let stream = to_stream.to_stream();
        Connection::new(stream, callback, bus)
    }

    /// Asks for `future` to be run on the scheduler: the request names the
    /// scheduler of this context and holds the work untouched.
    pub fn exec<F>(&self, future: F) -> (request: Spawn<'_, H, F>)
        ensures
            *request.handle == self.scheduler(),
            request.task == future,
    {
        Spawn { handle: &self.handle, task: future }
    }

    /// The handle to the scheduler.
    pub fn handle(&self) -> (handle: &H)
        ensures
            *handle == self.scheduler(),
    {
        &self.handle
    }

    /// The handle to the widget's message bus.
    pub fn stream(&self) -> (stream: &S)
        ensures
            *stream == self.bus(),
    {
        &self.stream
    }
}

} // verus!
