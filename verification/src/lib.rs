//! The core of a reactive widget framework in the model-update-view style:
//! the decisions that bring a widget up, adapt asynchronous sources to one
//! shape, turn their items into messages and feed the messages to the
//! widget's update function, one at a time and in order.
//!
//! Nothing here polls, spawns or draws. The application polls its sources and
//! its buses and hands over what each poll returned, as the futures crate
//! returns it; the functions here say what follows, and the application does
//! it.
//!
//! - `stream`: the adapter that gives every source the shape of a sequence.
//! - `pipeline`: from a source to the messages for a bus.
//! - `context`: what a widget is given when it is built.
//! - `widget`: what a widget offers, how one is brought up, and its loop.
//! - `startup`: the steps from nothing to the running main loop.
//! - `error`: what can end start-up.

pub mod context;
pub mod error;
pub mod pipeline;
pub mod startup;
pub mod stream;
pub mod widget;

pub use crate::context::{Relm, Spawn};
pub use crate::error::Error;
pub use crate::pipeline::{Connection, Flow};
pub use crate::startup::{Directive, Report, Stage};
pub use crate::stream::{Direct, Once, OneShot, RelmStream, Sequence, ToStream};
pub use crate::widget::{create_widget, AddWidget, Created, EventLoop, Job, Turn, Widget};
