//! The output monitor: the task that drains the child's output for as long as
//! the child lives.
//!
//! The task itself blocks on reads and belongs to the program. What it decides
//! after each read is here: `Monitor::observe` takes the outcome of one read
//! and says what to do with it, and `MonitorAction::perform` does it to a sink.

use vstd::prelude::*;
use vstd::utf8::{decode_utf8, valid_utf8};
use crate::output::{OutputState, OutputModel};
use crate::sink::{LifecycleSink, Notice};

verus! {

/// The largest number of bytes the monitor asks for in one read.
pub const CHUNK_CAPACITY: usize = 1024;

/// The outcome of one read, as mathematics.
pub enum Reading {
    /// The read returned these bytes.
    Bytes(Seq<u8>),
    /// The read returned an error.
    Failed,
}

impl Reading {
    /// Whether this outcome is the last: an error, or a read of no bytes,
    /// which is how the end of the stream shows.
    pub open spec fn ends_stream(self) -> bool {
        match self {
            Reading::Bytes(bytes) => bytes.len() == 0,
            Reading::Failed => true,
        }
    }

    /// The bytes that came with this outcome.
    pub open spec fn bytes(self) -> Seq<u8> {
        match self {
            Reading::Bytes(bytes) => bytes,
            Reading::Failed => Seq::empty(),
        }
    }
}

/// The outcome of one blocking read of the child's output.
#[derive(Debug, Clone, PartialEq, Eq)]
pub enum ReadOutcome {
    /// The read returned these bytes. None at all means the stream has ended.
    Bytes(Vec<u8>),
    /// The read returned an error.
    Failed,
}

impl View for ReadOutcome {
    type V = Reading;

    open spec fn view(&self) -> Reading {
        match self {
            ReadOutcome::Bytes(bytes) => Reading::Bytes(bytes@),
            ReadOutcome::Failed => Reading::Failed,
        }
    }
}

impl ReadOutcome {
    /// Whether this outcome is the last one of its stream.
    pub fn ends_stream(&self) -> (last: bool)
        ensures
            last == self@.ends_stream(),
    {
        match self {
            ReadOutcome::Bytes(bytes) => bytes.len() == 0,
            ReadOutcome::Failed => true,
        }
    }
}

/// What the monitor does after a read, as mathematics.
pub enum Order {
    /// The bytes went into the pending buffer; nothing is delivered.
    Buffered,
    /// Deliver this text to the sink.
    Deliver(Seq<char>),
    /// Tell the sink that the child has terminated, and stop reading.
    Exit,
    /// The monitor had stopped before; nothing happens.
    Stopped,
}

impl Order {
    /// The notifications that carrying out this order hands to the sink.
    pub open spec fn notices(self) -> Seq<Notice> {
        match self {
            Order::Deliver(text) => seq![Notice::Data(text)],
            Order::Exit => seq![Notice::Exit],
            Order::Buffered => Seq::empty(),
            Order::Stopped => Seq::empty(),
        }
    }
}

/// Whether the monitor has stopped after a read with outcome `read`, given
/// whether it had stopped before.
pub open spec fn stopped_after(stopped: bool, read: Reading) -> bool {
    stopped || read.ends_stream()
}

/// The output state after the monitor has handled a read with outcome `read`.
/// Only a running monitor that read at least one byte touches it.
pub open spec fn output_after(stopped: bool, output: OutputModel, read: Reading) -> OutputModel {
    if stopped || read.ends_stream() {
        output
    } else {
        output.routed(read.bytes())
    }
}

/// What the monitor does after a read with outcome `read`.
pub open spec fn order_after(stopped: bool, output: OutputModel, read: Reading) -> Order {
    if stopped {
        Order::Stopped
    } else if read.ends_stream() {
        Order::Exit
    } else {
        match output.delivered(read.bytes()) {
            Some(text) => Order::Deliver(text),
            None => Order::Buffered,
        }
    }
}

/// What the monitor does after a read.
#[derive(Debug, Clone, PartialEq, Eq)]
pub enum MonitorAction {
    /// The bytes went into the pending buffer; nothing is delivered.
    Buffered,
    /// Deliver this text to the sink.
    Deliver(String),
    /// Tell the sink that the child has terminated, and stop reading.
    Exit,
    /// The monitor had stopped before; nothing happens.
    Stopped,
}

impl View for MonitorAction {
    type V = Order;

    open spec fn view(&self) -> Order {
        match self {
            MonitorAction::Buffered => Order::Buffered,
            MonitorAction::Deliver(text) => Order::Deliver(text@),
            MonitorAction::Exit => Order::Exit,
            MonitorAction::Stopped => Order::Stopped,
        }
    }
}

impl MonitorAction {
    /// Carries the action out: a text goes to `on_data`, the end of the
    /// stream to `on_exit`, and the two other actions make no call. A sink
    /// that keeps a record has the action's notifications added to it, and
    /// nothing else.
    pub fn perform<S: LifecycleSink>(self, sink: &mut S)
        ensures
            old(sink).records() ==> final(sink).records() && final(sink).received() == old(
                sink,
            ).received() + self@.notices(),
    {
        match self {
            MonitorAction::Deliver(text) => {
                sink.on_data(text);
            },
            MonitorAction::Exit => {
                sink.on_exit();
            },
            MonitorAction::Buffered => {},
            MonitorAction::Stopped => {},
        }
    }
}

/// The monitor of one session. It runs until it sees the end of the stream or
/// a read error, and never runs again.
pub struct Monitor {
    stopped: bool,
}

impl View for Monitor {
    type V = bool;

    /// Whether the monitor has stopped.
    closed spec fn view(&self) -> bool {
        self.stopped
    }
}

impl Monitor {
    /// A monitor that has read nothing yet.
    pub fn new() -> (monitor: Monitor)
        ensures
            !monitor@,
    {
        Monitor { stopped: false }
    }

    /// Whether the monitor has stopped. A stopped monitor must not read again.
    pub fn has_stopped(&self) -> (stopped: bool)
        ensures
            stopped == self@,
    {
        self.stopped
    }

    /// Decides what follows one read. The caller holds the lock of `output`.
    ///
    /// A read of at least one byte is routed: into the buffer, or out as
    /// decoded text to deliver. The end of the stream, or an error, stops the
    /// monitor and asks for the exit notification; the output state is not
    /// touched. A monitor that had stopped stays stopped and asks for nothing.
    pub fn observe(&mut self, output: &mut OutputState, read: &ReadOutcome) -> (action:
        MonitorAction)
        ensures
            final(self)@ == stopped_after(old(self)@, read@),
            final(output)@ == output_after(old(self)@, old(output)@, read@),
            action@ == order_after(old(self)@, old(output)@, read@),
            action matches MonitorAction::Deliver(text) ==> (valid_utf8(read@.bytes())
                ==> text@ == decode_utf8(read@.bytes())),
    {
        if self.stopped {
            return MonitorAction::Stopped;
        }
        match read {
            ReadOutcome::Bytes(bytes) => {
                if bytes.len() == 0 {
                    self.stopped = true;
                    MonitorAction::Exit
                } else {
                    match output.route(bytes.as_slice()) {
                        Some(text) => MonitorAction::Deliver(text),
                        None => MonitorAction::Buffered,
                    }
                }
            },
            ReadOutcome::Failed => {
                self.stopped = true;
                MonitorAction::Exit
            },
        }
    }
}

} // verus!
