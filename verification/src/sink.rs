//! Where the monitor's output goes: an interface of two operations, and an
//! implementation that records what it was given.

use vstd::prelude::*;

verus! {

/// One notification, as mathematics.
pub enum Notice {
    /// A chunk of decoded output.
    Data(Seq<char>),
    /// The child has terminated.
    Exit,
}

/// The receiver of a session's live output and of its end.
///
/// A program implements the two operations for the way it delivers output.
/// They are called from the monitor's thread, between two reads, and should
/// not block.
///
/// A sink may also keep a record of what it is handed. One that says so, by
/// `records`, must keep it faithfully: each call adds its notification at the
/// end of `received`. Of a sink that keeps none, which is what a program gets
/// when it leaves the two specification functions alone, nothing is asked.
pub trait LifecycleSink {
    /// Whether this sink keeps a record of what it is handed.
    open spec fn records(&self) -> bool {
        false
    }

    /// What this sink has been handed, oldest first, if it keeps a record.
    open spec fn received(&self) -> Seq<Notice> {
        Seq::empty()
    }

    /// Takes a chunk of decoded output for the live consumer.
    fn on_data(&mut self, text: String)
        ensures
            old(self).records() ==> final(self).records() && final(self).received() == old(
                self,
            ).received().push(Notice::Data(text@)),
    ;

    /// Takes the news that the child has terminated.
    fn on_exit(&mut self)
        ensures
            old(self).records() ==> final(self).records() && final(self).received() == old(
                self,
            ).received().push(Notice::Exit),
    ;
}

/// One notification as a `RecordingSink` keeps it.
#[derive(Debug, Clone, PartialEq, Eq)]
pub enum SinkEvent {
    /// A chunk of decoded output.
    Data(String),
    /// The child has terminated.
    Exit,
}

impl View for SinkEvent {
    type V = Notice;

    open spec fn view(&self) -> Notice {
        match self {
            SinkEvent::Data(text) => Notice::Data(text@),
            SinkEvent::Exit => Notice::Exit,
        }
    }
}

/// A sink that delivers nothing and keeps every notification, in order.
pub struct RecordingSink {
    events: Vec<SinkEvent>,
}

impl RecordingSink {
    /// A sink that has been handed nothing.
    pub fn new() -> (sink: RecordingSink)
        ensures
            sink.received() == Seq::<Notice>::empty(),
    {
        RecordingSink { events: Vec::new() }
    }

    /// The notifications recorded so far, oldest first.
    pub fn events(&self) -> (events: &Vec<SinkEvent>)
        ensures
            events@.len() == self.received().len(),
            forall|i: int| 0 <= i < events@.len() ==> events@[i]@ == #[trigger] self.received()[i],
    {
        &self.events
    }
}

impl LifecycleSink for RecordingSink {
    open spec fn records(&self) -> bool {
        true
    }

    closed spec fn received(&self) -> Seq<Notice> {
        self.events@.map_values(|event: SinkEvent| event@)
    }

    fn on_data(&mut self, text: String) {
        self.events.push(SinkEvent::Data(text));
    }

    fn on_exit(&mut self) {
        self.events.push(SinkEvent::Exit);
    }
}

} // verus!
