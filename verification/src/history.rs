//! Whole histories of a session: what holds after any sequence of reads by
//! the monitor and calls of `initialize`, in any order.
//!
//! The monitor and the consumer run on different threads, but each of their
//! steps happens under the lock of the output state, so a run of the program
//! is one sequence of the events below. The functions of `output` and
//! `monitor` are specified by the same transitions that `SessionModel::after`
//! is made of.

use vstd::prelude::*;
use crate::decode::lossy_utf8;
use crate::monitor::{output_after, order_after, stopped_after, Reading};
use crate::output::OutputModel;
use crate::sink::Notice;

verus! {

/// One step of a session.
pub enum Event {
    /// The monitor handled a read with this outcome.
    Read(Reading),
    /// The consumer called `initialize`.
    Initialize,
}

/// A session and everything it has shown to the outside, as mathematics.
#[verifier::ext_equal]
pub struct SessionModel {
    /// The pending buffer and the streaming flag.
    pub output: OutputModel,
    /// Whether the monitor has stopped.
    pub stopped: bool,
    /// Everything handed to the sink, oldest first.
    pub notices: Seq<Notice>,
    /// What each call of `initialize` returned, oldest first.
    pub replies: Seq<Seq<char>>,
}

impl SessionModel {
    /// A session that has just been created.
    pub open spec fn fresh() -> SessionModel {
        SessionModel {
            output: OutputModel::fresh(),
            stopped: false,
            notices: Seq::empty(),
            replies: Seq::empty(),
        }
    }

    /// The session after one more event.
    pub open spec fn after(self, event: Event) -> SessionModel {
        match event {
            Event::Read(read) => SessionModel {
                output: output_after(self.stopped, self.output, read),
                stopped: stopped_after(self.stopped, read),
                notices: self.notices + order_after(self.stopped, self.output, read).notices(),
                replies: self.replies,
            },
            Event::Initialize => SessionModel {
                output: self.output.drained(),
                stopped: self.stopped,
                notices: self.notices,
                replies: self.replies.push(self.output.backlog()),
            },
        }
    }

    /// The session after a sequence of events, first to last.
    pub open spec fn after_all(self, events: Seq<Event>) -> SessionModel
        decreases events.len(),
    {
        if events.len() == 0 {
            self
        } else {
            self.after_all(events.drop_last()).after(events.last())
        }
    }
}

/// The events of a child that writes `chunks` one after the other, each
/// arriving in one read.
pub open spec fn reads_of(chunks: Seq<Seq<u8>>) -> Seq<Event> {
    Seq::new(chunks.len(), |i: int| Event::Read(Reading::Bytes(chunks[i])))
}

/// What the sink is handed when `chunks` are delivered live, one by one.
pub open spec fn live_notices(chunks: Seq<Seq<u8>>) -> Seq<Notice> {
    Seq::new(chunks.len(), |i: int| Notice::Data(lossy_utf8(chunks[i])))
}

/// How many times `notices` says that the child has terminated.
pub open spec fn exit_count(notices: Seq<Notice>) -> nat
    decreases notices.len(),
{
    if notices.len() == 0 {
        0
    } else {
        exit_count(notices.drop_last()) + if notices.last() is Exit {
            1nat
        } else {
            0nat
        }
    }
}

/// Whether one of `events` is a read that ends the stream.
pub open spec fn stream_ends(events: Seq<Event>) -> bool {
    exists|i: int|
        0 <= i < events.len() && (#[trigger] events[i] matches Event::Read(read)
            && read.ends_stream())
}

/// Handling events one after the other is the same as handling them in two
/// batches.
pub proof fn lemma_after_all_concat(start: SessionModel, first: Seq<Event>, second: Seq<Event>)
    ensures
        start.after_all(first + second) == start.after_all(first).after_all(second),
    decreases second.len(),
{
    if second.len() > 0 {
        assert((first + second).drop_last() =~= first + second.drop_last());
        lemma_after_all_concat(start, first, second.drop_last());
    }
}

/// While the consumer has not called `initialize`, a running monitor keeps
/// every byte the child writes, in order, and hands the sink nothing.
pub proof fn lemma_buffering_keeps_everything(start: SessionModel, chunks: Seq<Seq<u8>>)
    requires
        !start.stopped,
        !start.output.streaming,
        forall|i: int| 0 <= i < chunks.len() ==> (#[trigger] chunks[i]).len() > 0,
    ensures
        start.after_all(reads_of(chunks)) == (SessionModel {
            output: OutputModel {
                pending: start.output.pending + chunks.flatten(),
                streaming: false,
            },
            ..start
        }),
    decreases chunks.len(),
{
    if chunks.len() > 0 {
        let earlier = chunks.drop_last();
        assert(reads_of(chunks).drop_last() =~= reads_of(earlier));
        lemma_buffering_keeps_everything(start, earlier);
        assert(chunks =~= earlier.push(chunks.last()));
        earlier.lemma_flatten_push(chunks.last());
    }
}

/// Whatever the child wrote before `initialize` was called comes back from
/// that call: the bytes of all its writes joined in the order of arrival and
/// decoded once. The sink has been handed nothing by then.
pub proof fn lemma_initialize_returns_all_output(chunks: Seq<Seq<u8>>)
    requires
        forall|i: int| 0 <= i < chunks.len() ==> (#[trigger] chunks[i]).len() > 0,
    ensures
        ({
            let session = SessionModel::fresh().after_all(reads_of(chunks)).after(
                Event::Initialize,
            );
            &&& session.replies == seq![lossy_utf8(chunks.flatten())]
            &&& session.notices == Seq::<Notice>::empty()
            &&& session.output == OutputModel::fresh().drained()
        }),
{
    lemma_buffering_keeps_everything(SessionModel::fresh(), chunks);
}

/// Once `initialize` has been called the buffer is empty and stays empty, and
/// the session streams for good, whatever happens next.
pub proof fn lemma_streaming_is_final(start: SessionModel, events: Seq<Event>)
    ensures
        start.after(Event::Initialize).after_all(events).output == start.output.drained(),
    decreases events.len(),
{
    if events.len() > 0 {
        lemma_streaming_is_final(start, events.drop_last());
    }
}

/// After `initialize`, a running monitor hands every chunk the child writes
/// to the sink, each decoded on its own and in the order of arrival, and none
/// of them reaches the buffer.
pub proof fn lemma_streaming_delivers_everything(start: SessionModel, chunks: Seq<Seq<u8>>)
    requires
        !start.stopped,
        forall|i: int| 0 <= i < chunks.len() ==> (#[trigger] chunks[i]).len() > 0,
    ensures
        ({
            let opened = start.after(Event::Initialize);
            opened.after_all(reads_of(chunks)) == (SessionModel {
                notices: start.notices + live_notices(chunks),
                ..opened
            })
        }),
    decreases chunks.len(),
{
    if chunks.len() > 0 {
        let earlier = chunks.drop_last();
        assert(reads_of(chunks).drop_last() =~= reads_of(earlier));
        lemma_streaming_delivers_everything(start, earlier);
    }
}

/// Used as it is meant to be, a session loses nothing and shows nothing
/// twice. When the child writes `before`, the consumer calls `initialize`, and
/// the child writes `after`, then the call returns all of `before`, decoded
/// once, the sink is handed each chunk of `after`, decoded on its own, and the
/// buffer is empty at the end.
pub proof fn lemma_nothing_lost_nothing_twice(before: Seq<Seq<u8>>, after: Seq<Seq<u8>>)
    requires
        forall|i: int| 0 <= i < before.len() ==> (#[trigger] before[i]).len() > 0,
        forall|i: int| 0 <= i < after.len() ==> (#[trigger] after[i]).len() > 0,
    ensures
        ({
            let events = reads_of(before).push(Event::Initialize) + reads_of(after);
            SessionModel::fresh().after_all(events) == (SessionModel {
                output: OutputModel::fresh().drained(),
                stopped: false,
                notices: live_notices(after),
                replies: seq![lossy_utf8(before.flatten())],
            })
        }),
{
    let fresh = SessionModel::fresh();
    let opening = reads_of(before).push(Event::Initialize);
    assert(opening.drop_last() =~= reads_of(before));
    lemma_after_all_concat(fresh, opening, reads_of(after));
    lemma_buffering_keeps_everything(fresh, before);
    lemma_streaming_delivers_everything(fresh.after_all(reads_of(before)), after);
}

/// The sink hears of the child's end exactly once if the monitor has seen the
/// stream end, and not at all before; and that is the last it hears.
pub proof fn lemma_exit_once(events: Seq<Event>)
    ensures
        ({
            let session = SessionModel::fresh().after_all(events);
            &&& session.stopped == stream_ends(events)
            &&& exit_count(session.notices) == if stream_ends(events) {
                1nat
            } else {
                0nat
            }
            &&& session.stopped ==> session.notices.len() > 0 && session.notices.last() is Exit
        }),
    decreases events.len(),
{
    if events.len() > 0 {
        let earlier = events.drop_last();
        lemma_exit_once(earlier);
        let before = SessionModel::fresh().after_all(earlier);
        let session = before.after(events.last());
        // The stream ends in `events` just when it ends in `earlier` or with
        // the last event.
        if stream_ends(earlier) {
            let i = choose|i: int|
                0 <= i < earlier.len() && (#[trigger] earlier[i] matches Event::Read(read)
                    && read.ends_stream());
            assert(events[i] == earlier[i]);
        }
        if stream_ends(events) && !stream_ends(earlier) {
            let i = choose|i: int|
                0 <= i < events.len() && (#[trigger] events[i] matches Event::Read(read)
                    && read.ends_stream());
            if i < earlier.len() {
                assert(earlier[i] == events[i]);
            }
        }
        // The last event adds at most one notification.
        if session.notices.len() > before.notices.len() {
            assert(session.notices.drop_last() =~= before.notices);
        } else {
            assert(session.notices =~= before.notices);
        }
    }
}

/// A stopped monitor does nothing more: whatever reads are put to it, the
/// sink is handed nothing and the buffer is not touched.
pub proof fn lemma_stopped_monitor_is_silent(start: SessionModel, reads: Seq<Reading>)
    requires
        start.stopped,
    ensures
        start.after_all(Seq::new(reads.len(), |i: int| Event::Read(reads[i]))) == start,
    decreases reads.len(),
{
    if reads.len() > 0 {
        let events = Seq::new(reads.len(), |i: int| Event::Read(reads[i]));
        let earlier = reads.drop_last();
        assert(events.drop_last() =~= Seq::new(earlier.len(), |i: int| Event::Read(earlier[i])));
        lemma_stopped_monitor_is_silent(start, earlier);
    }
}

/// No session ever streams and holds bytes back at once.
pub proof fn lemma_always_consistent(events: Seq<Event>)
    ensures
        SessionModel::fresh().after_all(events).output.consistent(),
    decreases events.len(),
{
    if events.len() > 0 {
        lemma_always_consistent(events.drop_last());
    }
}

} // verus!
