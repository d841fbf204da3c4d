//! What stands between the child's output and its consumer: the pending
//! buffer and the streaming flag, which are always read and changed together.

use vstd::prelude::*;
use vstd::utf8::{decode_utf8, valid_utf8};
use crate::decode::{decode_lossy, lossy_utf8};

verus! {

/// What an `OutputState` holds, as mathematics.
#[verifier::ext_equal]
pub struct OutputModel {
    /// The raw bytes read from the child that no consumer has taken yet, in
    /// the order in which they arrived.
    pub pending: Seq<u8>,
    /// Whether output is delivered live. Once true it stays true.
    pub streaming: bool,
}

impl OutputModel {
    /// The state of a new session: nothing buffered, not yet streaming.
    pub open spec fn fresh() -> OutputModel {
        OutputModel { pending: Seq::empty(), streaming: false }
    }

    /// A streaming session buffers nothing: a byte is held back or delivered,
    /// never both.
    pub open spec fn consistent(self) -> bool {
        self.streaming ==> self.pending.len() == 0
    }

    /// The state after `chunk` has arrived: appended while buffering,
    /// untouched while streaming.
    pub open spec fn routed(self, chunk: Seq<u8>) -> OutputModel {
        if self.streaming {
            self
        } else {
            OutputModel { pending: self.pending + chunk, streaming: false }
        }
    }

    /// The text that goes out for live delivery when `chunk` arrives:
    /// the chunk decoded on its own while streaming, nothing while buffering.
    pub open spec fn delivered(self, chunk: Seq<u8>) -> Option<Seq<char>> {
        if self.streaming {
            Some(lossy_utf8(chunk))
        } else {
            None
        }
    }

    /// The state after the consumer has taken the backlog: empty and streaming.
    pub open spec fn drained(self) -> OutputModel {
        OutputModel { pending: Seq::empty(), streaming: true }
    }

    /// The text the consumer takes when it drains the buffer: everything
    /// buffered so far, decoded in one pass.
    pub open spec fn backlog(self) -> Seq<char> {
        lossy_utf8(self.pending)
    }
}

/// The two phases of a session's output. Only the buffering phase has a
/// buffer, so no session can stream and hold bytes back at once.
enum Phase {
    Buffering(Vec<u8>),
    Streaming,
}

/// The pending buffer and the streaming flag of one session.
///
/// The buffer has no bound: a session whose consumer never calls `initialize`
/// keeps every byte its child writes.
pub struct OutputState {
    state: Phase,
}

impl View for OutputState {
    type V = OutputModel;

    closed spec fn view(&self) -> OutputModel {
        match self.state {
            Phase::Buffering(bytes) => OutputModel { pending: bytes@, streaming: false },
            Phase::Streaming => OutputModel { pending: Seq::empty(), streaming: true },
        }
    }
}

impl OutputState {
    /// Every state is consistent, however it was reached.
    pub proof fn lemma_consistent(&self)
        ensures
            self@.consistent(),
    {
    }

    /// The state of a new session.
    pub fn new() -> (output: OutputState)
        ensures
            output@ == OutputModel::fresh(),
    {
        OutputState { state: Phase::Buffering(Vec::new()) }
    }

    /// Whether output is delivered live.
    pub fn is_streaming(&self) -> (streaming: bool)
        ensures
            streaming == self@.streaming,
    {
        match &self.state {
            Phase::Buffering(_) => false,
            Phase::Streaming => true,
        }
    }

    /// A copy of the bytes held back for the consumer.
    pub fn pending(&self) -> (bytes: Vec<u8>)
        ensures
            bytes@ == self@.pending,
    {
        match &self.state {
            Phase::Buffering(held) => held.clone(),
            Phase::Streaming => Vec::new(),
        }
    }

    /// Takes one chunk of the child's output. While buffering, the raw bytes
    /// join the buffer and nothing is returned. While streaming, the buffer is
    /// left alone and the chunk comes back decoded, for live delivery; a chunk
    /// of well-formed UTF-8 comes back as the text it encodes.
    pub fn route(&mut self, chunk: &[u8]) -> (live: Option<String>)
        ensures
            final(self)@ == old(self)@.routed(chunk@),
            live.is_some() == old(self)@.streaming,
            live matches Some(text) ==> old(self)@.delivered(chunk@) == Some(text@),
            live matches Some(text) ==> (valid_utf8(chunk@) ==> text@ == decode_utf8(chunk@)),
    {
        match &mut self.state {
            Phase::Buffering(held) => {
                held.extend_from_slice(chunk);
                None
            },
            Phase::Streaming => Some(decode_lossy(chunk)),
        }
    }

    /// Hands the consumer everything buffered so far, decoded in one pass,
    /// and switches to streaming. The buffer is empty afterwards, so a second
    /// call returns the empty text and changes nothing. A buffer of
    /// well-formed UTF-8 comes back as the text it encodes.
    pub fn initialize(&mut self) -> (text: String)
        ensures
            text@ == old(self)@.backlog(),
            valid_utf8(old(self)@.pending) ==> text@ == decode_utf8(old(self)@.pending),
            old(self)@.pending.len() == 0 ==> text@.len() == 0,
            final(self)@ == old(self)@.drained(),
    {
        let text = match &self.state {
            Phase::Buffering(held) => decode_lossy(held.as_slice()),
            Phase::Streaming => {
                let nothing: Vec<u8> = Vec::new();
                decode_lossy(nothing.as_slice())
            },
        };
        self.state = Phase::Streaming;
        text
    }
}

} // verus!
