//! Whole runs of a download: what goes out to the device over a sequence of
//! events, whatever the device answers and whatever the firmware holds.

use crate::download::{Progress, ProtocolProgress, DFUSE_FIRST_BLOCK};
use crate::engine::{Phase, Wanted};
use crate::functional_descriptor::FunctionalDescriptor;
use vstd::prelude::*;

verus! {

/// What happens to a download after it has asked for something.
pub enum Event {
    /// The status query was answered with these bytes.
    Reply(Seq<u8>),
    /// The transfer that clears the status, or that carries a DfuSe
    /// command, was run.
    Done,
    /// These bytes of the firmware were at hand for the next chunk.
    Bytes(Seq<u8>),
}

/// A chunk of firmware on its way to the device.
pub struct Chunk {
    /// The block number that it goes out under.
    pub block_num: u16,
    /// The bytes that it carries.
    pub payload: Seq<u8>,
}

impl Phase {
    /// The phase that follows an event.  There is none where the event is
    /// not what the download has asked for, where it fails the download,
    /// and where the download is over.
    pub open spec fn after(self, event: Event) -> Option<Phase> {
        match (self.wanted(), event) {
            (Ok(Wanted::GetStatus { delay, pending }), Event::Reply(bytes)) => match pending.answered(
                bytes,
            ) {
                Ok(next) => Some(next),
                Err(_) => None,
            },
            (Ok(Wanted::ClearStatus { then }), Event::Done) => Some(then),
            (Ok(Wanted::Dfuse { payload, then }), Event::Done) => Some(then),
            (Ok(Wanted::DownloadChunk(progress)), Event::Bytes(bytes)) => match Phase::sent(
                progress,
                bytes.len(),
            ) {
                Ok(next) => Some(next),
                Err(_) => None,
            },
            _ => None,
        }
    }

    /// The chunk that goes out on an event: the one cut from the bytes at
    /// hand, where a chunk was asked for and can be sent.
    pub open spec fn chunk(self, event: Event) -> Option<Chunk> {
        match (self.wanted(), event) {
            (Ok(Wanted::DownloadChunk(progress)), Event::Bytes(bytes)) => if Phase::sent(
                progress,
                bytes.len(),
            ) is Ok {
                Some(
                    Chunk {
                        block_num: progress.block_num,
                        payload: bytes.take(progress.chunk_len(bytes.len()) as int),
                    },
                )
            } else {
                None
            },
            _ => None,
        }
    }

    /// The chunks that go out over a run of events, in their order.  The
    /// run ends with the first event that no phase follows.
    pub open spec fn chunks(self, events: Seq<Event>) -> Seq<Chunk>
        decreases events.len(),
    {
        if events.len() == 0 {
            Seq::empty()
        } else {
            let first = match self.chunk(events[0]) {
                Some(chunk) => seq![chunk],
                None => Seq::empty(),
            };
            match self.after(events[0]) {
                Some(next) => first + next.chunks(events.skip(1)),
                None => first,
            }
        }
    }

    /// The block number of the next chunk: that of the download where it
    /// has begun, else the first of its protocol.
    pub open spec fn next_block(self) -> int {
        match self {
            Phase::Opening(plan) => plan.begin().block_num as int,
            Phase::Clearing(plan) => plan.begin().block_num as int,
            Phase::Starting(plan) => plan.begin().block_num as int,
            Phase::Running(progress) => progress.block_num as int,
            Phase::Waiting(wait) => wait.command.block_num as int,
            Phase::Finished => 0,
        }
    }

    /// The functional descriptor of the device, while the download is not
    /// finished.
    pub open spec fn descriptor(self) -> Option<FunctionalDescriptor> {
        match self {
            Phase::Opening(plan) => Some(plan.descriptor),
            Phase::Clearing(plan) => Some(plan.descriptor),
            Phase::Starting(plan) => Some(plan.descriptor),
            Phase::Running(progress) => Some(progress.descriptor),
            Phase::Waiting(wait) => Some(wait.command.descriptor),
            Phase::Finished => None,
        }
    }

    /// Whether the empty chunk that ends the firmware was sent.
    pub open spec fn ended(self) -> bool {
        match self.progress() {
            Some(progress) => progress.eof,
            None => self is Finished,
        }
    }

    /// One event moves the block number on by one if a chunk goes out on
    /// it, and not at all if none does; it leaves the descriptor as it is.
    pub proof fn lemma_one_event(self, event: Event)
        requires
            self.after(event) is Some,
        ensures
            self.after(event)->Some_0.next_block() == self.next_block() + (if self.chunk(
                event,
            ) is Some {
                1int
            } else {
                0int
            }),
            self.after(event)->Some_0.descriptor() == self.descriptor(),
            self.ended() ==> self.after(event)->Some_0.ended(),
            self.chunk(event) matches Some(chunk) ==> {
                &&& chunk.block_num == self.next_block()
                &&& !self.ended()
                &&& self.descriptor() is Some
                &&& chunk.payload.len() <= self.descriptor()->Some_0.transfer_size
                &&& event is Bytes
                &&& chunk.payload.is_prefix_of(event->Bytes_0)
                &&& event->Bytes_0.len() == 0 <==> self.after(event)->Some_0.ended()
                &&& self.descriptor()->Some_0.well_formed() && event->Bytes_0.len() > 0
                    ==> chunk.payload.len() > 0
            },
    {
    }

    /// Block numbering: the chunks of a run go out under consecutive block
    /// numbers, from the next block of the phase that the run starts in.
    pub proof fn lemma_blocks_count_up(self, events: Seq<Event>, i: int)
        requires
            0 <= i < self.chunks(events).len(),
        ensures
            self.chunks(events)[i].block_num == self.next_block() + i,
        decreases events.len(),
    {
        if events.len() > 0 {
            if let Some(next) = self.after(events[0]) {
                self.lemma_one_event(events[0]);
                let rest = next.chunks(events.skip(1));
                if self.chunk(events[0]) is Some {
                    if i > 0 {
                        next.lemma_blocks_count_up(events.skip(1), i - 1);
                        assert(self.chunks(events)[i] == rest[i - 1]);
                    }
                } else {
                    next.lemma_blocks_count_up(events.skip(1), i);
                    assert(self.chunks(events) =~= rest);
                }
            }
        }
    }

    /// A run that starts with a download goes out from block 0 under plain
    /// DFU and from block 2 under DfuSe.
    pub proof fn lemma_first_block(self)
        requires
            self is Opening,
        ensures
            self.next_block() == (match self->Opening_0.protocol {
                ProtocolProgress::Dfu => 0int,
                ProtocolProgress::Dfuse(_) => DFUSE_FIRST_BLOCK as int,
            }),
    {
    }

    /// Once the firmware has ended no chunk goes out any more.
    pub proof fn lemma_no_chunk_after_the_end(self, events: Seq<Event>)
        requires
            self.ended(),
        ensures
            self.chunks(events).len() == 0,
        decreases events.len(),
    {
        if events.len() > 0 {
            if let Some(next) = self.after(events[0]) {
                self.lemma_one_event(events[0]);
                next.lemma_no_chunk_after_the_end(events.skip(1));
            }
        }
    }

    /// Transfer-size bound: no chunk of a run carries more bytes than the
    /// transfer size of the device.
    pub proof fn lemma_chunks_fit(self, events: Seq<Event>, i: int)
        requires
            0 <= i < self.chunks(events).len(),
        ensures
            self.descriptor() matches Some(descriptor) && self.chunks(events)[i].payload.len()
                <= descriptor.transfer_size,
        decreases events.len(),
    {
        if events.len() > 0 {
            if let Some(next) = self.after(events[0]) {
                self.lemma_one_event(events[0]);
                let rest = next.chunks(events.skip(1));
                if self.chunk(events[0]) is Some {
                    if i > 0 {
                        next.lemma_chunks_fit(events.skip(1), i - 1);
                        assert(self.chunks(events)[i] == rest[i - 1]);
                    }
                } else {
                    next.lemma_chunks_fit(events.skip(1), i);
                    assert(self.chunks(events) =~= rest);
                }
            }
        }
    }

    /// The empty chunk is the last one: with a transfer size of at least
    /// one, every chunk of a run but the last carries bytes.
    pub proof fn lemma_only_the_last_chunk_is_empty(self, events: Seq<Event>, i: int)
        requires
            0 <= i < self.chunks(events).len() - 1,
            self.descriptor() matches Some(descriptor) && descriptor.well_formed(),
        ensures
            self.chunks(events)[i].payload.len() > 0,
        decreases events.len(),
    {
        if events.len() > 0 {
            if let Some(next) = self.after(events[0]) {
                self.lemma_one_event(events[0]);
                let rest = next.chunks(events.skip(1));
                if self.chunk(events[0]) is Some {
                    if i > 0 {
                        next.lemma_only_the_last_chunk_is_empty(events.skip(1), i - 1);
                        assert(self.chunks(events)[i] == rest[i - 1]);
                    } else {
                        if next.ended() {
                            next.lemma_no_chunk_after_the_end(events.skip(1));
                        }
                    }
                } else {
                    next.lemma_only_the_last_chunk_is_empty(events.skip(1), i);
                    assert(self.chunks(events) =~= rest);
                }
            }
        }
    }
}

} // verus!
