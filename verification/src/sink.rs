//! The subscriber sink: a one-producer / one-consumer delivery channel of
//! capacity one. A frame sits in the single slot until the consumer takes
//! it; a send onto an occupied slot fails, and that failure is the signal
//! the worker uses to evict a slow subscriber. Ghost histories of what was
//! sent and what was taken carry the ordering and capacity laws.

use vstd::prelude::*;

verus! {

/// One complete encoded video unit, as handed to a subscriber.
pub type EncodedFrame = Vec<u8>;

/// Why a send did not deliver.
#[derive(Clone, Copy, Debug, PartialEq, Eq, Structural)]
pub enum SinkSendError {
    /// The single slot still holds an untaken frame: the consumer is slow.
    SlotFull,
    /// The consumer side is gone; nothing will ever be taken again.
    ConsumerGone,
}

/// What one receive attempt observed.
#[derive(Debug)]
pub enum RecvOutcome {
    /// The next frame, in the order the producer sent them.
    Frame(EncodedFrame),
    /// The slot is empty but the producer is still alive.
    Empty,
    /// The slot is empty and the producer is gone: the stream has ended.
    Closed,
}

/// The one-slot channel between a worker and one subscriber.
pub struct SubscriberSink {
    pub slot: Option<EncodedFrame>,
    pub consumer_gone: bool,
    pub producer_gone: bool,
    /// Every frame the producer successfully placed, oldest first.
    pub sent: Ghost<Seq<Seq<u8>>>,
    /// Every frame the consumer took, oldest first.
    pub taken: Ghost<Seq<Seq<u8>>>,
}

impl SubscriberSink {
    /// The slot contents as a sequence of zero or one frames.
    pub open spec fn slot_frames(self) -> Seq<Seq<u8>> {
        match self.slot {
            Some(f) => seq![f@],
            None => seq![],
        }
    }

    /// Well-formedness: what was sent is exactly what was taken followed by
    /// what still waits in the slot.
    pub open spec fn wf(self) -> bool {
        self.sent@ == self.taken@ + self.slot_frames()
    }

    /// How many delivered frames the consumer has not yet taken.
    pub open spec fn undelivered(self) -> nat {
        self.slot_frames().len()
    }

    pub fn new() -> (s: SubscriberSink)
        ensures
            s.wf(),
            s.slot is None,
            !s.consumer_gone,
            !s.producer_gone,
            s.sent@ == Seq::<Seq<u8>>::empty(),
            s.taken@ == Seq::<Seq<u8>>::empty(),
    {
        let s = SubscriberSink {
            slot: None,
            consumer_gone: false,
            producer_gone: false,
            sent: Ghost(Seq::empty()),
            taken: Ghost(Seq::empty()),
        };
        proof {
            assert(s.sent@ =~= s.taken@ + s.slot_frames());
        }
        s
    }

    /// The producer side: place one frame into the slot. Fails, leaving the
    /// sink unchanged, when the consumer is gone or the slot is still full.
    pub fn send(&mut self, frame: EncodedFrame) -> (r: Result<(), SinkSendError>)
        requires
            old(self).wf(),
        ensures
            final(self).wf(),
            final(self).consumer_gone == old(self).consumer_gone,
            final(self).producer_gone == old(self).producer_gone,
            final(self).taken == old(self).taken,
            match r {
                Ok(()) => !old(self).consumer_gone && old(self).slot is None && final(self).slot == Some(frame) && final(self).sent@ == old(self).sent@.push(frame@),
                Err(SinkSendError::ConsumerGone) => old(self).consumer_gone && *final(self) == *old(self),
                Err(SinkSendError::SlotFull) => !old(self).consumer_gone && old(self).slot is Some
                    && *final(self) == *old(self),
            },
    {
        if self.consumer_gone {
            Err(SinkSendError::ConsumerGone)
        } else if self.slot.is_some() {
            Err(SinkSendError::SlotFull)
        } else {
            self.sent = Ghost(self.sent@.push(frame@));
            self.slot = Some(frame);
            proof {
                assert(self.sent@ =~= self.taken@ + self.slot_frames());
            }
            Ok(())
        }
    }

    /// The consumer side: take the waiting frame, or observe an empty slot
    /// or the end of the stream.
    pub fn recv(&mut self) -> (r: RecvOutcome)
        requires
            old(self).wf(),
        ensures
            final(self).wf(),
            final(self).consumer_gone == old(self).consumer_gone,
            final(self).producer_gone == old(self).producer_gone,
            final(self).sent == old(self).sent,
            match r {
                RecvOutcome::Frame(f) => old(self).slot == Some(f) && final(self).slot is None
                    && final(self).taken@ == old(self).taken@.push(f@),
                RecvOutcome::Empty => old(self).slot is None && !old(self).producer_gone && *final(self) == *old(self),
                RecvOutcome::Closed => old(self).slot is None && old(self).producer_gone && *final(self) == *old(self),
            },
    {
        let cur = self.slot.take();
        match cur {
            Some(f) => {
                self.taken = Ghost(self.taken@.push(f@));
                proof {
                    assert(self.sent@ =~= self.taken@ + self.slot_frames());
                }
                RecvOutcome::Frame(f)
            },
            None => {
                if self.producer_gone {
                    RecvOutcome::Closed
                } else {
                    RecvOutcome::Empty
                }
            },
        }
    }

    /// The consumer disappears: its peer connection ended or it was dropped.
    /// The next producer send will fail.
    pub fn close_consumer(&mut self)
        requires
            old(self).wf(),
        ensures
            final(self).wf(),
            final(self).consumer_gone,
            final(self).producer_gone == old(self).producer_gone,
            final(self).slot == old(self).slot,
            final(self).sent == old(self).sent,
            final(self).taken == old(self).taken,
    {
        self.consumer_gone = true;
    }

    /// The producer disappears: the worker evicted this sink or exited. A
    /// frame already in the slot can still be taken; after that the consumer
    /// observes the closed stream.
    pub fn close_producer(&mut self)
        requires
            old(self).wf(),
        ensures
            final(self).wf(),
            final(self).producer_gone,
            final(self).consumer_gone == old(self).consumer_gone,
            final(self).slot == old(self).slot,
            final(self).sent == old(self).sent,
            final(self).taken == old(self).taken,
    {
        self.producer_gone = true;
    }
}

/// Capacity law: the channel buffers at most one frame, so a slow consumer
/// is never more than one frame behind what was accepted for it.
pub proof fn lemma_sink_capacity(s: SubscriberSink)
    requires
        s.wf(),
    ensures
        s.taken@.len() <= s.sent@.len(),
        s.sent@.len() - s.taken@.len() <= 1,
        s.undelivered() <= 1,
{
}

/// Order law: the consumer takes frames in exactly the order the producer
/// sent them — what has been taken is the initial run of what was sent, with
/// no reordering, loss, or duplication in between.
pub proof fn lemma_sink_fifo(s: SubscriberSink)
    requires
        s.wf(),
    ensures
        s.taken@ == s.sent@.take(s.taken@.len() as int),
{
    assert(s.taken@ =~= s.sent@.take(s.taken@.len() as int));
}

} // verus!
