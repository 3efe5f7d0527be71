//! The bounded FIFO hand-off between ingestion and dispatch. Capacity is
//! fixed; offering to a full queue is refused so the producer can suspend
//! and try again — back-pressure, never loss. Within one channel the
//! single consumer therefore sees messages in the order they were
//! accepted.

use vstd::prelude::*;

verus! {

/// One accepted inbound message, immutable once created: where it came
/// from, who wrote it, and what it said.
pub struct QueuedMessage {
    pub channel_id: u64,
    pub author_name: String,
    pub content: String,
}

/// The mathematical content of a `QueuedMessage`.
#[verifier::ext_equal]
pub struct MessageModel {
    pub channel_id: u64,
    pub author_name: Seq<char>,
    pub content: Seq<char>,
}

impl QueuedMessage {
    pub open spec fn model(&self) -> MessageModel {
        MessageModel {
            channel_id: self.channel_id,
            author_name: self.author_name@,
            content: self.content@,
        }
    }
}

pub open spec fn messages_model(s: Seq<QueuedMessage>) -> Seq<MessageModel> {
    s.map_values(|m: QueuedMessage| m.model())
}

/// What `enqueue` leaves pending: the message at the back when there is
/// room, the queue unchanged when it is full.
pub open spec fn spec_enqueue(
    pending: Seq<MessageModel>,
    capacity: nat,
    m: MessageModel,
) -> Seq<MessageModel> {
    if pending.len() < capacity {
        pending.push(m)
    } else {
        pending
    }
}

/// Whether `enqueue` accepts a message.
pub open spec fn spec_enqueue_accepted(pending: Seq<MessageModel>, capacity: nat) -> bool {
    pending.len() < capacity
}

/// What `dequeue` leaves pending: everything but the front.
pub open spec fn spec_dequeue(pending: Seq<MessageModel>) -> Seq<MessageModel> {
    if pending.len() > 0 {
        pending.drop_first()
    } else {
        pending
    }
}

/// Back-pressure, not loss: a full queue refuses an offer and keeps every
/// pending message; once one dequeue has made room, the next offer is
/// accepted at the back with all earlier messages still ahead of it in
/// order.
pub proof fn lemma_queue_backpressure(
    pending: Seq<MessageModel>,
    capacity: nat,
    refused: MessageModel,
    retried: MessageModel,
)
    requires
        capacity >= 1,
        pending.len() == capacity,
    ensures
        !spec_enqueue_accepted(pending, capacity),
        spec_enqueue(pending, capacity, refused) == pending,
        spec_enqueue_accepted(spec_dequeue(pending), capacity),
        spec_enqueue(spec_dequeue(pending), capacity, retried) == pending.drop_first().push(
            retried,
        ),
{
}

/// The bounded FIFO queue of accepted messages.
pub struct MessageQueue {
    pending: Vec<QueuedMessage>,
    capacity: usize,
}

impl MessageQueue {
    /// The pending messages, front first.
    pub closed spec fn pending(&self) -> Seq<MessageModel> {
        messages_model(self.pending@)
    }

    /// The fixed capacity.
    pub closed spec fn capacity(&self) -> nat {
        self.capacity as nat
    }

    pub closed spec fn wf(&self) -> bool {
        &&& self.capacity >= 1
        &&& self.pending@.len() <= self.capacity
    }

    /// An empty queue with the given capacity.
    pub fn with_capacity(capacity: usize) -> (r: MessageQueue)
        requires
            capacity >= 1,
        ensures
            r.wf(),
            r.pending() == Seq::<MessageModel>::empty(),
            r.capacity() == capacity as nat,
    {
        let r = MessageQueue { pending: Vec::new(), capacity };
        proof {
            assert(r.pending() =~= Seq::<MessageModel>::empty());
        }
        r
    }

    /// An empty queue with the default capacity of 100 pending messages.
    pub fn new() -> (r: MessageQueue)
        ensures
            r.wf(),
            r.pending() == Seq::<MessageModel>::empty(),
            r.capacity() == 100,
    {
        MessageQueue::with_capacity(100)
    }

    /// How many messages are pending.
    pub fn len(&self) -> (n: usize)
        ensures
            n as nat == self.pending().len(),
    {
        self.pending.len()
    }

    /// Offers a message. Accepted at the back when there is room; refused,
    /// with the queue unchanged and the message handed back, when the
    /// queue is full — the caller suspends and offers again later.
    pub fn enqueue(&mut self, m: QueuedMessage) -> (r: Result<(), QueuedMessage>)
        requires
            old(self).wf(),
        ensures
            final(self).wf(),
            final(self).capacity() == old(self).capacity(),
            final(self).pending() == spec_enqueue(
                old(self).pending(),
                old(self).capacity(),
                m.model(),
            ),
            match r {
                Ok(()) => spec_enqueue_accepted(old(self).pending(), old(self).capacity()),
                Err(back) => !spec_enqueue_accepted(old(self).pending(), old(self).capacity())
                    && back == m,
            },
    {
        if self.pending.len() < self.capacity {
            let ghost p0 = self.pending@;
            self.pending.push(m);
            proof {
                assert(messages_model(self.pending@) =~~= messages_model(p0).push(m.model()));
            }
            Ok(())
        } else {
            Err(m)
        }
    }

    /// Takes the front message, if any is pending.
    pub fn dequeue(&mut self) -> (r: Option<QueuedMessage>)
        requires
            old(self).wf(),
        ensures
            final(self).wf(),
            final(self).capacity() == old(self).capacity(),
            final(self).pending() == spec_dequeue(old(self).pending()),
            match r {
                Some(front) => old(self).pending().len() > 0 && front.model() == old(
                    self,
                ).pending()[0],
                None => old(self).pending().len() == 0,
            },
    {
        if self.pending.len() == 0 {
            None
        } else {
            let ghost p0 = self.pending@;
            let front = self.pending.remove(0);
            proof {
                assert(messages_model(self.pending@) =~~= messages_model(p0).drop_first());
            }
            Some(front)
        }
    }
}

} // verus!
