//! Ordered progress reporting.
//!
//! Stage updates travel from the acquisition pipeline to the single
//! status-message editor through a bounded channel: several producers,
//! one consumer.  The model here is the channel's queue discipline;
//! the waiting, the task that consumes, and the message edits live with
//! the driver.  Per producer, total send order is preserved; edit
//! failures at the consumer are swallowed, never propagated.

use vstd::prelude::*;

verus! {

/// The in-flight bound the delivery path uses: a backpressure choice,
/// not a hard contract.
pub const DEFAULT_PROGRESS_CAPACITY: usize = 16;

/// A bounded first-in-first-out channel of status strings, with the
/// full send and receive history alongside as ghost state.
pub struct ProgressChannel {
    buffer: Vec<String>,
    capacity: usize,
    sent: Ghost<Seq<Seq<char>>>,
    received: Ghost<Seq<Seq<char>>>,
}

impl ProgressChannel {
    /// Everything accepted was either handed out or is still pending,
    /// in order.
    pub closed spec fn wf(&self) -> bool {
        self.received@ + self.buffer.deep_view() == self.sent@
    }

    /// All messages accepted so far, oldest first.
    pub closed spec fn sent_log(&self) -> Seq<Seq<char>> {
        self.sent@
    }

    /// All messages handed to the consumer so far, oldest first.
    pub closed spec fn received_log(&self) -> Seq<Seq<char>> {
        self.received@
    }

    /// Messages accepted and not yet consumed, oldest first.
    pub closed spec fn pending(&self) -> Seq<Seq<char>> {
        self.buffer.deep_view()
    }

    /// How many messages may be in flight at once.
    pub closed spec fn spec_capacity(&self) -> usize {
        self.capacity
    }

    /// An empty channel admitting `capacity` in-flight messages.
    pub fn new(capacity: usize) -> (r: Self)
        ensures
            r.wf(),
            r.sent_log() == Seq::<Seq<char>>::empty(),
            r.received_log() == Seq::<Seq<char>>::empty(),
            r.spec_capacity() == capacity,
    {
        let r = ProgressChannel {
            buffer: Vec::new(),
            capacity,
            sent: Ghost(Seq::empty()),
            received: Ghost(Seq::empty()),
        };
        proof {
            assert(r.received@ + r.buffer.deep_view() =~= r.sent@);
        }
        r
    }

    /// Offers a message to the channel.  A full channel refuses it and
    /// is left unchanged: whether to wait for room is the caller's
    /// affair.
    pub fn send(&mut self, message: String) -> (accepted: bool)
        requires
            old(self).wf(),
        ensures
            final(self).wf(),
            accepted == (old(self).pending().len() < old(self).spec_capacity()),
            accepted ==> final(self).sent_log() == old(self).sent_log().push(message@)
                && final(self).received_log() == old(self).received_log()
                && final(self).pending() == old(self).pending().push(message@),
            !accepted ==> final(self).sent_log() == old(self).sent_log()
                && final(self).received_log() == old(self).received_log() && final(self).pending()
                == old(self).pending(),
            final(self).spec_capacity() == old(self).spec_capacity(),
    {
        if self.buffer.len() < self.capacity {
            let ghost message_view = message@;
            self.buffer.push(message);
            proof {
                self.sent@ = self.sent@.push(message_view);
                assert(self.buffer.deep_view() =~= old(self).buffer.deep_view().push(message_view));
                assert(self.received@ + self.buffer.deep_view() =~= self.sent@);
                assert(self.pending() =~= old(self).pending().push(message_view));
            }
            true
        } else {
            false
        }
    }

    /// Hands the oldest pending message to the consumer; `None` when
    /// nothing is pending.
    pub fn recv(&mut self) -> (r: Option<String>)
        requires
            old(self).wf(),
        ensures
            final(self).wf(),
            old(self).pending().len() == 0 ==> r is None && *final(self) == *old(self),
            old(self).pending().len() > 0 ==> (r matches Some(m) && m@ == old(self).pending()[0]
                && final(self).received_log() == old(self).received_log().push(m@)
                && final(self).pending() == old(self).pending().drop_first()
                && final(self).sent_log() == old(self).sent_log()),
            final(self).spec_capacity() == old(self).spec_capacity(),
    {
        if self.buffer.len() == 0 {
            None
        } else {
            let message = self.buffer.remove(0);
            let ghost message_view = message@;
            proof {
                self.received@ = self.received@.push(message_view);
                assert(self.buffer.deep_view() =~= old(self).buffer.deep_view().drop_first());
                assert(self.received@ + self.buffer.deep_view() =~= self.sent@);
            }
            Some(message)
        }
    }
}

/// Law: the consumer observes a producer's messages in send order — at
/// every point the receive history is exactly the consumed prefix of
/// the send history.
pub proof fn lemma_receive_order(ch: &ProgressChannel)
    requires
        ch.wf(),
    ensures
        ch.received_log().len() <= ch.sent_log().len(),
        ch.received_log() == ch.sent_log().take(ch.received_log().len() as int),
        forall|i: int|
            0 <= i < ch.received_log().len() ==> ch.received_log()[i] == ch.sent_log()[i],
{
    assert(ch.received_log() =~= ch.sent_log().take(ch.received_log().len() as int));
}

} // verus!
