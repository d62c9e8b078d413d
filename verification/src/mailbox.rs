//! The bounded per-window mailbox.
//!
//! Each window worker owns one mailbox; the dispatcher and any handle holder
//! produce into it. Delivery is non-blocking with a drop-on-overflow policy:
//! a stalled window degrades to event loss instead of stalling the thread
//! that drives the platform. Messages that are accepted are consumed in FIFO
//! order by the one worker owning the mailbox.

use vstd::prelude::*;

use crate::event::WindowMessage;

verus! {

/// The number of slots a window's mailbox is created with: enough to absorb
/// event bursts without unbounded memory growth from a stalled worker.
pub const MAILBOX_CAPACITY: usize = 65536;

/// The mathematical model of a mailbox: its queued messages in order, its
/// bound, whether its consumer is still attached, and how many messages have
/// been lost to overflow.
#[verifier::ext_equal]
pub ghost struct MailboxModel<T> {
    /// The queued messages, oldest first.
    pub messages: Seq<WindowMessage<T>>,
    /// The fixed number of slots.
    pub capacity: nat,
    /// False once the consuming worker has detached.
    pub connected: bool,
    /// How many messages overflow has discarded (a saturating tally).
    pub dropped: nat,
}

/// What became of one non-blocking send.
#[derive(Clone, Copy, PartialEq, Eq, Structural, Debug)]
pub enum SendStatus {
    /// The message was enqueued.
    Sent,
    /// The mailbox was full; the message was discarded.
    Full,
    /// The consumer is gone; the mailbox will never be read again.
    Disconnected,
}

/// The model after a non-blocking send of `message`: unchanged when the
/// consumer is gone, the overflow tally raised (saturating) when full, and
/// the message appended otherwise.
pub open spec fn try_send_model<T>(
    m: MailboxModel<T>,
    message: WindowMessage<T>,
) -> MailboxModel<T> {
    if !m.connected {
        m
    } else if m.messages.len() >= m.capacity {
        MailboxModel {
            dropped: if m.dropped < u64::MAX { m.dropped + 1 } else { m.dropped },
            ..m
        }
    } else {
        MailboxModel { messages: m.messages.push(message), ..m }
    }
}

/// The status a non-blocking send of one more message reports for model `m`.
pub open spec fn try_send_status<T>(m: MailboxModel<T>) -> SendStatus {
    if !m.connected {
        SendStatus::Disconnected
    } else if m.messages.len() >= m.capacity {
        SendStatus::Full
    } else {
        SendStatus::Sent
    }
}

/// A bounded, drop-on-overflow FIFO queue of routed window messages.
pub struct Mailbox<T> {
    queue: Vec<WindowMessage<T>>,
    capacity: usize,
    connected: bool,
    dropped: u64,
}

impl<T> Mailbox<T> {
    /// The model of this mailbox.
    pub closed spec fn model(self) -> MailboxModel<T> {
        MailboxModel {
            messages: self.queue@,
            capacity: self.capacity as nat,
            connected: self.connected,
            dropped: self.dropped as nat,
        }
    }

    /// The mailbox never holds more messages than its capacity.
    pub closed spec fn wf(self) -> bool {
        self.queue@.len() <= self.capacity
    }

    /// Creates an empty, connected mailbox with the given number of slots.
    pub fn new(capacity: usize) -> (r: Mailbox<T>)
        ensures
            r.wf(),
            r.model() == (MailboxModel::<T> {
                messages: Seq::empty(),
                capacity: capacity as nat,
                connected: true,
                dropped: 0,
            }),
    {
        let r = Mailbox { queue: Vec::new(), capacity, connected: true, dropped: 0 };
        proof {
            assert(r.model() =~= MailboxModel::<T> {
                messages: Seq::empty(),
                capacity: capacity as nat,
                connected: true,
                dropped: 0,
            });
        }
        r
    }

    /// The number of queued messages.
    pub fn len(&self) -> (r: usize)
        ensures
            r == self.model().messages.len(),
    {
        self.queue.len()
    }

    /// The number of slots.
    pub fn capacity(&self) -> (r: usize)
        ensures
            r == self.model().capacity,
    {
        self.capacity
    }

    /// True while the consuming worker is still attached.
    pub fn is_connected(&self) -> (r: bool)
        ensures
            r == self.model().connected,
    {
        self.connected
    }

    /// How many messages overflow has discarded (saturating).
    pub fn dropped_count(&self) -> (r: u64)
        ensures
            r == self.model().dropped,
    {
        self.dropped
    }

    /// Enqueues `message` without blocking: discards it when the mailbox is
    /// full, and reports a disconnected mailbox without change.
    pub fn try_send(&mut self, message: WindowMessage<T>) -> (r: SendStatus)
        requires
            old(self).wf(),
        ensures
            final(self).wf(),
            r == try_send_status(old(self).model()),
            final(self).model() == try_send_model(old(self).model(), message),
    {
        if !self.connected {
            SendStatus::Disconnected
        } else if self.queue.len() >= self.capacity {
            if self.dropped < u64::MAX {
                self.dropped = self.dropped + 1;
            }
            proof {
                assert(self.model() =~= try_send_model(old(self).model(), message));
            }
            SendStatus::Full
        } else {
            self.queue.push(message);
            proof {
                assert(self.model() =~= try_send_model(old(self).model(), message));
            }
            SendStatus::Sent
        }
    }

    /// Removes and returns the oldest queued message, if any.
    pub fn pop(&mut self) -> (r: Option<WindowMessage<T>>)
        requires
            old(self).wf(),
        ensures
            final(self).wf(),
            old(self).model().messages.len() == 0 ==> r is None && *final(self) == *old(self),
            old(self).model().messages.len() > 0 ==> ({
                &&& r == Some(old(self).model().messages[0])
                &&& final(self).model() == (MailboxModel {
                    messages: old(self).model().messages.drop_first(),
                    ..old(self).model()
                })
            }),
    {
        if self.queue.len() == 0 {
            None
        } else {
            let message = self.queue.remove(0);
            proof {
                assert(self.model() =~= MailboxModel {
                    messages: old(self).model().messages.drop_first(),
                    ..old(self).model()
                });
            }
            Some(message)
        }
    }

    /// Detaches the consumer: later sends report `Disconnected`.
    pub fn disconnect(&mut self)
        requires
            old(self).wf(),
        ensures
            final(self).wf(),
            final(self).model() == (MailboxModel { connected: false, ..old(self).model() }),
    {
        self.connected = false;
        proof {
            assert(self.model() =~= MailboxModel { connected: false, ..old(self).model() });
        }
    }
}

} // verus!
