//! The update channel: a bounded, single-slot handoff from the sampler to
//! the tray updater.
//!
//! This is the synchronous model of the capacity-1 channel: a send on a full
//! slot reports `WouldBlock` and changes nothing — the sending side blocks,
//! in the real loop, until the consumer drains the slot — so a slow consumer
//! causes backpressure rather than unbounded buffering. A send after the
//! receiver is gone reports `Disconnected`, on which the sampler shuts its
//! loop down cleanly.

use vstd::prelude::*;
use crate::sample::BatterySample;

verus! {

/// Outcome of a non-blocking send.
#[derive(Clone, Copy, Debug, PartialEq, Eq, Structural)]
pub enum SendOutcome {
    /// The sample now occupies the slot.
    Sent,
    /// The slot was already full; nothing changed and the sender must wait.
    WouldBlock,
    /// The receiver is gone; nothing changed and the sender should stop.
    Disconnected,
}

/// A capacity-1 channel carrying the latest battery sample.
pub struct UpdateChannel {
    slot: Option<BatterySample>,
    receiver_open: bool,
}

impl UpdateChannel {
    /// The sample waiting in the slot, if any.
    pub closed spec fn pending(&self) -> Option<BatterySample> {
        self.slot
    }

    /// Whether the receiving side is still there.
    pub closed spec fn is_open(&self) -> bool {
        self.receiver_open
    }

    /// A fresh, empty, open channel.
    pub fn new() -> (r: Self)
        ensures
            r.pending() is None,
            r.is_open(),
    {
        UpdateChannel { slot: None, receiver_open: true }
    }

    /// One send attempt. On a full slot the sample is not stored and the
    /// channel is unchanged: the sender gets backpressure, not a queue.
    pub fn try_send(&mut self, sample: BatterySample) -> (r: SendOutcome)
        ensures
            !old(self).is_open() ==> r == SendOutcome::Disconnected && *final(self) == *old(self),
            old(self).is_open() && old(self).pending() is Some ==> r == SendOutcome::WouldBlock
                && *final(self) == *old(self),
            old(self).is_open() && old(self).pending() is None ==> r == SendOutcome::Sent
                && final(self).pending() == Some(sample) && final(self).is_open(),
    {
        if !self.receiver_open {
            SendOutcome::Disconnected
        } else {
            match self.slot {
                Some(_) => SendOutcome::WouldBlock,
                None => {
                    self.slot = Some(sample);
                    SendOutcome::Sent
                },
            }
        }
    }

    /// The consumer takes the pending sample, freeing the slot.
    pub fn recv(&mut self) -> (r: Option<BatterySample>)
        ensures
            r == old(self).pending(),
            final(self).pending() is None,
            final(self).is_open() == old(self).is_open(),
    {
        let taken = self.slot;
        self.slot = None;
        taken
    }

    /// The receiving side goes away; a pending sample stays undelivered.
    pub fn close(&mut self)
        ensures
            !final(self).is_open(),
            final(self).pending() == old(self).pending(),
    {
        self.receiver_open = false;
    }
}

} // verus!
