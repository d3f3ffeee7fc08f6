//! Channel disciplines of the pipeline.
//!
//! Outputs leave the pipeline through single-slot, latest-wins mailboxes:
//! publishing never blocks and silently drops the new value while the
//! consumer has not yet drained the previous one — freshness is favoured
//! over completeness, and a drop is policy, not a fault. Input frames arrive
//! on two independent legs; a cycle proceeds only once both legs have
//! yielded a frame, which the pairer makes an explicit synchronization step.

use vstd::prelude::*;

verus! {

/// Single-slot channel: holds at most one undelivered value.
pub struct Mailbox<T> {
    slot: Option<T>,
}

impl<T> View for Mailbox<T> {
    type V = Option<T>;

    closed spec fn view(&self) -> Option<T> {
        self.slot
    }
}

impl<T> Mailbox<T> {
    pub fn new() -> (m: Mailbox<T>)
        ensures
            m@ is None,
    {
        Mailbox { slot: None }
    }

    /// Non-blocking publish: the value is stored only into an empty slot;
    /// while the slot is occupied the new value is dropped unseen.
    pub fn offer(&mut self, v: T) -> (accepted: bool)
        ensures
            old(self)@ is None ==> final(self)@ == Some(v) && accepted,
            old(self)@ is Some ==> final(self)@ == old(self)@ && !accepted,
    {
        if self.slot.is_none() {
            self.slot = Some(v);
            true
        } else {
            false
        }
    }

    /// Drain the slot, leaving it empty.
    pub fn take(&mut self) -> (r: Option<T>)
        ensures
            r == old(self)@,
            final(self)@ is None,
    {
        self.slot.take()
    }
}

/// Synchronization point of the two capture legs: a cycle's frame pair is
/// released only once a left and a right frame are both present.
pub struct FramePairer<T> {
    left: Option<T>,
    right: Option<T>,
}

impl<T> View for FramePairer<T> {
    type V = (Option<T>, Option<T>);

    closed spec fn view(&self) -> (Option<T>, Option<T>) {
        (self.left, self.right)
    }
}

impl<T> FramePairer<T> {
    pub fn new() -> (p: FramePairer<T>)
        ensures
            p@ == (None::<T>, None::<T>),
    {
        FramePairer { left: None, right: None }
    }

    /// Hand the pairer a left-leg frame; it is kept only while no left frame
    /// is already waiting.
    pub fn offer_left(&mut self, v: T) -> (accepted: bool)
        ensures
            old(self)@.0 is None ==> final(self)@ == (Some(v), old(self)@.1) && accepted,
            old(self)@.0 is Some ==> final(self)@ == old(self)@ && !accepted,
    {
        if self.left.is_none() {
            self.left = Some(v);
            true
        } else {
            false
        }
    }

    /// Hand the pairer a right-leg frame; it is kept only while no right
    /// frame is already waiting.
    pub fn offer_right(&mut self, v: T) -> (accepted: bool)
        ensures
            old(self)@.1 is None ==> final(self)@ == (old(self)@.0, Some(v)) && accepted,
            old(self)@.1 is Some ==> final(self)@ == old(self)@ && !accepted,
    {
        if self.right.is_none() {
            self.right = Some(v);
            true
        } else {
            false
        }
    }

    /// Release a frame pair exactly when both legs have yielded one; the
    /// pairer is then empty again.
    pub fn take_pair(&mut self) -> (r: Option<(T, T)>)
        ensures
            old(self)@.0 is Some && old(self)@.1 is Some ==> r == Some(
                (old(self)@.0->Some_0, old(self)@.1->Some_0),
            ) && final(self)@ == (None::<T>, None::<T>),
            (old(self)@.0 is None || old(self)@.1 is None) ==> r is None && final(self)@ == old(
                self,
            )@,
    {
        if self.left.is_some() && self.right.is_some() {
            let l = self.left.take();
            let rr = self.right.take();
            Some((l.unwrap(), rr.unwrap()))
        } else {
            None
        }
    }
}

} // verus!
