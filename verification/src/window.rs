//! Bounded window of raw delay estimates feeding the smoothing stage.
//!
//! The pipeline appends one refined delay per cycle. The window keeps at most
//! the 120 most recent entries, evicting the oldest first, and the smoothing
//! filter runs only once at least 10 entries are present.

use vstd::prelude::*;

verus! {

/// Greatest number of raw delay estimates the window retains.
pub open spec fn window_capacity() -> int {
    120
}

/// Number of entries that must be present before smoothing emits an output.
pub open spec fn window_min_fill() -> int {
    10
}

/// One insertion, at the specification level: append the new entry, evicting
/// the oldest one when the window is already full.
pub open spec fn window_pushed<T>(s: Seq<T>, v: T) -> Seq<T> {
    if s.len() < window_capacity() {
        s.push(v)
    } else {
        s.subrange(1, s.len() as int).push(v)
    }
}

/// Bounded FIFO of raw delay estimates, owned by the pipeline thread for the
/// process lifetime.
pub struct DelayWindow<T> {
    entries: Vec<T>,
}

impl<T> View for DelayWindow<T> {
    type V = Seq<T>;

    closed spec fn view(&self) -> Seq<T> {
        self.entries@
    }
}

impl<T> DelayWindow<T> {
    /// The window never holds more entries than its capacity.
    pub closed spec fn wf(&self) -> bool {
        self@.len() <= window_capacity()
    }

    pub fn new() -> (w: DelayWindow<T>)
        ensures
            w@ == Seq::<T>::empty(),
            w.wf(),
    {
        DelayWindow { entries: Vec::new() }
    }

    /// Append one raw delay estimate; when the window is full the oldest
    /// entry is evicted first.
    pub fn push(&mut self, v: T)
        requires
            old(self).wf(),
        ensures
            final(self).wf(),
            final(self)@ == window_pushed(old(self)@, v),
    {
        if self.entries.len() == 120 {
            let _ = self.entries.remove(0);
        }
        self.entries.push(v);
    }

    pub fn len(&self) -> (n: usize)
        ensures
            n == self@.len(),
    {
        self.entries.len()
    }

    /// Whether enough entries are present for the smoothing filter to emit.
    pub fn is_ready(&self) -> (r: bool)
        ensures
            r == (self@.len() >= window_min_fill()),
    {
        self.entries.len() >= 10
    }

    /// The retained estimates, oldest first, for the smoothing filter and for
    /// read-only snapshots.
    pub fn entries(&self) -> (r: &Vec<T>)
        ensures
            r@ == self@,
    {
        &self.entries
    }
}

/// Law of the smoothing cadence: under continuous insertion the window never
/// exceeds its capacity, each insertion grows it by one until the capacity is
/// reached, and the window is ready exactly when the insertion is the tenth
/// or a later one. Hence the first smoothed output comes with the tenth raw
/// entry and exactly one with every insertion after that.
pub proof fn lemma_window_emission<T>(s: Seq<T>, v: T)
    requires
        s.len() <= window_capacity(),
    ensures
        window_pushed(s, v).len() <= window_capacity(),
        s.len() < window_capacity() ==> window_pushed(s, v).len() == s.len() + 1,
        s.len() == window_capacity() ==> window_pushed(s, v).len() == window_capacity(),
        window_pushed(s, v).len() >= window_min_fill() <==> s.len() + 1 >= window_min_fill(),
        s.len() >= window_min_fill() ==> window_pushed(s, v).len() >= window_min_fill(),
{
}

} // verus!
