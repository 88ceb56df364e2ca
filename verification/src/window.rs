//! The bounded admission window: at most `limit` tasks in flight in one
//! pipeline stage; a new task is admitted only after a completion is
//! observed once the window is full.

use vstd::prelude::*;

verus! {

/// The admission window of one pipeline stage.
pub struct AdmissionWindow {
    /// The concurrency bound the stage was given.
    pub limit: usize,
    /// How many tasks are in flight now.
    pub in_flight: usize,
}

impl AdmissionWindow {
    /// The window never holds more than its bound.
    pub open spec fn wf(&self) -> bool {
        self.in_flight <= self.limit
    }

    /// Opens an empty window with bound `limit`.
    pub fn new(limit: usize) -> (w: AdmissionWindow)
        requires
            limit >= 1,
        ensures
            w.wf(),
            w.limit == limit,
            w.in_flight == 0,
    {
        AdmissionWindow { limit, in_flight: 0 }
    }

    /// Whether the window is at its bound: the stage must then observe a
    /// completion before admitting the next task.
    pub fn is_full(&self) -> (b: bool)
        ensures
            b == (self.in_flight == self.limit),
    {
        self.in_flight == self.limit
    }

    /// Lets one task in; only allowed below the bound.
    pub fn enter(&mut self)
        requires
            old(self).wf(),
            old(self).in_flight < old(self).limit,
        ensures
            final(self).wf(),
            final(self).in_flight == old(self).in_flight + 1,
            final(self).limit == old(self).limit,
    {
        self.in_flight = self.in_flight + 1;
    }

    /// Observes one completion; only meaningful with a task in flight.
    pub fn complete(&mut self)
        requires
            old(self).wf(),
            old(self).in_flight > 0,
        ensures
            final(self).wf(),
            final(self).in_flight == old(self).in_flight - 1,
            final(self).limit == old(self).limit,
    {
        self.in_flight = self.in_flight - 1;
    }
}

/// One observable scheduling event of a stage.
pub enum WindowEvent {
    /// A task was spawned into the window.
    Admit,
    /// An in-flight task was observed to complete.
    Complete,
}

/// The number of tasks in flight after a trace of events.
pub open spec fn net_in_flight(t: Seq<WindowEvent>) -> int
    decreases t.len(),
{
    if t.len() == 0 {
        0
    } else {
        net_in_flight(t.drop_last()) + (if t.last() is Admit {
            1int
        } else {
            -1int
        })
    }
}

/// The admission discipline: a task is admitted only while the window is
/// below its bound, and a completion is observed only with a task in
/// flight.
pub open spec fn trace_admissible(limit: int, t: Seq<WindowEvent>) -> bool {
    forall|i: int|
        0 <= i < t.len() ==> {
            &&& (t[i] is Admit ==> net_in_flight(#[trigger] t.take(i)) < limit)
            &&& (t[i] is Complete ==> net_in_flight(t.take(i)) > 0)
        }
}

/// Law: under the admission discipline, at no point of the trace are more
/// than `limit` tasks in flight — and never fewer than none.
pub proof fn lemma_window_bounded(limit: int, t: Seq<WindowEvent>, i: int)
    requires
        trace_admissible(limit, t),
        0 <= i <= t.len(),
        limit >= 0,
    ensures
        0 <= net_in_flight(t.take(i)) <= limit,
    decreases i,
{
    if i == 0 {
        assert(t.take(0) =~= Seq::<WindowEvent>::empty());
    } else {
        lemma_window_bounded(limit, t, i - 1);
        assert(t.take(i).drop_last() =~= t.take(i - 1));
        assert(t.take(i).last() == t[i - 1]);
    }
}

} // verus!
