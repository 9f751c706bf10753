//! The reconciliation loop's bookkeeping: one discovery per tick, one task per
//! candidate, and no new discovery until every task of the cycle has finished.
use vstd::prelude::*;

verus! {

#[derive(Clone, Copy, Debug, PartialEq, Eq, Structural)]
pub enum Phase {
    /// Waiting for the next tick.
    Idle,
    /// A discovery call is under way.
    Discovering,
    /// Tasks of the current cycle are still running.
    Running,
}

/// What the loop is to do next.
#[derive(Clone, Copy, Debug, PartialEq, Eq, Structural)]
pub enum CycleAction {
    /// List the candidates; answer with `on_discovered`.
    Discover,
    /// Start one task per candidate; answer each one's end with `on_task_finished`.
    Spawn(usize),
    /// Wait for the next tick; answer with `on_tick`.
    AwaitTick,
}

/// The state of the loop: its phase and how many tasks of the current cycle
/// have not finished.
#[derive(Clone, Copy, Debug, PartialEq, Eq, Structural)]
pub struct Cycle {
    pub phase: Phase,
    pub outstanding: usize,
}

impl Cycle {
    pub open spec fn wf(&self) -> bool {
        (self.phase == Phase::Running) == (self.outstanding > 0)
    }

    pub fn new() -> (r: Cycle)
        ensures
            r.wf(),
            r.phase == Phase::Idle,
            r.outstanding == 0,
    {
        Cycle { phase: Phase::Idle, outstanding: 0 }
    }

    /// A tick starts a discovery only when the previous cycle is over; a tick
    /// that comes while tasks still run is not acted upon.
    pub fn on_tick(&mut self) -> (r: Option<CycleAction>)
        requires
            old(self).wf(),
        ensures
            final(self).wf(),
            old(self).phase == Phase::Idle ==> r == Some(CycleAction::Discover) && final(self).phase == Phase::Discovering
                && final(self).outstanding == 0,
            old(self).phase != Phase::Idle ==> r is None && *final(self) == *old(self),
            r == Some(CycleAction::Discover) ==> old(self).outstanding == 0,
    {
        if self.phase == Phase::Idle {
            self.phase = Phase::Discovering;
            Some(CycleAction::Discover)
        } else {
            None
        }
    }

    /// Discovery found `count` candidates: one task each, or straight back to
    /// waiting when there is none.
    pub fn on_discovered(&mut self, count: usize) -> (r: Option<CycleAction>)
        requires
            old(self).wf(),
        ensures
            final(self).wf(),
            old(self).phase != Phase::Discovering ==> r is None && *final(self) == *old(self),
            old(self).phase == Phase::Discovering && count == 0 ==> r == Some(CycleAction::AwaitTick)
                && final(self).phase == Phase::Idle,
            old(self).phase == Phase::Discovering && count > 0 ==> r == Some(CycleAction::Spawn(count))
                && final(self).phase == Phase::Running && final(self).outstanding == count,
    {
        if self.phase != Phase::Discovering {
            return None;
        }
        if count == 0 {
            self.phase = Phase::Idle;
            Some(CycleAction::AwaitTick)
        } else {
            self.phase = Phase::Running;
            self.outstanding = count;
            Some(CycleAction::Spawn(count))
        }
    }

    /// One task of the cycle finished, whether it succeeded or failed. The
    /// last one to finish ends the cycle.
    pub fn on_task_finished(&mut self) -> (r: Option<CycleAction>)
        requires
            old(self).wf(),
        ensures
            final(self).wf(),
            old(self).phase != Phase::Running ==> r is None && *final(self) == *old(self),
            old(self).phase == Phase::Running ==> final(self).outstanding == old(self).outstanding - 1,
            old(self).phase == Phase::Running && old(self).outstanding == 1 ==> r == Some(CycleAction::AwaitTick)
                && final(self).phase == Phase::Idle,
            old(self).phase == Phase::Running && old(self).outstanding > 1 ==> r is None
                && final(self).phase == Phase::Running,
    {
        if self.phase != Phase::Running {
            return None;
        }
        self.outstanding = self.outstanding - 1;
        if self.outstanding == 0 {
            self.phase = Phase::Idle;
            Some(CycleAction::AwaitTick)
        } else {
            None
        }
    }
}

} // verus!
