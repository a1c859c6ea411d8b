//! Tracks tasks, so that a shutdown can wait for them to end.
//!
//! Stanzas under way, delivery receipts above all, must be out before the transport is closed.

use vstd::prelude::*;

verus! {

/// The tasks that are under way, and whether more may join them.
#[derive(Clone, Copy, Debug, PartialEq, Eq, Structural)]
pub struct FlushScope {
    pub count: usize,
    pub closed: bool,
}

/// What a flush does next.
#[derive(Clone, Copy, Debug, PartialEq, Eq, Structural)]
pub enum FlushStep {
    /// Every task has ended.
    Done,
    /// Wait for the scope to become idle, for this long at the most.
    Wait(u64),
    /// Give up; this many tasks are still under way.
    TimedOut(usize),
}

/// What happens to a scope.
#[derive(Clone, Copy, Debug, PartialEq, Eq, Structural)]
pub enum ScopeEvent {
    Close,
    Reopen,
    Spawn,
    /// A task has ended, or was dropped.
    End,
}

impl FlushScope {
    /// The scope after an event.
    pub open spec fn after(self, event: ScopeEvent) -> FlushScope {
        match event {
            ScopeEvent::Close => FlushScope { closed: true, ..self },
            ScopeEvent::Reopen => FlushScope { closed: false, ..self },
            ScopeEvent::Spawn => if self.closed {
                self
            } else {
                FlushScope { count: (self.count + 1) as usize, ..self }
            },
            ScopeEvent::End => FlushScope { count: (self.count - 1) as usize, ..self },
        }
    }

    /// The scope after a run of events.
    pub open spec fn run(self, events: Seq<ScopeEvent>) -> FlushScope
        decreases events.len(),
    {
        if events.len() == 0 {
            self
        } else {
            self.run(events.drop_last()).after(events.last())
        }
    }

    pub fn new() -> (r: FlushScope)
        ensures
            r == (FlushScope { count: 0, closed: false }),
    {
        FlushScope { count: 0, closed: false }
    }

    /// Lets no more tasks in.
    pub fn close(&mut self)
        ensures
            *final(self) == old(self).after(ScopeEvent::Close),
    {
        self.closed = true;
    }

    /// Lets tasks in again.
    pub fn reopen(&mut self)
        ensures
            *final(self) == old(self).after(ScopeEvent::Reopen),
    {
        self.closed = false;
    }

    /// Lets a task in, unless the scope is closed. The task may run only if it was let in.
    pub fn spawn(&mut self) -> (r: bool)
        requires
            old(self).count < usize::MAX,
        ensures
            r == !old(self).closed,
            *final(self) == old(self).after(ScopeEvent::Spawn),
    {
        if self.closed {
            return false;
        }
        self.count = self.count + 1;
        true
    }

    /// Counts a task that has ended. Tells whether it was the last one, so that those who wait
    /// for the scope are to be woken.
    pub fn task_ended(&mut self) -> (r: bool)
        requires
            old(self).count > 0,
        ensures
            r == (final(self).count == 0),
            *final(self) == old(self).after(ScopeEvent::End),
    {
        self.count = self.count - 1;
        self.count == 0
    }

    /// Whether there is nothing to wait for.
    pub fn wait_idle(&self) -> (r: bool)
        ensures
            r == (self.count == 0),
    {
        self.count == 0
    }

    /// What to do in a flush with a given time left.
    pub fn flush(&self, remaining_ms: u64) -> (r: FlushStep)
        ensures
            r == (if self.count == 0 {
                FlushStep::Done
            } else if remaining_ms == 0 {
                FlushStep::TimedOut(self.count)
            } else {
                FlushStep::Wait(remaining_ms)
            }),
    {
        if self.count == 0 {
            FlushStep::Done
        } else if remaining_ms == 0 {
            FlushStep::TimedOut(self.count)
        } else {
            FlushStep::Wait(remaining_ms)
        }
    }

    /// How many tasks are under way.
    pub fn pending(&self) -> (r: usize)
        ensures
            r == self.count,
    {
        self.count
    }
}

impl Default for FlushScope {
    fn default() -> (r: FlushScope)
        ensures
            r == (FlushScope { count: 0, closed: false }),
    {
        FlushScope::new()
    }
}

/// Whether no event opens a scope.
pub open spec fn never_reopens(events: Seq<ScopeEvent>) -> bool {
    forall|i: int| 0 <= i < events.len() ==> #[trigger] events[i] != ScopeEvent::Reopen
}

/// Whether no more tasks end than are under way.
pub open spec fn ends_are_matched(scope: FlushScope, events: Seq<ScopeEvent>) -> bool {
    forall|i: int|
        0 <= i < events.len() && #[trigger] events[i] == ScopeEvent::End ==> scope.run(
            events.take(i),
        ).count > 0
}

/// Once a scope is closed, the number of its tasks only falls until it is opened again: nothing
/// gets past a shutdown.
pub proof fn closed_scope_only_drains(scope: FlushScope, events: Seq<ScopeEvent>)
    requires
        scope.closed,
        never_reopens(events),
        ends_are_matched(scope, events),
    ensures
        scope.run(events).closed,
        scope.run(events).count <= scope.count,
    decreases events.len(),
{
    if events.len() > 0 {
        let front = events.drop_last();
        assert(never_reopens(front)) by {
            assert forall|i: int| 0 <= i < front.len() implies #[trigger] front[i]
                != ScopeEvent::Reopen by {
                assert(events[i] != ScopeEvent::Reopen);
            }
        }
        assert(ends_are_matched(scope, front)) by {
            assert forall|i: int|
                0 <= i < front.len() && #[trigger] front[i] == ScopeEvent::End implies scope.run(
                front.take(i),
            ).count > 0 by {
                assert(events[i] == ScopeEvent::End);
                assert(front.take(i) =~= events.take(i));
            }
        }
        closed_scope_only_drains(scope, front);
        let last = events.len() - 1;
        assert(events[last] == events.last());
        assert(events.take(last) =~= front);
        assert(events.last() != ScopeEvent::Reopen);
    }
}

/// A task that is let in and ends leaves the scope as it was.
pub proof fn ended_task_leaves_no_trace(scope: FlushScope)
    requires
        !scope.closed,
        scope.count < usize::MAX,
    ensures
        scope.after(ScopeEvent::Spawn).after(ScopeEvent::End) == scope,
{
}

/// Tasks are counted one by one: one more when a task is let in, one less when it ends. A closed
/// scope lets none in. Closing and opening a scope change nothing for the tasks in it.
pub proof fn tasks_are_counted(scope: FlushScope, event: ScopeEvent)
    requires
        0 < scope.count < usize::MAX,
    ensures
        event == ScopeEvent::Spawn && !scope.closed ==> scope.after(event).count == scope.count + 1,
        event == ScopeEvent::Spawn && scope.closed ==> scope.after(event) == scope,
        event == ScopeEvent::End ==> scope.after(event).count == scope.count - 1,
        event == ScopeEvent::Spawn || event == ScopeEvent::End ==> scope.after(event).closed
            == scope.closed,
        event == ScopeEvent::Close ==> scope.after(event).closed,
        event == ScopeEvent::Reopen ==> !scope.after(event).closed,
        event == ScopeEvent::Close || event == ScopeEvent::Reopen ==> scope.after(event).count
            == scope.count,
{
}

} // verus!
