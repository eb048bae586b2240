use crate::span::Span;
use vstd::prelude::*;

verus! {

/// The group's closed flag, shared between the group, the task that reacts to
/// the close signal, and every waiter. Once set it is never cleared.
#[derive(Debug)]
pub struct CloseFlag {
    closed: bool,
}

/// What a waiter does next, given the flag and the time it has waited.
#[derive(Clone, Copy, Debug, PartialEq, Eq, Structural)]
pub enum WaitAction {
    /// Stop waiting and report this value: `true` once the group is closed,
    /// `false` when the time allowed ran out first.
    Done(bool),
    /// Block until woken, with no deadline.
    Block,
    /// Block until woken or until this much more time has passed.
    BlockFor(Span),
}

impl CloseFlag {
    pub closed spec fn is_set(&self) -> bool {
        self.closed
    }

    /// A flag that is not yet set.
    pub fn new() -> (r: CloseFlag)
        ensures
            !r.is_set(),
    {
        CloseFlag { closed: false }
    }

    /// Whether the group has been closed.
    pub fn is_closed(&self) -> (r: bool)
        ensures
            r == self.is_set(),
    {
        self.closed
    }

    /// Records the close. The signal arriving and its sender going away
    /// without sending are both a close: either way the flag is set, and the
    /// caller then wakes every waiter.
    pub fn mark_closed(&mut self)
        ensures
            final(self).is_set(),
    {
        self.closed = true;
    }

    /// One step of waiting for the close. `limit` is the longest wait
    /// allowed (`None`: no limit) and `elapsed` the time waited so far.
    ///
    /// A closed group ends the wait with `true`, whatever the time. Without
    /// a limit an open group is waited on until woken, so such a wait never
    /// ends with `false`. With a limit, an open group ends the wait with
    /// `false` once `elapsed` reaches it, and is otherwise waited on for
    /// exactly the time that is left. A waiter that is woken, by the close
    /// or spuriously, takes the next step with the flag as it then reads.
    pub fn wait_step(&self, limit: Option<Span>, elapsed: Span) -> (r: WaitAction)
        ensures
            self.is_set() ==> r == WaitAction::Done(true),
            !self.is_set() && limit is None ==> r == WaitAction::Block,
            !self.is_set() && limit is Some && elapsed@ >= limit->0@ ==> r
                == WaitAction::Done(false),
            !self.is_set() && limit is Some && elapsed@ < limit->0@ ==> (r matches WaitAction::BlockFor(left)
                && left@ == limit->0@ - elapsed@),
            r == WaitAction::Done(true) <==> self.is_set(),
    {
        if self.closed {
            return WaitAction::Done(true);
        }
        match limit {
            None => WaitAction::Block,
            Some(d) => {
                if elapsed.covers(&d) {
                    WaitAction::Done(false)
                } else {
                    WaitAction::BlockFor(d.saturating_sub(&elapsed))
                }
            },
        }
    }
}

} // verus!
