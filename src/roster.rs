use crate::flag::CloseFlag;
use vstd::prelude::*;

verus! {

/// The workers recorded by a group, in the order they were added, until a
/// close hands them out to be joined; and whether the close has begun.
#[derive(Debug)]
pub struct Roster<H> {
    pending: Vec<H>,
    closing: bool,
}

/// What a roster is, as a value: the handles not yet handed out for joining,
/// oldest first, and whether the group has begun to close.
pub struct RosterView<H> {
    pub pending: Seq<H>,
    pub closing: bool,
}

/// What one close asks of its caller: send the close signal or not, and the
/// handles to join, in this order.
#[derive(Debug)]
pub struct CloseOrder<H> {
    pub send_signal: bool,
    pub to_join: Vec<H>,
}

impl<H> RosterView<H> {
    /// A new group: nothing recorded, open.
    pub open spec fn initial() -> RosterView<H> {
        RosterView { pending: Seq::empty(), closing: false }
    }

    /// A worker is admitted while the flag is unset and no close has begun.
    pub open spec fn admits(self, flag_set: bool) -> bool {
        !flag_set && !self.closing
    }

    /// The roster with `h` recorded last.
    pub open spec fn record(self, h: H) -> RosterView<H> {
        RosterView { pending: self.pending.push(h), closing: self.closing }
    }

    /// One attempt to add the worker `h` while the flag reads `flag_set`:
    /// recorded if admitted, refused otherwise.
    pub open spec fn try_add(self, h: H, flag_set: bool) -> RosterView<H> {
        if self.admits(flag_set) {
            self.record(h)
        } else {
            self
        }
    }

    /// Attempts to add workers, one after another, each with the flag as it
    /// read at that attempt.
    pub open spec fn try_add_all(self, attempts: Seq<(H, bool)>) -> RosterView<H>
        decreases attempts.len(),
    {
        if attempts.len() == 0 {
            self
        } else {
            self.try_add_all(attempts.drop_last()).try_add(
                attempts.last().0,
                attempts.last().1,
            )
        }
    }

    /// A close sends the signal only if none has been sent before.
    pub open spec fn signal_due(self) -> bool {
        !self.closing
    }

    /// The roster after a close: closing, with every handle handed out.
    pub open spec fn close(self) -> RosterView<H> {
        RosterView { pending: Seq::empty(), closing: true }
    }
}

impl<H> View for Roster<H> {
    type V = RosterView<H>;

    closed spec fn view(&self) -> RosterView<H> {
        RosterView { pending: self.pending@, closing: self.closing }
    }
}

impl<H> Roster<H> {
    /// An open roster with no worker.
    pub fn new() -> (r: Roster<H>)
        ensures
            r@ == RosterView::<H>::initial(),
    {
        Roster { pending: Vec::new(), closing: false }
    }

    /// Whether a new worker may be started now, given the shared flag. A
    /// group that has begun to close refuses even before the flag is set, so
    /// no worker is added once a close has returned.
    pub fn admits(&self, flag: &CloseFlag) -> (r: bool)
        ensures
            r == self@.admits(flag.is_set()),
    {
        !flag.is_closed() && !self.closing
    }

    /// Whether a close has begun.
    pub fn is_closing(&self) -> (r: bool)
        ensures
            r == self@.closing,
    {
        self.closing
    }

    /// Number of recorded handles not yet handed out for joining.
    pub fn pending_len(&self) -> (r: usize)
        ensures
            r == self@.pending.len(),
    {
        self.pending.len()
    }

    /// Records the handle of a worker that was started after `admits`
    /// allowed it.
    pub fn record(&mut self, h: H)
        requires
            !old(self)@.closing,
        ensures
            final(self)@ == old(self)@.record(h),
    {
        self.pending.push(h);
    }

    /// Begins or repeats the close: the signal is due only the first time,
    /// and every handle recorded so far is handed out, oldest first, to be
    /// joined exactly once. The roster is left closing and empty.
    pub fn close(&mut self) -> (r: CloseOrder<H>)
        ensures
            r.send_signal == old(self)@.signal_due(),
            r.to_join@ == old(self)@.pending,
            final(self)@ == old(self)@.close(),
    {
        let send_signal = !self.closing;
        self.closing = true;
        let mut to_join: Vec<H> = Vec::new();
        std::mem::swap(&mut to_join, &mut self.pending);
        CloseOrder { send_signal, to_join }
    }
}

/// Attempts to add each of `handles` while the flag is unset.
pub open spec fn with_flag_unset<H>(handles: Seq<H>) -> Seq<(H, bool)> {
    handles.map_values(|h: H| (h, false))
}

/// Every worker added before any close is admitted, and the close that
/// follows hands out for joining exactly those workers, in the order they
/// were added: as many as there were adds.
pub proof fn lemma_adds_before_close_all_joined<H>(handles: Seq<H>)
    ensures
        forall|i: int|
            0 <= i < handles.len() ==> #[trigger] RosterView::<H>::initial().try_add_all(
                with_flag_unset(handles.take(i)),
            ).admits(false),
        RosterView::<H>::initial().try_add_all(with_flag_unset(handles)).pending
            == handles,
        RosterView::<H>::initial().try_add_all(
            with_flag_unset(handles),
        ).signal_due(),
        RosterView::<H>::initial().try_add_all(
            with_flag_unset(handles),
        ).pending.len() == handles.len(),
    decreases handles.len(),
{
    let attempts = with_flag_unset(handles);
    if handles.len() > 0 {
        let prev = handles.drop_last();
        lemma_adds_before_close_all_joined(prev);
        assert(attempts.drop_last() =~= with_flag_unset(prev));
        assert forall|i: int| 0 <= i < handles.len() implies #[trigger] RosterView::<
            H,
        >::initial().try_add_all(with_flag_unset(handles.take(i))).admits(false) by {
            if i < prev.len() {
                assert(handles.take(i) =~= prev.take(i));
            } else {
                assert(handles.take(i) =~= prev);
            }
        }
    }
    assert(RosterView::<H>::initial().try_add_all(attempts).pending =~= handles);
}

/// Once a close has begun, every later attempt to add a worker is refused,
/// whatever the flag reads at that moment, and nothing is recorded.
pub proof fn lemma_no_admission_after_close<H>(r: RosterView<H>, attempts: Seq<(H, bool)>)
    ensures
        forall|i: int|
            0 <= i < attempts.len() ==> !(#[trigger] r.close().try_add_all(attempts.take(i))).admits(
                attempts[i].1,
            ),
        r.close().try_add_all(attempts) == r.close(),
    decreases attempts.len(),
{
    if attempts.len() > 0 {
        let prev = attempts.drop_last();
        lemma_no_admission_after_close(r, prev);
        assert forall|i: int| 0 <= i < attempts.len() implies !(#[trigger] r.close().try_add_all(
            attempts.take(i),
        )).admits(attempts[i].1) by {
            if i < prev.len() {
                assert(attempts.take(i) =~= prev.take(i));
            } else {
                assert(attempts.take(i) =~= prev);
            }
        }
    }
}

/// Closing twice is harmless: the second close sends no signal, hands out
/// no handle, and leaves the roster as the first one left it.
pub proof fn lemma_close_twice<H>(r: RosterView<H>)
    ensures
        !r.close().signal_due(),
        r.close().pending.len() == 0,
        r.close().close() == r.close(),
{
}

} // verus!
