use vstd::prelude::*;

verus! {

/// Life cycle of a pending timed resumption.
#[derive(Clone, Copy, Debug, PartialEq, Eq, Structural)]
pub enum TimerState {
    /// Waiting for its deadline.
    Scheduled,
    /// The deadline elapsed and the continuation was resumed (terminal).
    Resumed,
    /// The dispatcher tore down first; the continuation is discarded (terminal).
    Cancelled,
}

/// Mathematical model of a timer: its deadline and its state.
pub struct TimerModel {
    pub deadline: nat,
    pub state: TimerState,
}

/// A non-blocking delay: a callback that suspends on it is resumed by the
/// dispatcher once the dispatcher clock reaches `deadline`.
#[derive(Clone, Copy, Debug)]
pub struct CooperativeTimer {
    deadline: u64,
    state: TimerState,
}

/// The model after a poll at time `now`, and whether that poll resumes.
pub open spec fn poll_model(t: TimerModel, now: nat) -> (TimerModel, bool) {
    if t.state == TimerState::Scheduled && now >= t.deadline {
        (TimerModel { deadline: t.deadline, state: TimerState::Resumed }, true)
    } else {
        (t, false)
    }
}

/// The model after teardown: a scheduled timer is cancelled, a terminal one stays.
pub open spec fn cancel_model(t: TimerModel) -> TimerModel {
    if t.state == TimerState::Scheduled {
        TimerModel { deadline: t.deadline, state: TimerState::Cancelled }
    } else {
        t
    }
}

impl View for CooperativeTimer {
    type V = TimerModel;

    closed spec fn view(&self) -> TimerModel {
        TimerModel { deadline: self.deadline as nat, state: self.state }
    }
}

impl CooperativeTimer {
    /// Schedules a resumption `duration` seconds after the dispatcher time `now`.
    pub fn after(now: u64, duration: u64) -> (t: CooperativeTimer)
        requires
            now + duration <= u64::MAX,
        ensures
            t@ == (TimerModel { deadline: (now + duration) as nat, state: TimerState::Scheduled }),
    {
        CooperativeTimer { deadline: now + duration, state: TimerState::Scheduled }
    }

    /// The dispatcher time at or after which the continuation may resume.
    pub fn deadline(&self) -> (r: u64)
        ensures
            r == self@.deadline,
    {
        self.deadline
    }

    pub fn state(&self) -> (r: TimerState)
        ensures
            r == self@.state,
    {
        self.state
    }

    /// True while the timer waits for its deadline.
    pub fn is_pending(&self) -> (r: bool)
        ensures
            r == (self@.state == TimerState::Scheduled),
    {
        self.state == TimerState::Scheduled
    }

    /// Called by the dispatcher at time `now`: resumes the continuation
    /// (returns true) exactly when the timer is scheduled and the deadline has
    /// been reached; a timer resumes at most once.
    pub fn poll(&mut self, now: u64) -> (resumed: bool)
        ensures
            (final(self)@, resumed) == poll_model(old(self)@, now as nat),
    {
        if self.state == TimerState::Scheduled && now >= self.deadline {
            self.state = TimerState::Resumed;
            true
        } else {
            false
        }
    }

    /// Dispatcher teardown: a scheduled timer is cancelled and never resumes.
    pub fn cancel(&mut self)
        ensures
            final(self)@ == cancel_model(old(self)@),
    {
        if self.state == TimerState::Scheduled {
            self.state = TimerState::Cancelled;
        }
    }
}

/// The timer after a poll at each time of `times` in turn.
pub open spec fn poll_all(t: TimerModel, times: Seq<nat>) -> TimerModel
    decreases times.len(),
{
    if times.len() == 0 {
        t
    } else {
        poll_all(poll_model(t, times[0]).0, times.drop_first())
    }
}

/// How many of the polls at `times` resume the continuation.
pub open spec fn resumptions(t: TimerModel, times: Seq<nat>) -> nat
    decreases times.len(),
{
    if times.len() == 0 {
        0
    } else {
        let (t2, r) = poll_model(t, times[0]);
        (if r { 1nat } else { 0nat }) + resumptions(t2, times.drop_first())
    }
}

/// A timer scheduled at `start` for `duration`, however often and whenever it
/// is polled, resumes its continuation at most once, and only at a dispatcher
/// time at least `duration` after `start`. A cancelled timer never resumes.
pub proof fn lemma_resumes_once_after_duration(start: nat, duration: nat, times: Seq<nat>)
    ensures
        resumptions(TimerModel { deadline: start + duration, state: TimerState::Scheduled }, times)
            <= 1,
        forall|i: int|
            0 <= i < times.len() && #[trigger] poll_model(
                poll_all(
                    TimerModel { deadline: start + duration, state: TimerState::Scheduled },
                    times.take(i),
                ),
                times[i],
            ).1 ==> times[i] >= start + duration,
        resumptions(TimerModel { deadline: start + duration, state: TimerState::Cancelled }, times)
            == 0,
{
    let t = TimerModel { deadline: start + duration, state: TimerState::Scheduled };
    lemma_resumptions_bound(t, times);
    lemma_resumptions_bound(TimerModel { deadline: start + duration, state: TimerState::Cancelled }, times);
    assert forall|i: int|
        0 <= i < times.len() && #[trigger] poll_model(poll_all(t, times.take(i)), times[i]).1
        implies times[i] >= start + duration by {
        lemma_poll_all_keeps_deadline(t, times.take(i));
    }
}

/// Polls resume at most once from a scheduled timer, and never from a terminal one.
proof fn lemma_resumptions_bound(t: TimerModel, times: Seq<nat>)
    ensures
        resumptions(t, times) <= (if t.state == TimerState::Scheduled { 1nat } else { 0nat }),
    decreases times.len(),
{
    if times.len() > 0 {
        lemma_resumptions_bound(poll_model(t, times[0]).0, times.drop_first());
    }
}

/// Polling never moves the deadline.
proof fn lemma_poll_all_keeps_deadline(t: TimerModel, times: Seq<nat>)
    ensures
        poll_all(t, times).deadline == t.deadline,
    decreases times.len(),
{
    if times.len() > 0 {
        lemma_poll_all_keeps_deadline(poll_model(t, times[0]).0, times.drop_first());
    }
}

} // verus!
