use vstd::prelude::*;

use crate::channel::{
    close_model, recv_model, send_model, ChannelClosed, ChannelModel, NotificationChannel,
};
use crate::timer::{cancel_model, poll_model, CooperativeTimer, TimerModel, TimerState};

verus! {

/// How an activation of the control runs its long operation.
#[derive(Clone, Copy, Debug, PartialEq, Eq, Structural)]
pub enum Strategy {
    /// Runs the work inline on the dispatcher thread (the anti-pattern).
    Blocking,
    /// Hands the work to a worker thread; nothing limits how many run at once.
    BareOffload,
    /// Disables the control at once, hands the work to a worker thread, and
    /// re-enables the control when the worker's report arrives on the channel.
    GatedOffload,
    /// Disables the control, suspends on a cooperative timer, and re-enables
    /// the control when the timer resumes; no thread is spawned.
    CooperativeSuspend,
}

/// What the shell must do after an activation.
#[derive(Clone, Copy, Debug, PartialEq, Eq, Structural)]
pub enum Activation {
    /// The control was disabled or destroyed: nothing happens.
    Ignored,
    /// Run the work on the dispatcher thread now.
    RunInline,
    /// Start a worker thread that runs the work and reports nothing.
    SpawnWorker,
    /// Start a worker thread that runs the work and then reports completion.
    SpawnReportingWorker,
    /// The callback is suspended until the session's timer resumes it.
    Suspend,
}

/// Duration, in seconds, of the simulated long-running work of the demo.
pub const DEMO_WORK_SECONDS: u64 = 10;

/// Something that happens to a session.
pub enum Event {
    /// The control is clicked.
    Activate,
    /// A worker thread finishes its work.
    WorkerFinished,
    /// The dispatcher takes one message from the channel.
    Deliver,
    /// The dispatcher clock reads this many seconds.
    Advance(nat),
    /// The window that owns the control is destroyed.
    Destroy,
}

/// Mathematical model of a session.
pub struct SessionModel {
    pub strategy: Strategy,
    /// Duration of one unit of work, in seconds.
    pub work: nat,
    pub enabled: bool,
    /// False once the owning window is destroyed.
    pub alive: bool,
    /// Worker threads started and not yet finished.
    pub in_flight: nat,
    pub channel: ChannelModel,
    pub timer: Option<TimerModel>,
    /// Dispatcher clock, in seconds.
    pub now: nat,
}

/// One control, the strategy that its activations follow, and the dispatcher
/// state that serves it: its worker count, its notification channel, its
/// cooperative timer and the dispatcher clock.
#[derive(Debug)]
pub struct Session {
    strategy: Strategy,
    work_seconds: u64,
    enabled: bool,
    alive: bool,
    in_flight: u64,
    channel: NotificationChannel,
    timer: Option<CooperativeTimer>,
    now: u64,
}

/// A fresh session: control enabled and alive, nothing running, clock at zero.
pub open spec fn initial(strategy: Strategy, work: nat) -> SessionModel {
    SessionModel {
        strategy,
        work,
        enabled: true,
        alive: true,
        in_flight: 0,
        channel: ChannelModel { pending: Seq::empty(), closed: false },
        timer: None,
        now: 0,
    }
}

/// An activation: ignored unless the control is alive and enabled; otherwise
/// what the strategy prescribes, with the control disabled synchronously for
/// the gated and the cooperative strategies.
pub open spec fn activate_model(s: SessionModel) -> (SessionModel, Activation) {
    if !s.alive || !s.enabled {
        (s, Activation::Ignored)
    } else {
        match s.strategy {
            Strategy::Blocking => (s, Activation::RunInline),
            Strategy::BareOffload => (
                SessionModel { in_flight: s.in_flight + 1, ..s },
                Activation::SpawnWorker,
            ),
            Strategy::GatedOffload => (
                SessionModel { enabled: false, in_flight: s.in_flight + 1, ..s },
                Activation::SpawnReportingWorker,
            ),
            Strategy::CooperativeSuspend => (
                SessionModel {
                    enabled: false,
                    timer: Some(
                        TimerModel { deadline: s.now + s.work, state: TimerState::Scheduled },
                    ),
                    ..s
                },
                Activation::Suspend,
            ),
        }
    }
}

/// A worker finishes: one fewer in flight; under the gated strategy it sends
/// `true` on the channel. The flag tells whether that send (if any) succeeded.
pub open spec fn worker_finished_model(s: SessionModel) -> (SessionModel, bool) {
    let s1 = SessionModel { in_flight: (s.in_flight - 1) as nat, ..s };
    if s.strategy == Strategy::GatedOffload {
        let (c, ok) = send_model(s.channel, true);
        (SessionModel { channel: c, ..s1 }, ok)
    } else {
        (s1, true)
    }
}

/// The dispatcher delivers the oldest message: it sets the control's flag to
/// the message if the control still exists, and is skipped otherwise.
pub open spec fn deliver_model(s: SessionModel) -> (SessionModel, Option<bool>) {
    let (c, m) = recv_model(s.channel);
    match m {
        None => (s, None),
        Some(v) => (
            SessionModel { channel: c, enabled: if s.alive { v } else { s.enabled }, ..s },
            Some(v),
        ),
    }
}

/// The clock moves to `t` (it never goes back); a timer whose deadline has
/// been reached resumes its callback, which re-enables the control.
pub open spec fn advance_model(s: SessionModel, t: nat) -> (SessionModel, bool) {
    let now = if t > s.now { t } else { s.now };
    match s.timer {
        None => (SessionModel { now, ..s }, false),
        Some(tm) => {
            let (tm2, r) = poll_model(tm, now);
            (
                SessionModel {
                    now,
                    timer: Some(tm2),
                    enabled: if r { true } else { s.enabled },
                    ..s
                },
                r,
            )
        },
    }
}

/// The window is destroyed: the control is gone, the channel's receiving side
/// is torn down and a pending timer is cancelled.
pub open spec fn destroy_model(s: SessionModel) -> SessionModel {
    SessionModel {
        alive: false,
        channel: close_model(s.channel),
        timer: match s.timer {
            Some(t) => Some(cancel_model(t)),
            None => None,
        },
        ..s
    }
}

/// The session after one event. A worker can only finish if one is in flight.
pub open spec fn step(s: SessionModel, e: Event) -> SessionModel {
    match e {
        Event::Activate => activate_model(s).0,
        Event::WorkerFinished => if s.in_flight > 0 {
            worker_finished_model(s).0
        } else {
            s
        },
        Event::Deliver => deliver_model(s).0,
        Event::Advance(t) => advance_model(s, t).0,
        Event::Destroy => destroy_model(s),
    }
}

/// The session after each event of `events` in turn.
pub open spec fn run(s: SessionModel, events: Seq<Event>) -> SessionModel
    decreases events.len(),
{
    if events.len() == 0 {
        s
    } else {
        step(run(s, events.drop_last()), events.last())
    }
}

impl View for Session {
    type V = SessionModel;

    closed spec fn view(&self) -> SessionModel {
        SessionModel {
            strategy: self.strategy,
            work: self.work_seconds as nat,
            enabled: self.enabled,
            alive: self.alive,
            in_flight: self.in_flight as nat,
            channel: self.channel@,
            timer: match self.timer {
                Some(t) => Some(t@),
                None => None,
            },
            now: self.now as nat,
        }
    }
}

impl Session {
    /// A session for one control whose work lasts `work_seconds`.
    pub fn new(strategy: Strategy, work_seconds: u64) -> (s: Session)
        ensures
            s@ == initial(strategy, work_seconds as nat),
    {
        Session {
            strategy,
            work_seconds,
            enabled: true,
            alive: true,
            in_flight: 0,
            channel: NotificationChannel::new(),
            timer: None,
            now: 0,
        }
    }

    /// Handles a click on the control and says what the shell must do.
    pub fn activate(&mut self) -> (a: Activation)
        requires
            old(self)@.strategy == Strategy::BareOffload || old(self)@.strategy
                == Strategy::GatedOffload ==> old(self)@.in_flight < u64::MAX,
            old(self)@.strategy == Strategy::CooperativeSuspend ==> old(self)@.now + old(
                self,
            )@.work <= u64::MAX,
        ensures
            (final(self)@, a) == activate_model(old(self)@),
    {
        if !self.alive || !self.enabled {
            return Activation::Ignored;
        }
        match self.strategy {
            Strategy::Blocking => Activation::RunInline,
            Strategy::BareOffload => {
                self.in_flight = self.in_flight + 1;
                Activation::SpawnWorker
            },
            Strategy::GatedOffload => {
                self.enabled = false;
                self.in_flight = self.in_flight + 1;
                Activation::SpawnReportingWorker
            },
            Strategy::CooperativeSuspend => {
                self.enabled = false;
                self.timer = Some(CooperativeTimer::after(self.now, self.work_seconds));
                Activation::Suspend
            },
        }
    }

    /// Records that a worker thread finished. Under the gated strategy it
    /// reports on the channel; once the window is gone that report fails with
    /// `ChannelClosed` and is dropped, with no other effect.
    pub fn worker_finished(&mut self) -> (r: Result<(), ChannelClosed>)
        requires
            old(self)@.in_flight > 0,
        ensures
            (final(self)@, r is Ok) == worker_finished_model(old(self)@),
    {
        self.in_flight = self.in_flight - 1;
        if self.strategy == Strategy::GatedOffload {
            self.channel.send(true)
        } else {
            Ok(())
        }
    }

    /// Delivers the oldest pending message, if any, and returns it.
    pub fn deliver(&mut self) -> (m: Option<bool>)
        ensures
            (final(self)@, m) == deliver_model(old(self)@),
    {
        let m = self.channel.recv();
        if let Some(v) = m {
            if self.alive {
                self.enabled = v;
            }
        }
        m
    }

    /// Moves the dispatcher clock to `t`; returns true when this resumes the
    /// suspended callback.
    pub fn advance(&mut self, t: u64) -> (resumed: bool)
        ensures
            (final(self)@, resumed) == advance_model(old(self)@, t as nat),
    {
        if t > self.now {
            self.now = t;
        }
        let resumed = match &mut self.timer {
            Some(tm) => tm.poll(self.now),
            None => false,
        };
        if resumed {
            self.enabled = true;
        }
        resumed
    }

    /// Tears the session down with its window.
    pub fn destroy(&mut self)
        ensures
            final(self)@ == destroy_model(old(self)@),
    {
        self.alive = false;
        self.channel.close();
        match &mut self.timer {
            Some(tm) => tm.cancel(),
            None => {},
        }
    }

    pub fn strategy(&self) -> (r: Strategy)
        ensures
            r == self@.strategy,
    {
        self.strategy
    }

    /// Duration of one unit of work, in seconds.
    pub fn work_seconds(&self) -> (r: u64)
        ensures
            r == self@.work,
    {
        self.work_seconds
    }

    pub fn is_enabled(&self) -> (r: bool)
        ensures
            r == self@.enabled,
    {
        self.enabled
    }

    /// False once the owning window is destroyed.
    pub fn is_alive(&self) -> (r: bool)
        ensures
            r == self@.alive,
    {
        self.alive
    }

    /// Worker threads started and not yet finished.
    pub fn in_flight(&self) -> (r: u64)
        ensures
            r == self@.in_flight,
    {
        self.in_flight
    }

    /// The dispatcher clock, in seconds.
    pub fn now(&self) -> (r: u64)
        ensures
            r == self@.now,
    {
        self.now
    }

    /// Reports waiting on the channel.
    pub fn pending_reports(&self) -> (r: usize)
        ensures
            r == self@.channel.pending.len(),
    {
        self.channel.len()
    }

    /// The deadline of a timer that waits for it, if any.
    pub fn pending_deadline(&self) -> (r: Option<u64>)
        ensures
            r == (match self@.timer {
                Some(t) => if t.state == TimerState::Scheduled {
                    Some(t.deadline as u64)
                } else {
                    None
                },
                None => None,
            }),
    {
        match &self.timer {
            Some(t) => if t.is_pending() {
                Some(t.deadline())
            } else {
                None
            },
            None => None,
        }
    }
}

/// Work is outstanding: a worker runs, a report waits on the channel, or a
/// timer waits for its deadline.
pub open spec fn busy(s: SessionModel) -> bool {
    ||| s.in_flight > 0
    ||| s.channel.pending.len() > 0
    ||| (s.timer matches Some(t) && t.state == TimerState::Scheduled)
}

/// What every reachable state of a gated session satisfies: while the control
/// lives, exactly one of "enabled", "a worker runs" and "a report waits" holds,
/// and every report says `true`.
pub open spec fn gated_inv(s: SessionModel) -> bool {
    &&& s.strategy == Strategy::GatedOffload
    &&& s.timer is None
    &&& s.alive ==> {
        &&& !s.channel.closed
        &&& forall|i: int| 0 <= i < s.channel.pending.len() ==> #[trigger] s.channel.pending[i]
        &&& s.in_flight + s.channel.pending.len() + (if s.enabled { 1nat } else { 0nat }) == 1
    }
    &&& !s.alive ==> {
        &&& s.channel.closed
        &&& s.channel.pending.len() == 0
        &&& s.in_flight <= 1
    }
}

/// What every reachable state of a cooperative session satisfies: no thread,
/// no message, and a live control is enabled exactly when no timer is pending.
pub open spec fn cooperative_inv(s: SessionModel) -> bool {
    let pending = s.timer matches Some(t) && t.state == TimerState::Scheduled;
    &&& s.strategy == Strategy::CooperativeSuspend
    &&& s.in_flight == 0
    &&& s.channel.pending.len() == 0
    &&& s.alive ==> (s.enabled == !pending)
    &&& !s.alive ==> !pending
}

proof fn lemma_gated_step(s: SessionModel, e: Event)
    requires
        gated_inv(s),
    ensures
        gated_inv(step(s, e)),
{
    let s2 = step(s, e);
    match e {
        Event::WorkerFinished => {
            if s.in_flight > 0 && s.alive {
                assert forall|i: int| 0 <= i < s2.channel.pending.len() implies
                    #[trigger] s2.channel.pending[i] by {
                    if i < s.channel.pending.len() {
                        assert(s.channel.pending[i]);
                    }
                }
            }
        },
        Event::Deliver => {
            if s.channel.pending.len() > 0 {
                assert(s.channel.pending[0]);
                assert forall|i: int| 0 <= i < s2.channel.pending.len() implies
                    #[trigger] s2.channel.pending[i] by {
                    assert(s.channel.pending[i + 1]);
                }
            }
        },
        _ => {},
    }
}

proof fn lemma_cooperative_step(s: SessionModel, e: Event)
    requires
        cooperative_inv(s),
    ensures
        cooperative_inv(step(s, e)),
{
}

proof fn lemma_gated_run(s: SessionModel, events: Seq<Event>)
    requires
        gated_inv(s),
    ensures
        gated_inv(run(s, events)),
    decreases events.len(),
{
    if events.len() > 0 {
        lemma_gated_run(s, events.drop_last());
        lemma_gated_step(run(s, events.drop_last()), events.last());
    }
}

proof fn lemma_cooperative_run(s: SessionModel, events: Seq<Event>)
    requires
        cooperative_inv(s),
    ensures
        cooperative_inv(run(s, events)),
    decreases events.len(),
{
    if events.len() > 0 {
        lemma_cooperative_run(s, events.drop_last());
        lemma_cooperative_step(run(s, events.drop_last()), events.last());
    }
}

/// Under the gated strategy, whatever the sequence of clicks, worker
/// completions, deliveries, clock moves and teardown, at most one worker is
/// ever in flight.
pub proof fn lemma_gated_offload_single_worker(work: nat, events: Seq<Event>)
    ensures
        run(initial(Strategy::GatedOffload, work), events).in_flight <= 1,
{
    lemma_gated_run(initial(Strategy::GatedOffload, work), events);
}

/// Under the gated and the cooperative strategies, whatever the sequence of
/// events, a live control is disabled exactly while work is outstanding: from
/// the activation until its unit completes (its report is delivered, or its
/// timer resumes), and enabled again as soon as it has.
pub proof fn lemma_disabled_exactly_while_busy(strategy: Strategy, work: nat, events: Seq<Event>)
    requires
        strategy == Strategy::GatedOffload || strategy == Strategy::CooperativeSuspend,
    ensures
        ({
            let s = run(initial(strategy, work), events);
            s.alive ==> (s.enabled == !busy(s))
        }),
{
    if strategy == Strategy::GatedOffload {
        lemma_gated_run(initial(strategy, work), events);
    } else {
        lemma_cooperative_run(initial(strategy, work), events);
    }
}

/// Once the window is destroyed nothing reaches the control any more: whatever
/// events follow, workers' reports are swallowed by the closed channel, no
/// timer resumes, and the control's flag keeps its last value.
pub proof fn lemma_teardown_swallows_reports(s: SessionModel, events: Seq<Event>)
    ensures
        ({
            let d = destroy_model(s);
            let r = run(d, events);
            &&& !r.alive
            &&& r.channel.closed
            &&& r.channel.pending.len() == 0
            &&& r.enabled == s.enabled
            &&& !(r.timer matches Some(t) && t.state == TimerState::Scheduled)
        }),
    decreases events.len(),
{
    if events.len() > 0 {
        lemma_teardown_swallows_reports(s, events.drop_last());
    }
}

} // verus!
