//! A single start/stop timer with count-up and count-down modes.
//!
//! A `Clock` banks time from finished run segments in `already_elapsed` and,
//! while running, remembers the `Instant` at which the current segment began.
//! Reading the clock combines the bank with the current segment; nothing ever
//! ticks in the background. A count-down clock that reaches zero while
//! running is reconciled to `Stopped` by the next mutating read
//! (`read_and_update`), never by a plain `read`.
//!
//! Every operation's effect is stated over `ClockModel`, the mathematical
//! view of a clock, so the whole state machine is verified.

use vstd::prelude::*;

use crate::duration_display::{plain_face, precise_face, DurationDisplay};
use crate::times::{sat_add_millis, sat_sub_millis, Duration, Instant};

verus! {

/// Milliseconds in the default allotment of a count-down clock (ten minutes).
pub const TEN_MINUTES_MILLIS: u64 = 600000;

/// Whether the clock is running or stopped, and when the current run segment
/// began if it is running. `Finished` is terminal: no later operation starts
/// the clock again.
#[derive(Clone, Copy, PartialEq, Eq, Structural, Debug)]
pub enum ClockState {
    Running(Instant),
    Stopped,
    Finished,
}

/// Whether the clock counts up from its banked time or down towards zero.
#[derive(Clone, Copy, PartialEq, Eq, Structural, Debug)]
pub enum ClockMode {
    CountUp,
    CountDown,
}

/// The mathematical view of a `ClockState`: the run segment's start becomes
/// its millisecond count.
pub enum ClockStateModel {
    Running { start: nat },
    Stopped,
    Finished,
}

impl View for ClockState {
    type V = ClockStateModel;

    open spec fn view(&self) -> ClockStateModel {
        match *self {
            ClockState::Running(start) => ClockStateModel::Running { start: start@ },
            ClockState::Stopped => ClockStateModel::Stopped,
            ClockState::Finished => ClockStateModel::Finished,
        }
    }
}

/// The mathematical view of a `Clock`: banked milliseconds, state and mode.
/// The exec methods' contracts are all stated over this model, through the
/// transition functions below.
pub struct ClockModel {
    pub elapsed: nat,
    pub state: ClockStateModel,
    pub mode: ClockMode,
}

impl ClockModel {
    /// What reading the clock at `now` yields: the bank plus (counting up) or
    /// minus (counting down) the current segment, saturating at the `u64`
    /// range. A count-down read is floored at zero, never negative.
    pub open spec fn read(&self, now: nat) -> nat {
        match self.state {
            ClockStateModel::Running { start } => match self.mode {
                ClockMode::CountUp => sat_add_millis(self.elapsed, sat_sub_millis(now, start)),
                ClockMode::CountDown => sat_sub_millis(self.elapsed, sat_sub_millis(now, start)),
            },
            _ => self.elapsed,
        }
    }

    /// Time of the current run segment at `now`; zero if not running.
    pub open spec fn read_running(&self, now: nat) -> nat {
        match self.state {
            ClockStateModel::Running { start } => sat_sub_millis(now, start),
            _ => 0,
        }
    }

    /// Lazy reconciliation at `now`: a running count-down clock whose reading
    /// has reached zero becomes `Stopped` with an empty bank; anything else
    /// is left alone.
    pub open spec fn normalized(&self, now: nat) -> ClockModel {
        if self.state is Running && self.mode == ClockMode::CountDown && self.read(now) == 0 {
            ClockModel { elapsed: 0, state: ClockStateModel::Stopped, ..*self }
        } else {
            *self
        }
    }

    /// Effect of `start` at `now`: a stopped clock begins a run segment;
    /// a running or finished clock is unchanged.
    pub open spec fn after_start(&self, now: nat) -> ClockModel {
        if self.state is Stopped {
            ClockModel { state: ClockStateModel::Running { start: now }, ..*self }
        } else {
            *self
        }
    }

    /// Effect of `stop` at `now`: a running clock banks its reading and
    /// stops; anything else is unchanged.
    pub open spec fn after_stop(&self, now: nat) -> ClockModel {
        if self.state is Running {
            ClockModel { elapsed: self.read(now), state: ClockStateModel::Stopped, ..*self }
        } else {
            *self
        }
    }

    /// Effect of `reset`: the bank becomes `start` (zero if none) and the
    /// clock stops, whatever state it was in.
    pub open spec fn after_reset(&self, start: Option<Duration>) -> ClockModel {
        let elapsed = match start {
            Some(d) => d@,
            None => 0,
        };
        ClockModel { elapsed, state: ClockStateModel::Stopped, ..*self }
    }

    /// Effect of `add`: the bank grows by `time`, saturating; the state is
    /// untouched (a running segment keeps its start).
    pub open spec fn after_add(&self, time: nat) -> ClockModel {
        ClockModel { elapsed: sat_add_millis(self.elapsed, time), ..*self }
    }

    /// Effect of `subtract` at `now`. A running clock is re-based: its
    /// current reading less `time` (floored at zero) becomes the new bank,
    /// and the clock restarts at `now` if anything is left. A clock that is
    /// not running just shrinks its bank.
    pub open spec fn after_subtract(&self, time: nat, now: nat) -> ClockModel {
        if self.state is Running {
            let rebased = sat_sub_millis(self.read(now), time);
            if rebased > 0 {
                ClockModel { elapsed: rebased, state: ClockStateModel::Running { start: now }, ..*self }
            } else {
                ClockModel { elapsed: 0, state: ClockStateModel::Stopped, ..*self }
            }
        } else {
            ClockModel { elapsed: sat_sub_millis(self.elapsed, time), ..*self }
        }
    }

    /// Effect of `finish` at `now`: a running clock banks its reading first;
    /// then the state becomes the terminal `Finished`.
    pub open spec fn after_finish(&self, now: nat) -> ClockModel {
        ClockModel { state: ClockStateModel::Finished, ..self.after_stop(now) }
    }
}

/// Law: a count-down clock running since `t0` reads, at any instant `t1` no
/// earlier than `t0`, exactly its banked allotment less the time passed,
/// floored at zero — and the reading never exceeds the allotment.
pub proof fn lemma_monotonic_countdown(c: ClockModel, t0: nat, t1: nat)
    requires
        c.state == (ClockStateModel::Running { start: t0 }),
        c.mode == ClockMode::CountDown,
        t1 >= t0,
    ensures
        c.read(t1) == if c.elapsed >= t1 - t0 { c.elapsed - (t1 - t0) } else { 0int },
        c.read(t1) <= c.elapsed,
{
}

/// Law: a count-down clock's reading never grows as time passes.
pub proof fn lemma_countdown_never_grows(c: ClockModel, t1: nat, t2: nat)
    requires
        c.mode == ClockMode::CountDown,
        t1 <= t2,
    ensures
        c.read(t2) <= c.read(t1),
{
}

/// Law: reconciling a running count-down clock whose reading has reached
/// zero stops it with an empty bank; reconciling any other clock changes
/// nothing. (A reading is a `nat`, so it is never negative.)
pub proof fn lemma_auto_stop_at_zero(c: ClockModel, now: nat)
    ensures
        c.state is Running && c.mode == ClockMode::CountDown && c.read(now) == 0 ==> c.normalized(
            now,
        ) == (ClockModel { elapsed: 0, state: ClockStateModel::Stopped, mode: c.mode }),
        !(c.state is Running && c.mode == ClockMode::CountDown && c.read(now) == 0) ==> c.normalized(
            now,
        ) == c,
{
}

/// Law: `start` on a clock that is not stopped, and `stop` on a clock that
/// is not running, are no-ops — state and banked time unchanged.
pub proof fn lemma_start_stop_idempotent(c: ClockModel, now: nat)
    ensures
        !(c.state is Stopped) ==> c.after_start(now) == c,
        !(c.state is Running) ==> c.after_stop(now) == c,
        c.after_start(now).after_start(now) == c.after_start(now),
        c.after_stop(now).after_stop(now) == c.after_stop(now),
{
}

/// Law: `Finished` is terminal. Once a clock is finished, `start`, `stop`,
/// `add`, `subtract` and reconciliation all leave it finished; only its bank
/// may move.
pub proof fn lemma_finished_is_terminal(c: ClockModel, time: nat, now: nat)
    requires
        c.state is Finished,
    ensures
        c.after_start(now) == c,
        c.after_stop(now) == c,
        c.normalized(now) == c,
        c.after_add(time).state is Finished,
        c.after_subtract(time, now).state is Finished,
        c.after_finish(now).state is Finished,
{
}

/// A simple timer that can be started and stopped.
///
/// Constructed stopped, with a starting bank; read at any instant; started,
/// stopped, adjusted and reset at will. When counting down, the clock's
/// reading is floored at zero and a mutating read stops it once it gets
/// there.
pub struct Clock {
    already_elapsed: Duration,
    state: ClockState,
    mode: ClockMode,
}

impl View for Clock {
    type V = ClockModel;

    closed spec fn view(&self) -> ClockModel {
        ClockModel { elapsed: self.already_elapsed@, state: self.state@, mode: self.mode }
    }
}

impl Clock {
    /// Constructs a new stopped clock with the given bank, which defaults to
    /// zero when counting up and to ten minutes when counting down.
    pub fn new(mode: ClockMode, start: Option<Duration>) -> (r: Clock)
        ensures
            r@.state == ClockStateModel::Stopped,
            r@.mode == mode,
            r@.elapsed == match start {
                Some(d) => d@,
                None => if mode == ClockMode::CountUp { 0nat } else { TEN_MINUTES_MILLIS as nat },
            },
    {
        let elapsed = match (mode, start) {
            (_, Some(start)) => start,
            (ClockMode::CountUp, None) => Duration::zero(),
            (ClockMode::CountDown, None) => Duration::from_millis(TEN_MINUTES_MILLIS),
        };
        Clock { already_elapsed: elapsed, state: ClockState::Stopped, mode }
    }

    /// A stopped clock that counts up from zero.
    pub fn default() -> (r: Clock)
        ensures
            r@.state == ClockStateModel::Stopped,
            r@.mode == ClockMode::CountUp,
            r@.elapsed == 0,
    {
        Self::new(ClockMode::CountUp, None)
    }

    /// Reads the time on the clock at `now` without touching its state.
    pub fn read(&self, now: Instant) -> (r: Duration)
        ensures
            r@ == self@.read(now@),
    {
        match (&self.state, &self.mode) {
            (ClockState::Running(start), ClockMode::CountUp) => {
                let elapsed = now.saturating_duration_since(*start);
                self.already_elapsed.saturating_add(elapsed)
            },
            (ClockState::Running(start), ClockMode::CountDown) => {
                let elapsed = now.saturating_duration_since(*start);
                self.already_elapsed.saturating_sub(elapsed)
            },
            (_, _) => self.already_elapsed,
        }
    }

    /// Reads the time of the current run segment at `now`; zero if the clock
    /// is not running.
    pub fn read_running(&self, now: Instant) -> (r: Duration)
        ensures
            r@ == self@.read_running(now@),
    {
        match self.state {
            ClockState::Running(start) => now.saturating_duration_since(start),
            _ => Duration::zero(),
        }
    }

    /// Reads the time on the clock at `now` and reconciles the state: a
    /// running count-down clock whose reading has reached zero is stopped
    /// with an empty bank.
    pub fn read_and_update(&mut self, now: Instant) -> (r: Duration)
        ensures
            r@ == old(self)@.read(now@),
            final(self)@ == old(self)@.normalized(now@),
    {
        let time = self.read(now);

        let is_running = matches!(self.state, ClockState::Running(_));
        let is_countdown = self.mode == ClockMode::CountDown;
        let is_zero = time.is_zero();

        if is_running && is_countdown && is_zero {
            self.already_elapsed = Duration::zero();
            self.state = ClockState::Stopped;
        }

        time
    }

    /// The last-known state, possibly stale: a count-down clock that has
    /// reached zero still shows `Running` until a mutating read reconciles
    /// it.
    pub fn state(&self) -> (r: ClockState)
        ensures
            r@ == self@.state,
    {
        self.state
    }

    /// The clock's mode.
    pub fn mode(&self) -> (r: ClockMode)
        ensures
            r == self@.mode,
    {
        self.mode
    }

    /// The state after reconciling at `now`: the authoritative check.
    pub fn state_and_update(&mut self, now: Instant) -> (r: ClockState)
        ensures
            final(self)@ == old(self)@.normalized(now@),
            r@ == final(self)@.state,
    {
        self.read_and_update(now);
        self.state
    }

    /// Starts the clock at `now`. Does nothing unless the clock is stopped.
    pub fn start(&mut self, now: Instant)
        ensures
            final(self)@ == old(self)@.after_start(now@),
    {
        if let ClockState::Stopped = self.state {
            self.state = ClockState::Running(now);
        }
    }

    /// Stops the clock at `now`, banking its reading. Does nothing unless
    /// the clock is running.
    pub fn stop(&mut self, now: Instant)
        ensures
            final(self)@ == old(self)@.after_stop(now@),
    {
        if let ClockState::Running(_) = self.state {
            self.already_elapsed = self.read(now);
            self.state = ClockState::Stopped;
        }
    }

    /// Resets the bank to `start` (zero if none) and stops the clock.
    pub fn reset(&mut self, start: Option<Duration>)
        ensures
            final(self)@ == old(self)@.after_reset(start),
    {
        self.already_elapsed = match start {
            Some(d) => d,
            None => Duration::zero(),
        };
        self.state = ClockState::Stopped;
    }

    /// Resets the bank to zero and stops the clock.
    pub fn zero(&mut self)
        ensures
            final(self)@.elapsed == 0,
            final(self)@.state == ClockStateModel::Stopped,
            final(self)@.mode == old(self)@.mode,
    {
        self.reset(Some(Duration::zero()));
    }

    /// Adds `time` to the bank, saturating. Legal in any state; a running
    /// segment keeps its start.
    pub fn add(&mut self, time: Duration)
        ensures
            final(self)@ == old(self)@.after_add(time@),
    {
        self.already_elapsed = self.already_elapsed.saturating_add(time);
    }

    /// Subtracts `time` from the clock at `now`. A running clock is re-based
    /// on its current reading and restarts if anything is left; a stopped or
    /// finished clock just shrinks its bank, floored at zero.
    pub fn subtract(&mut self, time: Duration, now: Instant)
        ensures
            final(self)@ == old(self)@.after_subtract(time@, now@),
    {
        if let ClockState::Running(_) = self.state {
            let total_time = self.read(now);
            self.reset(Some(total_time.saturating_sub(time)));
            if !self.already_elapsed.is_zero() {
                self.start(now);
            }
        } else {
            self.already_elapsed = self.already_elapsed.saturating_sub(time);
        }
    }

    /// Stops the clock at `now` if it is running, then enters the terminal
    /// `Finished` state.
    pub fn finish(&mut self, now: Instant)
        ensures
            final(self)@ == old(self)@.after_finish(now@),
    {
        self.stop(now);
        self.state = ClockState::Finished;
    }

    /// The clock face at `now`, rounded to whole seconds: `MM:SS`, or
    /// `HH:MM:SS` from an hour upwards.
    pub fn format(&self, now: Instant) -> (r: String)
        ensures
            r@ == plain_face(self@.read(now@)),
    {
        DurationDisplay(self.read(now)).format()
    }

    /// The clock face at `now` with two fractional digits: `MM:SS.ss`, or
    /// `HH:MM:SS.ss` from an hour upwards.
    pub fn format_alternate(&self, now: Instant) -> (r: String)
        ensures
            r@ == precise_face(self@.read(now@)),
    {
        DurationDisplay(self.read(now)).format_alternate()
    }
}

} // verus!
