//! Two count-down clocks coordinated under match rules.
//!
//! A `ChessClock` owns one `Clock` per player and the `Rules` of the match
//! (per-player allotments, per-move increment, starting player, increment
//! method). At most one clock ever runs: `switch_player` stops the outgoing
//! player's clock, credits the increment — the full amount under Fischer,
//! only the time actually used (capped at the increment) under Bronstein —
//! and starts the incoming player's clock.
//!
//! As with `Clock`, every operation takes the current `Instant`; the effects
//! are stated over `ChessClockModel` and proved.

use vstd::prelude::*;

use crate::clock::{Clock, ClockMode, ClockModel, ClockState, ClockStateModel};
use crate::times::{sat_add_millis, Duration, Instant};

verus! {

/// One of the two players.
#[derive(Clone, Copy, PartialEq, Eq, Structural, Debug)]
pub enum Player {
    Player1,
    Player2,
}

impl Player {
    /// The player's array index: 0 for `Player1`, 1 for `Player2`.
    pub open spec fn spec_index(&self) -> usize {
        match *self {
            Player::Player1 => 0usize,
            Player::Player2 => 1usize,
        }
    }

    /// The player's array index: 0 for `Player1`, 1 for `Player2`.
    #[verifier::when_used_as_spec(spec_index)]
    pub fn index(&self) -> (r: usize)
        ensures
            r == self.spec_index(),
    {
        match self {
            Player::Player1 => 0,
            Player::Player2 => 1,
        }
    }

    /// The opposing player.
    pub open spec fn spec_other(&self) -> Player {
        match self {
            Player::Player1 => Player::Player2,
            Player::Player2 => Player::Player1,
        }
    }

    /// The opposing player. An involution: `p.other().other() == p`.
    #[verifier::when_used_as_spec(spec_other)]
    pub fn other(&self) -> (r: Player)
        ensures
            r == self.spec_other(),
    {
        match self {
            Player::Player1 => Player::Player2,
            Player::Player2 => Player::Player1,
        }
    }
}

/// The composite condition of the pair of clocks, derived, never stored.
#[derive(Clone, Copy, PartialEq, Eq, Structural, Debug)]
pub enum Status {
    Stopped,
    Running,
    Finished,
}

/// How the per-move increment is credited on a switch.
#[derive(Clone, Copy, PartialEq, Eq, Structural, Debug)]
pub enum TimingMethod {
    Fischer,
    Bronstein,
}

/// The mathematical view of a `Rules` value: allotments and increment in
/// milliseconds.
pub struct RulesModel {
    pub player1_time: nat,
    pub player2_time: nat,
    pub increment: nat,
    pub starter: Player,
    pub timing_method: TimingMethod,
}

impl RulesModel {
    /// The allotment of `player`.
    pub open spec fn time(&self, player: Player) -> nat {
        match player {
            Player::Player1 => self.player1_time,
            Player::Player2 => self.player2_time,
        }
    }
}

/// The rules of a match: each player's time allotment, the per-move
/// increment, who moves first, and the increment method.
#[derive(Clone, Debug)]
pub struct Rules {
    player1_time: Duration,
    player2_time: Duration,
    increment: Duration,
    starter: Player,
    timing_method: TimingMethod,
}

impl View for Rules {
    type V = RulesModel;

    closed spec fn view(&self) -> RulesModel {
        RulesModel {
            player1_time: self.player1_time@,
            player2_time: self.player2_time@,
            increment: self.increment@,
            starter: self.starter,
            timing_method: self.timing_method,
        }
    }
}

impl Rules {
    /// Rules with the given allotments, increment, starter and method.
    pub fn new(
        player1_time: Duration,
        player2_time: Duration,
        increment: Duration,
        starter: Player,
        timing_method: TimingMethod,
    ) -> (r: Rules)
        ensures
            r@ == (RulesModel {
                player1_time: player1_time@,
                player2_time: player2_time@,
                increment: increment@,
                starter,
                timing_method,
            }),
    {
        Rules { player1_time, player2_time, increment, starter, timing_method }
    }

    /// The customary default: ten minutes a side, five seconds of Fischer
    /// increment, player one to move.
    pub fn default() -> (r: Rules)
        ensures
            r@ == (RulesModel {
                player1_time: 600000,
                player2_time: 600000,
                increment: 5000,
                starter: Player::Player1,
                timing_method: TimingMethod::Fischer,
            }),
    {
        Self::new(
            Duration::from_secs(600),
            Duration::from_secs(600),
            Duration::from_secs(5),
            Player::Player1,
            TimingMethod::Fischer,
        )
    }

    /// Player one's allotment.
    pub fn get_player1_time(&self) -> (r: Duration)
        ensures
            r@ == self@.player1_time,
    {
        self.player1_time
    }

    /// Player two's allotment.
    pub fn get_player2_time(&self) -> (r: Duration)
        ensures
            r@ == self@.player2_time,
    {
        self.player2_time
    }

    /// The allotment of `state`.
    pub fn get_time(&self, state: Player) -> (r: Duration)
        ensures
            r@ == self@.time(state),
    {
        match state {
            Player::Player1 => self.player1_time,
            Player::Player2 => self.player2_time,
        }
    }

    /// The per-move increment.
    pub fn get_increment(&self) -> (r: Duration)
        ensures
            r@ == self@.increment,
    {
        self.increment
    }

    /// The increment method.
    pub fn get_timing_method(&self) -> (r: TimingMethod)
        ensures
            r == self@.timing_method,
    {
        self.timing_method
    }

    /// The player who moves first.
    pub fn get_starter(&self) -> (r: Player)
        ensures
            r == self@.starter,
    {
        self.starter
    }

    /// Sets the allotment of `state`.
    pub fn set_time(&mut self, state: Player, time: Duration)
        ensures
            final(self)@ == (RulesModel {
                player1_time: if state == Player::Player1 { time@ } else { old(self)@.player1_time },
                player2_time: if state == Player::Player2 { time@ } else { old(self)@.player2_time },
                ..old(self)@
            }),
    {
        match state {
            Player::Player1 => self.player1_time = time,
            Player::Player2 => self.player2_time = time,
        }
    }

    /// Sets the per-move increment.
    pub fn set_increment(&mut self, increment: Duration)
        ensures
            final(self)@ == (RulesModel { increment: increment@, ..old(self)@ }),
    {
        self.increment = increment;
    }

    /// Sets the increment method.
    pub fn set_timing_method(&mut self, timing_method: TimingMethod)
        ensures
            final(self)@ == (RulesModel { timing_method, ..old(self)@ }),
    {
        self.timing_method = timing_method;
    }

    /// Sets the player who moves first.
    pub fn set_starter(&mut self, starter: Player)
        ensures
            final(self)@ == (RulesModel { starter, ..old(self)@ }),
    {
        self.starter = starter;
    }
}

/// The mathematical view of a `ChessClock`: a model per clock, the active
/// player, and the rules. The exec methods' contracts go through the
/// transition functions below.
pub struct ChessClockModel {
    pub clock1: ClockModel,
    pub clock2: ClockModel,
    pub active: Player,
    pub rules: RulesModel,
}

impl ChessClockModel {
    /// The clock of `player`.
    pub open spec fn clock(&self, player: Player) -> ClockModel {
        match player {
            Player::Player1 => self.clock1,
            Player::Player2 => self.clock2,
        }
    }

    /// Well-formedness: the inactive player's clock never runs. It follows
    /// that at most one of the two clocks runs (`lemma_at_most_one_running`).
    pub open spec fn wf(&self) -> bool {
        !(self.clock(self.active.other()).state is Running)
    }

    /// What reading the pair at `now` yields, ordered (player one, player
    /// two).
    pub open spec fn read(&self, now: nat) -> (nat, nat) {
        (self.clock1.read(now), self.clock2.read(now))
    }

    /// Effect of `update` at `now`: both clocks reconciled, so a count-down
    /// clock that has reached zero while running becomes stopped.
    pub open spec fn after_update(&self, now: nat) -> ChessClockModel {
        ChessClockModel {
            clock1: self.clock1.normalized(now),
            clock2: self.clock2.normalized(now),
            ..*self
        }
    }

    /// The derived composite status at `now`: finished as soon as either
    /// reading is zero, or when both clocks are finished; stopped when both
    /// clocks are stopped; otherwise running.
    pub open spec fn status(&self, now: nat) -> Status {
        if self.clock1.read(now) == 0 || self.clock2.read(now) == 0 {
            Status::Finished
        } else if self.clock1.state is Finished && self.clock2.state is Finished {
            Status::Finished
        } else if self.clock1.state is Stopped && self.clock2.state is Stopped {
            Status::Stopped
        } else {
            Status::Running
        }
    }

    /// `self` with the clock of `player` replaced by `clock`.
    pub open spec fn with_clock(&self, player: Player, clock: ClockModel) -> ChessClockModel {
        match player {
            Player::Player1 => ChessClockModel { clock1: clock, ..*self },
            Player::Player2 => ChessClockModel { clock2: clock, ..*self },
        }
    }

    /// Effect of `start` at `now`: the active player's clock starts; the
    /// inactive clock is untouched.
    pub open spec fn after_start(&self, now: nat) -> ChessClockModel {
        self.with_clock(self.active, self.clock(self.active).after_start(now))
    }

    /// Effect of `stop` at `now`: the active player's clock stops.
    pub open spec fn after_stop(&self, now: nat) -> ChessClockModel {
        self.with_clock(self.active, self.clock(self.active).after_stop(now))
    }

    /// The increment credited to the outgoing player's clock when it ran for
    /// `running_time`: the full increment under Fischer; the time actually
    /// used, capped at the increment, under Bronstein.
    pub open spec fn switch_credit(&self, running_time: nat) -> nat {
        match self.rules.timing_method {
            TimingMethod::Fischer => self.rules.increment,
            TimingMethod::Bronstein => if running_time <= self.rules.increment {
                running_time
            } else {
                self.rules.increment
            },
        }
    }

    /// Effect of `switch_player` at `now`. Both clocks are first reconciled;
    /// then, by the composite status of the reconciled pair:
    /// - running: the outgoing player's clock stops, receives the increment
    ///   credit, the incoming player's clock starts, and the hand-off
    ///   completes;
    /// - finished: the switch is inert (only the reconciliation remains);
    /// - stopped (the match not yet running): the active player flips, with
    ///   neither clock touched and no credit.
    pub open spec fn after_switch(&self, now: nat) -> ChessClockModel {
        let u = self.after_update(now);
        let current = u.active;
        match u.status(now) {
            Status::Running => {
                let cur_clock = u.clock(current);
                let running_time = cur_clock.read_running(now);
                let credited = cur_clock.after_stop(now).after_add(u.switch_credit(running_time));
                let handed = u.with_clock(current, credited);
                let started = handed.with_clock(
                    current.other(),
                    handed.clock(current.other()).after_start(now),
                );
                ChessClockModel { active: current.other(), ..started }
            },
            Status::Finished => u,
            Status::Stopped => ChessClockModel { active: current.other(), ..u },
        }
    }

    /// Effect of `finish` at `now`: both clocks enter the terminal
    /// `Finished` state.
    pub open spec fn after_finish(&self, now: nat) -> ChessClockModel {
        ChessClockModel {
            clock1: self.clock1.after_finish(now),
            clock2: self.clock2.after_finish(now),
            ..*self
        }
    }
}

/// Law: a well-formed pair has at most one clock running.
pub proof fn lemma_at_most_one_running(m: ChessClockModel)
    requires
        m.wf(),
    ensures
        !(m.clock1.state is Running && m.clock2.state is Running),
{
}

/// Law: every operation of the pair preserves well-formedness, so after any
/// sequence of `start`, `stop`, `update`, `switch_player` and `finish` calls
/// on a freshly built pair, at most one clock runs.
pub proof fn lemma_wf_preserved(m: ChessClockModel, now: nat)
    requires
        m.wf(),
    ensures
        m.after_start(now).wf(),
        m.after_stop(now).wf(),
        m.after_update(now).wf(),
        m.after_switch(now).wf(),
        m.after_finish(now).wf(),
{
}

/// Law: `finish` is terminal. Afterwards the composite status is `Finished`
/// at every instant, and `start`, `stop`, `switch_player` and `update` all
/// change nothing.
pub proof fn lemma_finish_is_terminal(m: ChessClockModel, now: nat, later: nat)
    ensures
        m.after_finish(now).status(later) == Status::Finished,
        m.after_finish(now).after_start(later) == m.after_finish(now),
        m.after_finish(now).after_stop(later) == m.after_finish(now),
        m.after_finish(now).after_switch(later) == m.after_finish(now),
        m.after_finish(now).after_update(later) == m.after_finish(now),
{
}

/// Law: switching before the match has ever run — both clocks stopped, both
/// with time remaining — flips the active player and touches nothing else:
/// no clock starts and no increment is credited.
pub proof fn lemma_switch_while_stopped(m: ChessClockModel, now: nat)
    requires
        m.clock1.state is Stopped,
        m.clock2.state is Stopped,
        m.clock1.read(now) > 0,
        m.clock2.read(now) > 0,
    ensures
        m.after_switch(now) == (ChessClockModel { active: m.active.other(), ..m }),
{
}

/// Law: the Fischer credit is always the full increment; the Bronstein
/// credit is the time actually used, so it never exceeds the increment and
/// never exceeds that time.
pub proof fn lemma_switch_credit_bounds(m: ChessClockModel, running_time: nat)
    ensures
        m.rules.timing_method == TimingMethod::Fischer ==> m.switch_credit(running_time)
            == m.rules.increment,
        m.rules.timing_method == TimingMethod::Bronstein ==> m.switch_credit(running_time)
            <= m.rules.increment && m.switch_credit(running_time) <= running_time,
{
}

/// Law: the hand-off itself. When the active player's clock runs with time
/// left and the opposing clock is stopped with time left, a switch leaves
/// the outgoing clock stopped at its reading plus the credit for the time
/// used, starts the incoming clock, and flips the active player.
pub proof fn lemma_switch_handoff(m: ChessClockModel, now: nat)
    requires
        m.clock(m.active).state is Running,
        m.clock(m.active.other()).state is Stopped,
        m.clock(m.active).read(now) > 0,
        m.clock(m.active.other()).read(now) > 0,
    ensures
        m.after_switch(now).active == m.active.other(),
        m.after_switch(now).clock(m.active).state is Stopped,
        m.after_switch(now).clock(m.active).elapsed == sat_add_millis(
            m.clock(m.active).read(now),
            m.switch_credit(m.clock(m.active).read_running(now)),
        ),
        m.after_switch(now).clock(m.active.other()).state == (ClockStateModel::Running {
            start: now,
        }),
        m.after_switch(now).clock(m.active.other()).elapsed == m.clock(m.active.other()).elapsed,
{
}

/// A dual-timer chess clock: one count-down `Clock` per player, the active
/// player, and the match rules.
pub struct ChessClock {
    clock1: Clock,
    clock2: Clock,
    state: Player,
    rules: Rules,
}

impl View for ChessClock {
    type V = ChessClockModel;

    closed spec fn view(&self) -> ChessClockModel {
        ChessClockModel {
            clock1: self.clock1@,
            clock2: self.clock2@,
            active: self.state,
            rules: self.rules@,
        }
    }
}

impl ChessClock {
    /// Builds the pair from `rules`: two stopped count-down clocks seeded
    /// with the allotments, the starter active. Neither clock is started.
    pub fn new(rules: Rules) -> (r: ChessClock)
        ensures
            r@ == (ChessClockModel {
                clock1: ClockModel {
                    elapsed: rules@.player1_time,
                    state: ClockStateModel::Stopped,
                    mode: ClockMode::CountDown,
                },
                clock2: ClockModel {
                    elapsed: rules@.player2_time,
                    state: ClockStateModel::Stopped,
                    mode: ClockMode::CountDown,
                },
                active: rules@.starter,
                rules: rules@,
            }),
            r@.wf(),
    {
        let clock1 = Clock::new(ClockMode::CountDown, Some(rules.get_player1_time()));
        let clock2 = Clock::new(ClockMode::CountDown, Some(rules.get_player2_time()));
        let state = rules.get_starter();
        ChessClock { clock1, clock2, state, rules }
    }

    /// A pair under the default rules (`Rules::default`).
    pub fn default() -> (r: ChessClock)
        ensures
            r@ == (ChessClockModel {
                clock1: ClockModel {
                    elapsed: 600000,
                    state: ClockStateModel::Stopped,
                    mode: ClockMode::CountDown,
                },
                clock2: ClockModel {
                    elapsed: 600000,
                    state: ClockStateModel::Stopped,
                    mode: ClockMode::CountDown,
                },
                active: Player::Player1,
                rules: RulesModel {
                    player1_time: 600000,
                    player2_time: 600000,
                    increment: 5000,
                    starter: Player::Player1,
                    timing_method: TimingMethod::Fischer,
                },
            }),
            r@.wf(),
    {
        Self::new(Rules::default())
    }

    /// The currently active player, whether or not any clock runs.
    pub fn active_player(&self) -> (r: Player)
        ensures
            r == self@.active,
    {
        self.state
    }

    /// Reads both clocks at `now` without touching any state, ordered
    /// (player one, player two).
    pub fn read(&self, now: Instant) -> (r: (Duration, Duration))
        ensures
            (r.0@, r.1@) == self@.read(now@),
    {
        (self.clock1.read(now), self.clock2.read(now))
    }

    /// Mutating tick: reconciles both clocks at `now`, so a count-down clock
    /// that reached zero while running becomes stopped. Call this before
    /// trusting `status` after time has passed.
    pub fn update(&mut self, now: Instant)
        ensures
            final(self)@ == old(self)@.after_update(now@),
    {
        self.clock1.read_and_update(now);
        self.clock2.read_and_update(now);
    }

    /// The derived composite status at `now`: finished as soon as either
    /// reading is zero, or when both clocks are finished; stopped when both
    /// are stopped; otherwise running.
    pub fn status(&self, now: Instant) -> (r: Status)
        ensures
            r == self@.status(now@),
    {
        let (t1, t2) = self.read(now);
        let finished1 = matches!(self.clock1.state(), ClockState::Finished);
        let finished2 = matches!(self.clock2.state(), ClockState::Finished);
        let stopped1 = matches!(self.clock1.state(), ClockState::Stopped);
        let stopped2 = matches!(self.clock2.state(), ClockState::Stopped);

        if t1.is_zero() || t2.is_zero() {
            Status::Finished
        } else if finished1 && finished2 {
            Status::Finished
        } else if stopped1 && stopped2 {
            Status::Stopped
        } else {
            Status::Running
        }
    }

    /// Starts the active player's clock at `now`; the inactive clock stays
    /// stopped.
    fn start_current(&mut self, now: Instant)
        ensures
            final(self)@ == old(self)@.after_start(now@),
    {
        match self.state {
            Player::Player1 => self.clock1.start(now),
            Player::Player2 => self.clock2.start(now),
        }
    }

    /// Starts the active player's clock at `now`; the inactive clock stays
    /// stopped.
    pub fn start(&mut self, now: Instant)
        ensures
            final(self)@ == old(self)@.after_start(now@),
    {
        self.start_current(now);
    }

    /// The hand-off between players at `now`: reconciles both clocks, and if
    /// the match is running, stops the outgoing player's clock, credits the
    /// increment (full under Fischer, `min(time used, increment)` under
    /// Bronstein), starts the incoming player's clock and flips the active
    /// player. Inert once finished; a switch before the match runs only
    /// flips the active player.
    pub fn switch_player(&mut self, now: Instant)
        ensures
            final(self)@ == old(self)@.after_switch(now@),
    {
        self.update(now);

        let current = self.state;
        let new = current.other();
        let current_status = self.status(now);

        if matches!(current_status, Status::Running) {
            let running_time = match current {
                Player::Player1 => self.clock1.read_running(now),
                Player::Player2 => self.clock2.read_running(now),
            };
            match current {
                Player::Player1 => self.clock1.stop(now),
                Player::Player2 => self.clock2.stop(now),
            }

            let increment = self.rules.get_increment();
            let credit = match self.rules.get_timing_method() {
                TimingMethod::Fischer => increment,
                TimingMethod::Bronstein => {
                    if running_time.as_millis() <= increment.as_millis() {
                        running_time
                    } else {
                        increment
                    }
                },
            };
            match current {
                Player::Player1 => self.clock1.add(credit),
                Player::Player2 => self.clock2.add(credit),
            }

            match new {
                Player::Player1 => self.clock1.start(now),
                Player::Player2 => self.clock2.start(now),
            }
            self.state = new;
        } else if matches!(current_status, Status::Finished) {
            // inert: switching after the match has ended changes nothing
        } else {
            self.state = new;
        }
    }

    /// Stops the active player's clock at `now`.
    pub fn stop(&mut self, now: Instant)
        ensures
            final(self)@ == old(self)@.after_stop(now@),
    {
        match self.state {
            Player::Player1 => self.clock1.stop(now),
            Player::Player2 => self.clock2.stop(now),
        }
    }

    /// Forces both clocks into the terminal `Finished` state at `now`.
    pub fn finish(&mut self, now: Instant)
        ensures
            final(self)@ == old(self)@.after_finish(now@),
    {
        self.clock1.finish(now);
        self.clock2.finish(now);
    }
}

} // verus!
