//! The two-phase game controller: the reveal scheduler, the input validator
//! and the phase machine, sequenced over one owned simulation state.

use vstd::prelude::*;

use crate::animator::{spec_category, spec_tick_state, AnimState, ButtonAnimator, Category};
use crate::button::Button;
use crate::pattern::PatternStore;
use crate::rng::draw_button;
use crate::score::{spec_failure, spec_success, ScoreTracker, ScoreView};

verus! {

/// The two phases of the game.  In `ShowPattern` the engine reveals the
/// pattern on a fixed cadence; in `AwaitInput` the player reproduces it.
#[derive(Clone, Copy, Debug, PartialEq, Eq, Structural)]
pub enum GamePhase {
    ShowPattern,
    AwaitInput,
}

/// How one consumed press classifies against the pattern.
#[derive(Clone, Copy, Debug, PartialEq, Eq, Structural)]
pub enum RoundOutcome {
    /// Correct, and more entries remain: input stays open.
    Continue,
    /// Correct, and the pattern is finished: the round ends well.
    Complete,
    /// Incorrect: the round ends badly.
    Mistake,
}

/// What one scheduled tick of the round driver did.
#[derive(Clone, Copy, Debug, PartialEq, Eq, Structural)]
pub enum TickEffect {
    /// Nothing was scheduled to happen.
    Idle,
    /// One pattern entry was revealed: its button lights up.
    Revealed(Button),
    /// The reveal pass is exhausted: the game turns to awaiting input.
    PatternDone,
    /// A finished round gave way to a new one: the pattern grew by one.
    NewRound,
}

/// The timing configuration the engine is driven with, in milliseconds.
#[derive(Clone, Copy, Debug, PartialEq, Eq, Structural)]
pub struct SimConfig {
    /// How long a button stays pressed in after a press.
    pub press_ms: u64,
    /// How long a button stays lit during a reveal.
    pub lit_ms: u64,
    /// The fixed interval between two scheduled ticks of the round driver.
    pub cadence_ms: u64,
}

impl SimConfig {
    /// The reveal cadence must be a positive interval.
    pub open spec fn wf(self) -> bool {
        self.cadence_ms > 0
    }
}

/// The whole simulation state: configuration, pattern and cursor, per-button
/// animation, score, phase, and the round driver's bookkeeping.
///
/// Round transitions never touch in-flight button timers: the animator keeps
/// counting down across `Complete`, `Mistake` and the switch back to the
/// reveal phase, so a button pressed on the last or on a wrong entry still
/// plays its full press-and-release animation while the next round opens.
pub struct Simulation {
    pub config: SimConfig,
    pub store: PatternStore,
    pub animator: ButtonAnimator,
    pub score: ScoreTracker,
    pub phase: GamePhase,
    /// Set when a round has ended (`Complete` or `Mistake`) and the switch
    /// back to the reveal phase waits for the next scheduled tick.  Presses
    /// arriving in that window are ignored: the round is already over.
    pub round_over: bool,
    /// Milliseconds accumulated toward the next scheduled tick.
    pub acc_ms: u64,
}

/// How one press classifies against the pattern entry at the validation
/// cursor: a wrong button is a `Mistake`; the right button completes the
/// round at the last entry and continues it anywhere earlier.
pub open spec fn spec_classify(pattern: Seq<Button>, progress: int, b: Button) -> RoundOutcome
    recommends
        0 <= progress < pattern.len(),
{
    if b != pattern[progress] {
        RoundOutcome::Mistake
    } else if progress == pattern.len() - 1 {
        RoundOutcome::Complete
    } else {
        RoundOutcome::Continue
    }
}

/// Both states describe the same game, the scheduler's accumulator aside.
pub open spec fn spec_same_core(a: Simulation, b: Simulation) -> bool {
    &&& b.config == a.config
    &&& b.store.pattern@ == a.store.pattern@
    &&& b.store.progress == a.store.progress
    &&& b.phase == a.phase
    &&& b.round_over == a.round_over
    &&& b.score == a.score
    &&& b.animator.press_ms == a.animator.press_ms
    &&& b.animator.lit_ms == a.animator.lit_ms
    &&& forall|x: Button| #[trigger] b.animator.state_of(x) == a.animator.state_of(x)
    &&& forall|x: Button| #[trigger] b.animator.prev_of(x) == a.animator.prev_of(x)
}

/// The timer part of one frame: every button timer counted down by
/// `elapsed`, everything else (the scheduler's accumulator aside) untouched.
pub open spec fn spec_timers_ticked(pre: Simulation, post: Simulation, elapsed: u64) -> bool {
    &&& post.config == pre.config
    &&& post.store.pattern@ == pre.store.pattern@
    &&& post.store.progress == pre.store.progress
    &&& post.phase == pre.phase
    &&& post.round_over == pre.round_over
    &&& post.score == pre.score
    &&& post.animator.press_ms == pre.animator.press_ms
    &&& post.animator.lit_ms == pre.animator.lit_ms
    &&& forall|x: Button| #[trigger] post.animator.state_of(x) == spec_tick_state(
        pre.animator.state_of(x),
        elapsed,
    )
    &&& forall|x: Button| #[trigger] post.animator.prev_of(x) == pre.animator.prev_of(x)
}

/// One scheduled tick of the round driver, with `next` the button appended
/// where a new round opens and `eff` what the tick did.  The scheduler's
/// accumulator is not constrained here; the driving step owns it.
pub open spec fn spec_scheduled(
    pre: Simulation,
    post: Simulation,
    next: Button,
    eff: TickEffect,
) -> bool {
    &&& post.config == pre.config
    &&& post.score == pre.score
    &&& post.animator.press_ms == pre.animator.press_ms
    &&& post.animator.lit_ms == pre.animator.lit_ms
    &&& forall|x: Button| #[trigger] post.animator.prev_of(x) == pre.animator.prev_of(x)
    &&& if pre.phase is ShowPattern {
        if pre.store.progress < pre.store.pattern@.len() {
            // Reveal the entry at the cursor: light it and step the cursor.
            let lit = pre.store.pattern@[pre.store.progress as int];
            &&& eff == TickEffect::Revealed(lit)
            &&& post.phase is ShowPattern
            &&& post.store.pattern@ == pre.store.pattern@
            &&& post.store.progress == pre.store.progress + 1
            &&& post.round_over == pre.round_over
            &&& forall|x: Button| #[trigger] post.animator.state_of(x) == if x == lit {
                (AnimState::Lit { remaining: pre.animator.lit_ms })
            } else {
                pre.animator.state_of(x)
            }
        } else {
            // The reveal pass is exhausted: turn to awaiting input.
            &&& eff == TickEffect::PatternDone
            &&& post.phase is AwaitInput
            &&& post.store.pattern@ == pre.store.pattern@
            &&& post.store.progress == 0
            &&& post.round_over == pre.round_over
            &&& forall|x: Button| #[trigger] post.animator.state_of(x) == pre.animator.state_of(x)
        }
    } else if pre.round_over {
        // The ended round gives way to a new one: the pattern grows by one.
        &&& eff == TickEffect::NewRound
        &&& post.phase is ShowPattern
        &&& post.store.pattern@ == pre.store.pattern@.push(next)
        &&& post.store.progress == 0
        &&& post.round_over == false
        &&& forall|x: Button| #[trigger] post.animator.state_of(x) == pre.animator.state_of(x)
    } else {
        // Awaiting input on a live round: nothing is scheduled to happen.
        &&& eff == TickEffect::Idle
        &&& post.phase == pre.phase
        &&& post.store.pattern@ == pre.store.pattern@
        &&& post.store.progress == pre.store.progress
        &&& post.round_over == pre.round_over
        &&& forall|x: Button| #[trigger] post.animator.state_of(x) == pre.animator.state_of(x)
    }
}

/// One player press fed into the game, with `r` how it was answered.  The
/// scheduler's accumulator is not constrained here.
pub open spec fn spec_pressed(
    pre: Simulation,
    post: Simulation,
    b: Button,
    r: Option<RoundOutcome>,
) -> bool {
    &&& post.config == pre.config
    &&& post.phase == pre.phase
    &&& post.animator.press_ms == pre.animator.press_ms
    &&& post.animator.lit_ms == pre.animator.lit_ms
    &&& forall|x: Button| #[trigger] post.animator.prev_of(x) == pre.animator.prev_of(x)
    &&& if !(pre.phase is AwaitInput) || pre.round_over {
        // Ignored: during the reveal, and after a round has ended, presses
        // do not reach the game.
        &&& r == None::<RoundOutcome>
        &&& post.store.pattern@ == pre.store.pattern@
        &&& post.store.progress == pre.store.progress
        &&& post.round_over == pre.round_over
        &&& post.score == pre.score
        &&& forall|x: Button| #[trigger] post.animator.state_of(x) == pre.animator.state_of(x)
    } else {
        // Consumed: the pressed button animates regardless of correctness,
        // and the press classifies against the entry at the cursor.
        let oc = spec_classify(pre.store.pattern@, pre.store.progress as int, b);
        &&& r == Some(oc)
        &&& forall|x: Button| #[trigger] post.animator.state_of(x) == if x == b {
            (AnimState::Pressed { remaining: pre.animator.press_ms })
        } else {
            pre.animator.state_of(x)
        }
        &&& match oc {
            RoundOutcome::Continue => {
                &&& post.store.pattern@ == pre.store.pattern@
                &&& post.store.progress == pre.store.progress + 1
                &&& post.round_over == false
                &&& post.score == pre.score
            },
            RoundOutcome::Complete => {
                &&& post.store.pattern@ == pre.store.pattern@
                &&& post.store.progress == 0
                &&& post.round_over == true
                &&& post.score@ == spec_success(pre.score@)
            },
            RoundOutcome::Mistake => {
                &&& post.store.pattern@.len() == 0
                &&& post.store.progress == 0
                &&& post.round_over == true
                &&& post.score@ == spec_failure(pre.score@)
            },
        }
    }
}

/// The drain part of one frame: the edge-detection memory catches up with
/// the current categories, everything else untouched.
pub open spec fn spec_drained(pre: Simulation, post: Simulation) -> bool {
    &&& post.config == pre.config
    &&& post.store.pattern@ == pre.store.pattern@
    &&& post.store.progress == pre.store.progress
    &&& post.phase == pre.phase
    &&& post.round_over == pre.round_over
    &&& post.score == pre.score
    &&& post.animator.press_ms == pre.animator.press_ms
    &&& post.animator.lit_ms == pre.animator.lit_ms
    &&& forall|x: Button| #[trigger] post.animator.state_of(x) == pre.animator.state_of(x)
    &&& forall|x: Button| #[trigger] post.animator.prev_of(x) == spec_category(
        pre.animator.state_of(x),
    )
}

/// After any press answered with `Mistake`, the pattern is empty and the
/// current score is zero — whatever length the pattern had before.
pub proof fn lemma_mistake_resets(pre: Simulation, post: Simulation, b: Button)
    requires
        spec_pressed(pre, post, b, Some(RoundOutcome::Mistake)),
    ensures
        post.store.pattern@.len() == 0,
        post.store.progress == 0,
        post.score@.current == 0,
        post.score@.high == pre.score@.high,
{
}

impl Simulation {
    /// The state invariant: the cursor sits inside the pattern wherever a
    /// phase may read it, the best score keeps up with the current one, the
    /// animator carries the configured durations, and the accumulator sits
    /// below the cadence.
    pub open spec fn wf(self) -> bool {
        &&& self.config.wf()
        &&& self.store.wf()
        &&& self.score.wf()
        &&& self.animator.press_ms == self.config.press_ms
        &&& self.animator.lit_ms == self.config.lit_ms
        &&& self.acc_ms < self.config.cadence_ms
        &&& self.phase is ShowPattern ==> !self.round_over && self.store.pattern@.len() >= 1
        &&& self.phase is AwaitInput && !self.round_over ==> self.store.progress
            < self.store.pattern@.len()
        &&& self.phase is AwaitInput && self.round_over ==> self.store.progress == 0
    }

    /// A fresh game: reveal phase, a one-button pattern chosen by the
    /// caller, zero score, all buttons at rest.
    pub fn new_with_first(config: SimConfig, first: Button) -> (sim: Simulation)
        requires
            config.wf(),
        ensures
            sim.wf(),
            sim.config == config,
            sim.phase is ShowPattern,
            sim.store.pattern@ == seq![first],
            sim.store.progress == 0,
            sim.score@ == (ScoreView { current: 0, high: 0 }),
            forall|b: Button| #[trigger] sim.animator.state_of(b) == AnimState::Inactive,
            forall|b: Button| #[trigger] sim.animator.prev_of(b) == Category::Inactive,
            !sim.round_over,
            sim.acc_ms == 0,
    {
        let mut store = PatternStore::new();
        store.append(first);
        let sim = Simulation {
            config,
            store,
            animator: ButtonAnimator::new(config.press_ms, config.lit_ms),
            score: ScoreTracker::new(),
            phase: GamePhase::ShowPattern,
            round_over: false,
            acc_ms: 0,
        };
        proof {
            assert(sim.store.pattern@ =~= seq![first]);
        }
        sim
    }

    /// A fresh game whose one-button pattern is drawn at random.
    pub fn new(config: SimConfig) -> (sim: Simulation)
        requires
            config.wf(),
        ensures
            sim.wf(),
            sim.config == config,
            sim.phase is ShowPattern,
            sim.store.pattern@.len() == 1,
            sim.store.progress == 0,
            sim.score@ == (ScoreView { current: 0, high: 0 }),
            forall|b: Button| #[trigger] sim.animator.state_of(b) == AnimState::Inactive,
            forall|b: Button| #[trigger] sim.animator.prev_of(b) == Category::Inactive,
            !sim.round_over,
            sim.acc_ms == 0,
    {
        let first = draw_button();
        Simulation::new_with_first(config, first)
    }

    /// Counts every button timer down by the frame's `elapsed` milliseconds.
    pub fn tick_timers(&mut self, elapsed: u64)
        requires
            old(self).wf(),
        ensures
            final(self).wf(),
            spec_timers_ticked(*old(self), *final(self), elapsed),
            final(self).acc_ms == old(self).acc_ms,
    {
        self.animator.tick(elapsed);
    }

    /// One scheduled tick of the round driver, with the caller choosing the
    /// button appended where a new round opens.
    ///
    /// - Reveal phase, cursor on an entry: light it and step the cursor.
    /// - Reveal phase, cursor past the end: the pattern has been shown in
    ///   full; the cursor resets and the game turns to awaiting input.
    /// - Awaiting input with the round over: open the next round — back to
    ///   the reveal phase with `next` appended to the pattern.
    /// - Awaiting input on a live round: nothing happens.
    pub fn scheduled_tick_with(&mut self, next: Button) -> (eff: TickEffect)
        requires
            old(self).wf(),
        ensures
            final(self).wf(),
            spec_scheduled(*old(self), *final(self), next, eff),
            final(self).acc_ms == old(self).acc_ms,
    {
        if self.phase == GamePhase::ShowPattern {
            let cur = self.store.current();
            match cur {
                Some(b) => {
                    self.animator.light(b);
                    let _ = self.store.advance();
                    TickEffect::Revealed(b)
                },
                None => {
                    self.store.reset_progress();
                    self.phase = GamePhase::AwaitInput;
                    TickEffect::PatternDone
                },
            }
        } else if self.round_over {
            self.store.append(next);
            self.store.reset_progress();
            self.phase = GamePhase::ShowPattern;
            self.round_over = false;
            TickEffect::NewRound
        } else {
            TickEffect::Idle
        }
    }

    /// One scheduled tick of the round driver; where a new round opens, its
    /// new pattern entry is drawn at random.
    pub fn scheduled_tick(&mut self) -> (eff: TickEffect)
        requires
            old(self).wf(),
        ensures
            final(self).wf(),
            exists|nb: Button| #[trigger] spec_scheduled(*old(self), *final(self), nb, eff),
            final(self).acc_ms == old(self).acc_ms,
            final(self).score == old(self).score,
            final(self).config == old(self).config,
    {
        let next = draw_button();
        self.scheduled_tick_with(next)
    }

    /// Feeds one player press into the game.
    ///
    /// A press is consumed only while the game awaits input on a live round;
    /// during the reveal phase, and between the end of a round and the
    /// scheduled tick that opens the next one, it is ignored.  A consumed
    /// press animates the pressed button regardless of correctness, then
    /// classifies it against the pattern entry at the validation cursor:
    /// `Mistake` resets the current score and clears the pattern, `Complete`
    /// counts one more completed round, `Continue` steps the cursor and
    /// keeps input open.  `Mistake` and `Complete` end the round; the switch
    /// back to the reveal phase waits for the next scheduled tick.
    pub fn handle_press(&mut self, b: Button) -> (r: Option<RoundOutcome>)
        requires
            old(self).wf(),
            old(self).score.current < u64::MAX,
        ensures
            final(self).wf(),
            spec_pressed(*old(self), *final(self), b, r),
            final(self).acc_ms == old(self).acc_ms,
    {
        if !(self.phase == GamePhase::AwaitInput) || self.round_over {
            return None;
        }
        self.animator.press(b);
        let expected = self.store.pattern[self.store.progress];
        if expected != b {
            self.score.record_failure();
            self.store.clear();
            self.round_over = true;
            Some(RoundOutcome::Mistake)
        } else if self.store.progress == self.store.pattern.len() - 1 {
            self.score.record_success();
            self.store.reset_progress();
            self.round_over = true;
            Some(RoundOutcome::Complete)
        } else {
            let _ = self.store.advance();
            Some(RoundOutcome::Continue)
        }
    }

    /// Steps the whole simulation by one presentation frame, in a fixed,
    /// deterministic order: the button timers count down first, then the
    /// round driver fires once if the reveal cadence has elapsed, then the
    /// player's press (if any) is applied, and last the category transitions
    /// are drained for the presentation layer.  A press and a timer landing
    /// in the same frame thus resolve predictably: timer-driven changes
    /// apply first, the press wins visually.
    ///
    /// The cadence is measured from the previous fire: when the accumulated
    /// time reaches it, the driver fires once and the accumulator restarts
    /// at zero for the next interval.
    pub fn step(&mut self, elapsed: u64, press: Option<Button>) -> (r: StepResult)
        requires
            old(self).wf(),
            old(self).score.current < u64::MAX,
        ensures
            final(self).wf(),
            old(self).acc_ms + elapsed >= old(self).config.cadence_ms ==> final(self).acc_ms
                == 0,
            old(self).acc_ms + elapsed < old(self).config.cadence_ms ==> final(self).acc_ms
                == old(self).acc_ms + elapsed,
            exists|m1: Simulation, m2: Simulation, m3: Simulation| #[trigger] spec_step_via(
                *old(self),
                m1,
                m2,
                m3,
                *final(self),
                elapsed,
                press,
                r,
            ),
    {
        self.animator.tick(elapsed);
        let fire = elapsed >= self.config.cadence_ms - self.acc_ms;
        if fire {
            self.acc_ms = 0;
        } else {
            self.acc_ms = self.acc_ms + elapsed;
        }
        let ghost m1 = *self;
        let effect = if fire {
            self.scheduled_tick()
        } else {
            TickEffect::Idle
        };
        let ghost m2 = *self;
        let outcome = match press {
            Some(pb) => self.handle_press(pb),
            None => None,
        };
        let ghost m3 = *self;
        let transitions = self.animator.drain_transitions();
        let r = StepResult { effect, outcome, transitions };
        proof {
            assert(spec_step_via(*old(self), m1, m2, m3, *self, elapsed, press, r));
        }
        r
    }
}

/// One whole frame from `pre` to `post`, decomposed through the
/// intermediate states that the fixed step order visits: `m1` after the
/// timers ticked, `m2` after the round driver (which fires exactly when the
/// accumulated time reaches the cadence, appending a random button where a
/// new round opens), `m3` after the press, and `post` after the drain.
pub open spec fn spec_step_via(
    pre: Simulation,
    m1: Simulation,
    m2: Simulation,
    m3: Simulation,
    post: Simulation,
    elapsed: u64,
    press: Option<Button>,
    r: StepResult,
) -> bool {
    &&& spec_timers_ticked(pre, m1, elapsed)
    &&& if pre.acc_ms + elapsed >= pre.config.cadence_ms {
        exists|nb: Button| #[trigger] spec_scheduled(m1, m2, nb, r.effect)
    } else {
        spec_same_core(m1, m2) && r.effect == TickEffect::Idle
    }
    &&& match press {
        Some(pb) => spec_pressed(m2, m3, pb, r.outcome),
        None => spec_same_core(m2, m3) && r.outcome == None::<RoundOutcome>,
    }
    &&& r.transitions@ == m3.animator.spec_pending()
    &&& spec_drained(m3, post)
}

/// What one frame of `step` reports back to the caller.
#[derive(Debug)]
pub struct StepResult {
    /// What the round driver did this frame.
    pub effect: TickEffect,
    /// How the press, if any, was answered; `None` for an ignored press.
    pub outcome: Option<RoundOutcome>,
    /// The category transitions owed to the presentation layer.
    pub transitions: Vec<(Button, Category)>,
}

} // verus!
