use simon::animator::{AnimState, ButtonAnimator, Category};
use simon::button::Button;
use simon::game::{GamePhase, RoundOutcome, SimConfig, Simulation, TickEffect};
use simon::pattern::PatternStore;
use simon::score::ScoreTracker;

fn cfg() -> SimConfig {
    SimConfig { press_ms: 500, lit_ms: 800, cadence_ms: 1000 }
}

/// A game standing in `AwaitInput` on a given live pattern.
fn await_input(pattern: Vec<Button>) -> Simulation {
    Simulation {
        config: cfg(),
        store: PatternStore { pattern, progress: 0 },
        animator: ButtonAnimator::new(500, 800),
        score: ScoreTracker::new(),
        phase: GamePhase::AwaitInput,
        round_over: false,
        acc_ms: 0,
    }
}

#[test]
fn scenario_full_first_round() {
    // Start: the reveal phase opens with a one-button pattern.
    let mut sim = Simulation::new_with_first(cfg(), Button::Red);
    assert_eq!(sim.phase, GamePhase::ShowPattern);
    assert_eq!(sim.store.pattern, vec![Button::Red]);

    // One scheduled reveal tick: Red lights up.
    let e = sim.scheduled_tick_with(Button::Green);
    assert_eq!(e, TickEffect::Revealed(Button::Red));
    assert_eq!(sim.animator.red, AnimState::Lit { remaining: 800 });
    assert_eq!(
        sim.animator.drain_transitions(),
        vec![(Button::Red, Category::Lit)]
    );

    // Next scheduled tick: the pattern is shown in full, on to input.
    let e = sim.scheduled_tick_with(Button::Green);
    assert_eq!(e, TickEffect::PatternDone);
    assert_eq!(sim.phase, GamePhase::AwaitInput);

    // Press Red: the round completes and the score counts it.
    let r = sim.handle_press(Button::Red);
    assert_eq!(r, Some(RoundOutcome::Complete));
    assert_eq!(sim.score.current, 1);
    assert_eq!(sim.score.high, 1);

    // The next scheduled tick opens the new round: pattern length two.
    let e = sim.scheduled_tick_with(Button::Green);
    assert_eq!(e, TickEffect::NewRound);
    assert_eq!(sim.phase, GamePhase::ShowPattern);
    assert_eq!(sim.store.pattern, vec![Button::Red, Button::Green]);
}

#[test]
fn scenario_continue_then_mistake() {
    // Pattern [Red, Green], cursor at the start, awaiting input.
    let mut sim = await_input(vec![Button::Red, Button::Green]);

    let r = sim.handle_press(Button::Red);
    assert_eq!(r, Some(RoundOutcome::Continue));
    assert_eq!(sim.store.progress, 1);

    let r = sim.handle_press(Button::Blue);
    assert_eq!(r, Some(RoundOutcome::Mistake));
    assert_eq!(sim.store.pattern, vec![]);
    assert_eq!(sim.score.current, 0);

    // The wrong press still animates the pressed button.
    assert_eq!(sim.animator.blue, AnimState::Pressed { remaining: 500 });

    // The next scheduled tick returns to the reveal phase with a fresh
    // one-button pattern.
    let e = sim.scheduled_tick_with(Button::Yellow);
    assert_eq!(e, TickEffect::NewRound);
    assert_eq!(sim.phase, GamePhase::ShowPattern);
    assert_eq!(sim.store.pattern, vec![Button::Yellow]);
}

#[test]
fn scenario_single_entry_complete() {
    // Pattern [Red]: the first press is also the last.
    let mut sim = await_input(vec![Button::Red]);

    let r = sim.handle_press(Button::Red);
    assert_eq!(r, Some(RoundOutcome::Complete));
    assert_eq!(sim.score.current, 1);

    let e = sim.scheduled_tick_with(Button::Blue);
    assert_eq!(e, TickEffect::NewRound);
    assert_eq!(sim.store.pattern.len(), 2);
    assert_eq!(sim.store.pattern, vec![Button::Red, Button::Blue]);
}

#[test]
fn mistake_resets_regardless_of_pattern_length() {
    for n in 1..6usize {
        let pattern: Vec<Button> = std::iter::repeat(Button::Red).take(n).collect();
        let mut sim = await_input(pattern);
        let r = sim.handle_press(Button::Green);
        assert_eq!(r, Some(RoundOutcome::Mistake));
        assert_eq!(sim.store.pattern.len(), 0);
        assert_eq!(sim.store.progress, 0);
        assert_eq!(sim.score.current, 0);
    }
}

#[test]
fn presses_during_reveal_are_ignored() {
    let mut sim = Simulation::new_with_first(cfg(), Button::Red);
    let r = sim.handle_press(Button::Red);
    assert_eq!(r, None);
    assert_eq!(sim.animator.red, AnimState::Inactive);
    assert_eq!(sim.score.current, 0);
}

#[test]
fn presses_after_round_end_are_ignored() {
    let mut sim = await_input(vec![Button::Red]);
    let r = sim.handle_press(Button::Red);
    assert_eq!(r, Some(RoundOutcome::Complete));
    // The round is over; further presses do not reach the game.
    let r = sim.handle_press(Button::Red);
    assert_eq!(r, None);
    assert_eq!(sim.score.current, 1);
}

#[test]
fn random_round_driver_keeps_pattern_growing() {
    let mut sim = Simulation::new_with_first(cfg(), Button::Red);
    let e = sim.scheduled_tick();
    assert_eq!(e, TickEffect::Revealed(Button::Red));
    let e = sim.scheduled_tick();
    assert_eq!(e, TickEffect::PatternDone);
    let r = sim.handle_press(Button::Red);
    assert_eq!(r, Some(RoundOutcome::Complete));
    let e = sim.scheduled_tick();
    assert_eq!(e, TickEffect::NewRound);
    assert_eq!(sim.store.pattern.len(), 2);
    assert_eq!(sim.store.pattern[0], Button::Red);
}

#[test]
fn step_fires_the_driver_on_the_cadence() {
    let mut sim = Simulation::new_with_first(cfg(), Button::Red);

    // 400 ms: below the 1000 ms cadence, nothing scheduled yet.
    let r = sim.step(400, None);
    assert_eq!(r.effect, TickEffect::Idle);
    assert_eq!(r.outcome, None);
    assert_eq!(sim.acc_ms, 400);

    // 600 ms more reach the cadence: the first reveal fires.
    let r = sim.step(600, None);
    assert_eq!(r.effect, TickEffect::Revealed(Button::Red));
    assert_eq!(sim.acc_ms, 0);
    assert_eq!(r.transitions, vec![(Button::Red, Category::Lit)]);

    // Another full cadence: the reveal pass ends.
    let r = sim.step(1000, None);
    assert_eq!(r.effect, TickEffect::PatternDone);
    assert_eq!(sim.phase, GamePhase::AwaitInput);
    // The lit timer (800 ms) ran out along the way.
    assert_eq!(r.transitions, vec![(Button::Red, Category::Inactive)]);

    // A frame with a press: the round completes.
    let r = sim.step(16, Some(Button::Red));
    assert_eq!(r.effect, TickEffect::Idle);
    assert_eq!(r.outcome, Some(RoundOutcome::Complete));
    assert_eq!(r.transitions, vec![(Button::Red, Category::Pressed)]);
    assert_eq!(sim.score.current, 1);

    // The next cadence opens round two.
    let r = sim.step(984, None);
    assert_eq!(r.effect, TickEffect::NewRound);
    assert_eq!(sim.store.pattern.len(), 2);
    assert_eq!(sim.phase, GamePhase::ShowPattern);
}

#[test]
fn step_applies_timer_changes_before_the_press() {
    // Awaiting input with Green still lit from a reveal 790 ms ago.
    let mut sim = await_input(vec![Button::Green, Button::Red]);
    sim.animator.light(Button::Green);
    let _ = sim.animator.drain_transitions();
    sim.animator.tick(790);

    // In one frame the lit timer runs out and the player presses Green:
    // the press wins visually.
    let r = sim.step(16, Some(Button::Green));
    assert_eq!(r.outcome, Some(RoundOutcome::Continue));
    assert_eq!(sim.animator.green, AnimState::Pressed { remaining: 500 });
    assert_eq!(r.transitions, vec![(Button::Green, Category::Pressed)]);
}
