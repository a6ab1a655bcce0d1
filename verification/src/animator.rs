//! Per-button animation state machine with countdown timers and
//! edge-triggered transition notifications for the presentation layer.

use vstd::prelude::*;

use crate::button::Button;

verus! {

/// Animation state of one button.  `remaining` counts milliseconds; it is
/// decreased by each tick, and the state falls back to `Inactive` once the
/// elapsed time reaches it.
#[derive(Clone, Copy, Debug, PartialEq, Eq, Structural)]
pub enum AnimState {
    Inactive,
    Pressed { remaining: u64 },
    Lit { remaining: u64 },
}

/// The categorical state of a button: its animation state with the timer
/// value ignored.  The presentation layer reacts to changes of category
/// (emissive color, press-in offset, audio cue), never to timer values.
#[derive(Clone, Copy, Debug, PartialEq, Eq, Structural)]
pub enum Category {
    Inactive,
    Pressed,
    Lit,
}

/// The category that an animation state belongs to.
pub open spec fn spec_category(s: AnimState) -> Category {
    match s {
        AnimState::Inactive => Category::Inactive,
        AnimState::Pressed { .. } => Category::Pressed,
        AnimState::Lit { .. } => Category::Lit,
    }
}

/// Computes the category of an animation state.
pub fn category(s: AnimState) -> (c: Category)
    ensures
        c == spec_category(s),
{
    match s {
        AnimState::Inactive => Category::Inactive,
        AnimState::Pressed { .. } => Category::Pressed,
        AnimState::Lit { .. } => Category::Lit,
    }
}

/// What ticking one state by `elapsed` milliseconds yields: an active timer
/// counts down by exactly `elapsed`, and the state falls back to `Inactive`
/// as soon as the elapsed time reaches the remaining time.  `Inactive` is a
/// fixed point.
pub open spec fn spec_tick_state(s: AnimState, elapsed: u64) -> AnimState {
    match s {
        AnimState::Inactive => AnimState::Inactive,
        AnimState::Pressed { remaining } => if elapsed >= remaining {
            AnimState::Inactive
        } else {
            AnimState::Pressed { remaining: (remaining - elapsed) as u64 }
        },
        AnimState::Lit { remaining } => if elapsed >= remaining {
            AnimState::Inactive
        } else {
            AnimState::Lit { remaining: (remaining - elapsed) as u64 }
        },
    }
}

/// Ticking is additive: counting a state down by `e1` and then by `e2` lands
/// in the same state as counting it down by `e1 + e2` at once.  So only the
/// cumulative elapsed time decides when a button falls back to `Inactive`.
pub proof fn lemma_tick_additive(s: AnimState, e1: u64, e2: u64)
    requires
        e1 + e2 <= u64::MAX,
    ensures
        spec_tick_state(spec_tick_state(s, e1), e2) == spec_tick_state(s, (e1 + e2) as u64),
{
}

/// Owns the animation state of all four buttons, the previously drained
/// categories that edge detection compares against, and the two feedback
/// durations (configuration, in milliseconds).
pub struct ButtonAnimator {
    /// How long a button stays pressed in after a press.
    pub press_ms: u64,
    /// How long a button stays lit during a reveal.
    pub lit_ms: u64,
    pub red: AnimState,
    pub green: AnimState,
    pub blue: AnimState,
    pub yellow: AnimState,
    pub prev_red: Category,
    pub prev_green: Category,
    pub prev_blue: Category,
    pub prev_yellow: Category,
}

impl ButtonAnimator {
    /// The animation state of one button.
    pub open spec fn state_of(self, b: Button) -> AnimState {
        match b {
            Button::Red => self.red,
            Button::Green => self.green,
            Button::Blue => self.blue,
            Button::Yellow => self.yellow,
        }
    }

    /// The category of one button as of the previous drain.
    pub open spec fn prev_of(self, b: Button) -> Category {
        match b {
            Button::Red => self.prev_red,
            Button::Green => self.prev_green,
            Button::Blue => self.prev_blue,
            Button::Yellow => self.prev_yellow,
        }
    }

    /// Whether one button's categorical state changed since the last drain.
    pub open spec fn changed(self, b: Button) -> bool {
        spec_category(self.state_of(b)) != self.prev_of(b)
    }

    /// The transition notifications owed to the presentation layer, in
    /// catalog order: each button whose category changed since the last
    /// drain, paired with its new category.
    pub open spec fn spec_pending(self) -> Seq<(Button, Category)> {
        let s0 = Seq::<(Button, Category)>::empty();
        let s1 = if self.changed(Button::Red) {
            s0.push((Button::Red, spec_category(self.red)))
        } else {
            s0
        };
        let s2 = if self.changed(Button::Green) {
            s1.push((Button::Green, spec_category(self.green)))
        } else {
            s1
        };
        let s3 = if self.changed(Button::Blue) {
            s2.push((Button::Blue, spec_category(self.blue)))
        } else {
            s2
        };
        if self.changed(Button::Yellow) {
            s3.push((Button::Yellow, spec_category(self.yellow)))
        } else {
            s3
        }
    }

    /// A fresh animator: every button at rest, nothing owed to the
    /// presentation layer, with the two feedback durations as configured.
    pub fn new(press_ms: u64, lit_ms: u64) -> (a: ButtonAnimator)
        ensures
            a.press_ms == press_ms,
            a.lit_ms == lit_ms,
            forall|b: Button| #[trigger] a.state_of(b) == AnimState::Inactive,
            forall|b: Button| #[trigger] a.prev_of(b) == Category::Inactive,
    {
        ButtonAnimator {
            press_ms,
            lit_ms,
            red: AnimState::Inactive,
            green: AnimState::Inactive,
            blue: AnimState::Inactive,
            yellow: AnimState::Inactive,
            prev_red: Category::Inactive,
            prev_green: Category::Inactive,
            prev_blue: Category::Inactive,
            prev_yellow: Category::Inactive,
        }
    }

    /// Forces `b` into `Pressed` with a fresh press timer, pre-empting any
    /// in-flight state.  The other buttons and the edge memory stay put.
    pub fn press(&mut self, b: Button)
        ensures
            final(self).state_of(b) == (AnimState::Pressed { remaining: old(self).press_ms }),
            forall|x: Button| x != b ==> #[trigger] final(self).state_of(x) == old(self).state_of(x),
            forall|x: Button| #[trigger] final(self).prev_of(x) == old(self).prev_of(x),
            final(self).press_ms == old(self).press_ms,
            final(self).lit_ms == old(self).lit_ms,
    {
        let s = AnimState::Pressed { remaining: self.press_ms };
        match b {
            Button::Red => self.red = s,
            Button::Green => self.green = s,
            Button::Blue => self.blue = s,
            Button::Yellow => self.yellow = s,
        }
    }

    /// Forces `b` into `Lit` with a fresh lit timer, with the same overwrite
    /// semantics as `press`.
    pub fn light(&mut self, b: Button)
        ensures
            final(self).state_of(b) == (AnimState::Lit { remaining: old(self).lit_ms }),
            forall|x: Button| x != b ==> #[trigger] final(self).state_of(x) == old(self).state_of(x),
            forall|x: Button| #[trigger] final(self).prev_of(x) == old(self).prev_of(x),
            final(self).press_ms == old(self).press_ms,
            final(self).lit_ms == old(self).lit_ms,
    {
        let s = AnimState::Lit { remaining: self.lit_ms };
        match b {
            Button::Red => self.red = s,
            Button::Green => self.green = s,
            Button::Blue => self.blue = s,
            Button::Yellow => self.yellow = s,
        }
    }

    /// Counts every active timer down by `elapsed` milliseconds; a timer that
    /// runs out puts its button back at rest.
    pub fn tick(&mut self, elapsed: u64)
        ensures
            forall|x: Button| #[trigger] final(self).state_of(x) == spec_tick_state(
                old(self).state_of(x),
                elapsed,
            ),
            forall|x: Button| #[trigger] final(self).prev_of(x) == old(self).prev_of(x),
            final(self).press_ms == old(self).press_ms,
            final(self).lit_ms == old(self).lit_ms,
    {
        self.red = tick_state(self.red, elapsed);
        self.green = tick_state(self.green, elapsed);
        self.blue = tick_state(self.blue, elapsed);
        self.yellow = tick_state(self.yellow, elapsed);
    }

    /// Produces, once per simulation step, the buttons whose categorical
    /// state changed since the previous drain, paired with the new category,
    /// and remembers the current categories for the next step.  The
    /// presentation layer polls this to apply colors, offsets and audio cues.
    pub fn drain_transitions(&mut self) -> (out: Vec<(Button, Category)>)
        ensures
            out@ == old(self).spec_pending(),
            forall|x: Button| #[trigger] final(self).prev_of(x) == spec_category(
                old(self).state_of(x),
            ),
            forall|x: Button| #[trigger] final(self).state_of(x) == old(self).state_of(x),
            final(self).press_ms == old(self).press_ms,
            final(self).lit_ms == old(self).lit_ms,
    {
        let mut out: Vec<(Button, Category)> = Vec::new();
        let c = category(self.red);
        if c != self.prev_red {
            out.push((Button::Red, c));
            self.prev_red = c;
        }
        let c = category(self.green);
        if c != self.prev_green {
            out.push((Button::Green, c));
            self.prev_green = c;
        }
        let c = category(self.blue);
        if c != self.prev_blue {
            out.push((Button::Blue, c));
            self.prev_blue = c;
        }
        let c = category(self.yellow);
        if c != self.prev_yellow {
            out.push((Button::Yellow, c));
            self.prev_yellow = c;
        }
        proof {
            assert(out@ =~= old(self).spec_pending());
        }
        out
    }
}

/// Ticks one state by `elapsed` milliseconds.
fn tick_state(s: AnimState, elapsed: u64) -> (r: AnimState)
    ensures
        r == spec_tick_state(s, elapsed),
{
    match s {
        AnimState::Inactive => AnimState::Inactive,
        AnimState::Pressed { remaining } => if elapsed >= remaining {
            AnimState::Inactive
        } else {
            AnimState::Pressed { remaining: remaining - elapsed }
        },
        AnimState::Lit { remaining } => if elapsed >= remaining {
            AnimState::Inactive
        } else {
            AnimState::Lit { remaining: remaining - elapsed }
        },
    }
}

} // verus!
