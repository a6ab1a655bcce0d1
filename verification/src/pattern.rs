//! The remembered pattern of buttons and the cursor into it.

use vstd::prelude::*;

use crate::button::Button;
use crate::rng::draw_button;

verus! {

/// The one programming-invariant error of the engine: a cursor asked to step
/// past the end of the pattern.  Phase discipline keeps it from ever
/// happening in a well-driven game.
#[derive(Clone, Copy, Debug, PartialEq, Eq, Structural)]
pub enum PatternError {
    OutOfRange,
}

/// The remembered sequence of buttons and a cursor into it.  During the
/// reveal phase the cursor is the reveal position; during the input phase it
/// is the validation position.  The two phases never overlap in time, so one
/// field serves both roles.
pub struct PatternStore {
    pub pattern: Vec<Button>,
    pub progress: usize,
}

impl PatternStore {
    /// The cursor never points past the end of the pattern.
    pub open spec fn wf(self) -> bool {
        self.progress <= self.pattern@.len()
    }

    /// An empty pattern with the cursor at the start.
    pub fn new() -> (s: PatternStore)
        ensures
            s.wf(),
            s.pattern@.len() == 0,
            s.progress == 0,
    {
        PatternStore { pattern: Vec::new(), progress: 0 }
    }

    /// Appends one chosen button.  Everything already stored, and the cursor,
    /// stay put.
    pub fn append(&mut self, b: Button)
        ensures
            final(self).pattern@ == old(self).pattern@.push(b),
            final(self).progress == old(self).progress,
    {
        self.pattern.push(b);
    }

    /// Appends one button drawn uniformly at random: the pattern grows by
    /// exactly one, previously stored elements never change, and the cursor
    /// stays put.
    pub fn append_random(&mut self)
        ensures
            final(self).pattern@.len() == old(self).pattern@.len() + 1,
            final(self).pattern@.subrange(0, old(self).pattern@.len() as int) == old(
                self,
            ).pattern@,
            final(self).progress == old(self).progress,
    {
        let b = draw_button();
        self.append(b);
        proof {
            assert(self.pattern@.subrange(0, old(self).pattern@.len() as int) =~= old(
                self,
            ).pattern@);
        }
    }

    /// Empties the pattern and resets the cursor.
    pub fn clear(&mut self)
        ensures
            final(self).wf(),
            final(self).pattern@.len() == 0,
            final(self).progress == 0,
    {
        self.pattern = Vec::new();
        self.progress = 0;
    }

    /// Steps the cursor forward by one.  Rejected with `OutOfRange` exactly
    /// when the cursor already sits at the end of the pattern; the cursor
    /// then stays put (a defensive clamp, never expected in a driven game).
    pub fn advance(&mut self) -> (r: Result<(), PatternError>)
        requires
            old(self).wf(),
        ensures
            final(self).wf(),
            final(self).pattern@ == old(self).pattern@,
            old(self).progress < old(self).pattern@.len() ==> r == Ok::<(), PatternError>(())
                && final(self).progress == old(self).progress + 1,
            old(self).progress >= old(self).pattern@.len() ==> r == Err::<(), PatternError>(
                PatternError::OutOfRange,
            ) && final(self).progress == old(self).progress,
    {
        if self.progress < self.pattern.len() {
            self.progress = self.progress + 1;
            Ok(())
        } else {
            Err(PatternError::OutOfRange)
        }
    }

    /// The button at the cursor, or `None` exactly when the cursor has run
    /// off the end of the pattern.
    pub fn current(&self) -> (r: Option<Button>)
        ensures
            self.progress < self.pattern@.len() ==> r == Some(
                self.pattern@[self.progress as int],
            ),
            self.progress >= self.pattern@.len() ==> r == None::<Button>,
    {
        if self.progress < self.pattern.len() {
            Some(self.pattern[self.progress])
        } else {
            None
        }
    }

    /// Puts the cursor back to the start of the pattern.
    pub fn reset_progress(&mut self)
        ensures
            final(self).wf(),
            final(self).pattern@ == old(self).pattern@,
            final(self).progress == 0,
    {
        self.progress = 0;
    }

    /// The number of stored buttons.
    pub fn len(&self) -> (n: usize)
        ensures
            n == self.pattern@.len(),
    {
        self.pattern.len()
    }
}

} // verus!
