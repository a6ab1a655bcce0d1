//! Score bookkeeping: the current run of completed rounds and the best run
//! ever, with the laws that tie the two together.

use vstd::prelude::*;

verus! {

/// Mathematical view of the score.
#[verifier::ext_equal]
pub ghost struct ScoreView {
    pub current: nat,
    pub high: nat,
}

/// What one completed round does to the score: the run grows by one and the
/// best score keeps up with it.
pub open spec fn spec_success(s: ScoreView) -> ScoreView {
    let c = s.current + 1;
    ScoreView { current: c, high: if c > s.high { c } else { s.high } }
}

/// What one failed round does to the score: the run resets, the best score
/// stays.
pub open spec fn spec_failure(s: ScoreView) -> ScoreView {
    ScoreView { current: 0, high: s.high }
}

/// One round's result folded over the score: `true` for a completed round,
/// `false` for a failed one.
pub open spec fn spec_result(s: ScoreView, success: bool) -> ScoreView {
    if success {
        spec_success(s)
    } else {
        spec_failure(s)
    }
}

/// A whole run of round results folded over the score, oldest first.
pub open spec fn spec_run(s: ScoreView, results: Seq<bool>) -> ScoreView
    decreases results.len(),
{
    if results.len() == 0 {
        s
    } else {
        spec_run(spec_result(s, results[0]), results.drop_first())
    }
}

/// The largest current score standing at any point while `results` is folded
/// over the score (the start included).
pub open spec fn spec_peak(s: ScoreView, results: Seq<bool>) -> nat
    decreases results.len(),
{
    if results.len() == 0 {
        s.current
    } else {
        let rest = spec_peak(spec_result(s, results[0]), results.drop_first());
        if s.current > rest {
            s.current
        } else {
            rest
        }
    }
}

/// The best score never decreases: not over a whole run of round results,
/// and not at any point along the way.
pub proof fn lemma_high_monotonic(s: ScoreView, results: Seq<bool>)
    ensures
        spec_run(s, results).high >= s.high,
        forall|i: int|
            0 <= i <= results.len() ==> #[trigger] spec_run(s, results.take(i)).high <= spec_run(
                s,
                results,
            ).high,
    decreases results.len(),
{
    if results.len() > 0 {
        let s1 = spec_result(s, results[0]);
        lemma_high_monotonic(s1, results.drop_first());
        assert forall|i: int| 0 <= i <= results.len() implies #[trigger] spec_run(
            s,
            results.take(i),
        ).high <= spec_run(s, results).high by {
            if i == 0 {
                assert(results.take(0) =~= Seq::<bool>::empty());
            } else {
                assert(results.take(i)[0] == results[0]);
                assert(results.take(i).drop_first() =~= results.drop_first().take(i - 1));
                assert(spec_run(s, results.take(i)) == spec_run(
                    s1,
                    results.drop_first().take(i - 1),
                ));
                assert(spec_run(s1, results.drop_first().take(i - 1)).high <= spec_run(
                    s1,
                    results.drop_first(),
                ).high);
            }
        }
    } else {
        assert forall|i: int| 0 <= i <= results.len() implies #[trigger] spec_run(
            s,
            results.take(i),
        ).high <= spec_run(s, results).high by {
            assert(results.take(i) =~= results);
        }
    }
}

/// The peak is at least the current score at the start.
proof fn lemma_peak_ge_current(s: ScoreView, results: Seq<bool>)
    ensures
        spec_peak(s, results) >= s.current,
{
}

/// After any run of round results, the best score equals the largest current
/// score ever standing along the run — or the best score it started with,
/// where that was never reached again.
pub proof fn lemma_high_is_peak(s: ScoreView, results: Seq<bool>)
    requires
        s.current <= s.high,
    ensures
        spec_run(s, results).high == if spec_peak(s, results) > s.high {
            spec_peak(s, results)
        } else {
            s.high
        },
    decreases results.len(),
{
    if results.len() > 0 {
        let s1 = spec_result(s, results[0]);
        lemma_high_is_peak(s1, results.drop_first());
        lemma_peak_ge_current(s1, results.drop_first());
    }
}

/// From a zeroed score — how every game starts — the best score after any
/// run of round results equals exactly the largest current score ever
/// standing along the run.
pub proof fn lemma_high_is_peak_from_zero(results: Seq<bool>)
    ensures
        spec_run((ScoreView { current: 0, high: 0 }), results).high == spec_peak(
            (ScoreView { current: 0, high: 0 }),
            results,
        ),
{
    let z = ScoreView { current: 0, high: 0 };
    lemma_high_is_peak(z, results);
    lemma_peak_ge_current(z, results);
}

/// Current and best score of the running game.
pub struct ScoreTracker {
    pub current: u64,
    pub high: u64,
}

impl View for ScoreTracker {
    type V = ScoreView;

    open spec fn view(&self) -> ScoreView {
        ScoreView { current: self.current as nat, high: self.high as nat }
    }
}

impl ScoreTracker {
    /// The best score is at least the current run.
    pub open spec fn wf(self) -> bool {
        self.current <= self.high
    }

    /// A zeroed score.
    pub fn new() -> (s: ScoreTracker)
        ensures
            s.wf(),
            s@ == (ScoreView { current: 0, high: 0 }),
    {
        ScoreTracker { current: 0, high: 0 }
    }

    /// Records one completed round.
    pub fn record_success(&mut self)
        requires
            old(self).current < u64::MAX,
        ensures
            final(self)@ == spec_success(old(self)@),
            old(self).wf() ==> final(self).wf(),
    {
        self.current = self.current + 1;
        if self.current > self.high {
            self.high = self.current;
        }
    }

    /// Records one failed round.
    pub fn record_failure(&mut self)
        ensures
            final(self)@ == spec_failure(old(self)@),
            old(self).wf() ==> final(self).wf(),
    {
        self.current = 0;
    }
}

} // verus!
