//! The mathematical model of a trial: its state as plain integers, the
//! transitions between states, and what holds of them.

use vstd::prelude::*;
use crate::catalog::CATALOG_SIZE;
use crate::progress::{clamped_ratio, lemma_clamped_ratio_monotonic, Fraction};

verus! {

/// The span after which a new trial reveals the tablature, in seconds.
pub const DEFAULT_TAB_REVEAL_SECONDS: i32 = 3;

/// The length of a new trial, in seconds.
pub const DEFAULT_TOTAL_SECONDS: i32 = 6;

/// What one tick did to a trial.
#[derive(Clone, Copy, Debug, PartialEq, Eq)]
pub enum TickOutcome {
    /// The trial goes on and the visibility of the tablature did not change.
    Counted,
    /// The trial goes on and the tablature became visible.
    Revealed,
    /// The trial ended and the next one began.
    Restarted,
}

/// The state of a trial.
pub struct TrialView {
    /// The position in the catalog of the scale on display.
    pub current_index: int,
    /// The seconds that the trial has lasted.
    pub elapsed_seconds: int,
    /// The second at which the tablature is revealed.
    pub tab_reveal_seconds: int,
    /// The second at which the trial ends.
    pub total_seconds: int,
    /// Whether the tablature is on display.
    pub tab_visible: bool,
}

impl TrialView {
    /// The scale on display is one of the catalog, and no time is negative.
    ///
    /// The two spans are whatever the caller last set; see
    /// [`TrialView::with_tab_reveal_seconds`] for the one rule that ties them.
    pub open spec fn wf(self) -> bool {
        &&& 0 <= self.current_index < CATALOG_SIZE
        &&& 0 <= self.elapsed_seconds
    }

    /// The first trial: the first scale of the catalog, no time elapsed, the
    /// tablature hidden, and the default spans.
    pub open spec fn initial() -> TrialView {
        TrialView {
            current_index: 0,
            elapsed_seconds: 0,
            tab_reveal_seconds: DEFAULT_TAB_REVEAL_SECONDS as int,
            total_seconds: DEFAULT_TOTAL_SECONDS as int,
            tab_visible: false,
        }
    }

    /// One more second of the same trial. The tablature becomes visible at the
    /// second that equals the reveal span, and stays so.
    pub open spec fn counted(self) -> TrialView {
        TrialView {
            elapsed_seconds: self.elapsed_seconds + 1,
            tab_visible: self.tab_visible || self.elapsed_seconds + 1 == self.tab_reveal_seconds,
            ..self
        }
    }

    /// The trial has lasted its whole length.
    pub open spec fn due(self) -> bool {
        self.elapsed_seconds >= self.total_seconds
    }

    /// A new trial on the scale at `index`, with the spans unchanged.
    pub open spec fn restarted(self, index: int) -> TrialView {
        TrialView { current_index: index, elapsed_seconds: 0, tab_visible: false, ..self }
    }

    /// The state after a tick. `drawn` is the scale of the next trial; it is
    /// used only where the tick ends this one.
    pub open spec fn ticked(self, drawn: int) -> TrialView {
        if self.counted().due() {
            self.counted().restarted(drawn)
        } else {
            self.counted()
        }
    }

    /// What the next tick does to this state.
    pub open spec fn outcome(self) -> TickOutcome {
        if self.counted().due() {
            TickOutcome::Restarted
        } else if !self.tab_visible && self.counted().tab_visible {
            TickOutcome::Revealed
        } else {
            TickOutcome::Counted
        }
    }

    /// The state after `draws.len()` ticks, the tick at position `i` drawing
    /// `draws[i]` if it ends a trial.
    pub open spec fn run(self, draws: Seq<int>) -> TrialView
        decreases draws.len(),
    {
        if draws.len() == 0 {
            self
        } else {
            self.run(draws.drop_last()).ticked(draws.last())
        }
    }

    /// None of the next `ticks` ticks ends the trial.
    pub open spec fn lasts(self, ticks: nat) -> bool {
        self.elapsed_seconds + ticks < self.total_seconds
    }

    /// The state with the trial's length set to `seconds`, whatever it is.
    pub open spec fn with_total_seconds(self, seconds: int) -> TrialView {
        TrialView { total_seconds: seconds, ..self }
    }

    /// The state with the reveal span set to `seconds`, or to the trial's
    /// length where `seconds` is beyond it. There is no lower limit.
    pub open spec fn with_tab_reveal_seconds(self, seconds: int) -> TrialView {
        TrialView {
            tab_reveal_seconds: if seconds <= self.total_seconds {
                seconds
            } else {
                self.total_seconds
            },
            ..self
        }
    }

    /// The progress of the first phase, in which the scale is shown alone:
    /// the elapsed time over the reveal span.
    pub open spec fn scale_progress(self) -> Fraction {
        clamped_ratio(self.elapsed_seconds, self.tab_reveal_seconds)
    }

    /// The progress of the second phase, in which the tablature is shown: the
    /// time since the reveal over the time between the reveal and the end.
    pub open spec fn tab_progress(self) -> Fraction {
        clamped_ratio(
            self.elapsed_seconds - self.tab_reveal_seconds,
            self.total_seconds - self.tab_reveal_seconds,
        )
    }
}

/// A tick keeps a state well-formed, whichever scale of the catalog it draws.
pub proof fn lemma_tick_keeps_wf(state: TrialView, drawn: int)
    requires
        state.wf(),
        0 <= drawn < CATALOG_SIZE,
    ensures
        state.ticked(drawn).wf(),
{
}

/// Any number of ticks keeps a state well-formed, as long as every draw is a
/// position of the catalog.
pub proof fn lemma_run_keeps_wf(state: TrialView, draws: Seq<int>)
    requires
        state.wf(),
        forall|i: int| 0 <= i < draws.len() ==> 0 <= #[trigger] draws[i] < CATALOG_SIZE,
    ensures
        state.run(draws).wf(),
    decreases draws.len(),
{
    if draws.len() > 0 {
        lemma_run_keeps_wf(state, draws.drop_last());
        lemma_tick_keeps_wf(state.run(draws.drop_last()), draws.last());
    }
}

/// A tick that ends a trial leaves no time elapsed and the tablature hidden,
/// whatever the state before it.
pub proof fn lemma_restart_resets(state: TrialView, drawn: int)
    requires
        state.counted().due(),
    ensures
        state.ticked(drawn).elapsed_seconds == 0,
        !state.ticked(drawn).tab_visible,
        state.ticked(drawn).current_index == drawn,
        state.outcome() == TickOutcome::Restarted,
{
}

/// Ticks that do not end the trial only count: the scale and the two spans
/// stay, and the elapsed time grows by one second for each tick.
pub proof fn lemma_run_within_trial(state: TrialView, draws: Seq<int>)
    requires
        state.lasts(draws.len()),
    ensures
        state.run(draws).elapsed_seconds == state.elapsed_seconds + draws.len(),
        state.run(draws).current_index == state.current_index,
        state.run(draws).tab_reveal_seconds == state.tab_reveal_seconds,
        state.run(draws).total_seconds == state.total_seconds,
    decreases draws.len(),
{
    if draws.len() > 0 {
        lemma_run_within_trial(state, draws.drop_last());
    }
}

/// Once the tablature is visible, ticks that do not end the trial never hide
/// it again.
pub proof fn lemma_tab_stays_visible(state: TrialView, draws: Seq<int>)
    requires
        state.tab_visible,
        state.lasts(draws.len()),
    ensures
        state.run(draws).tab_visible,
    decreases draws.len(),
{
    if draws.len() > 0 {
        lemma_tab_stays_visible(state, draws.drop_last());
        lemma_run_within_trial(state, draws.drop_last());
    }
}

/// Within a trial neither progress ever falls: after the first `earlier` of a
/// run of ticks that do not end the trial, each is at most what it is after
/// all of them. Both lie between zero and one throughout.
pub proof fn lemma_progress_monotonic(state: TrialView, draws: Seq<int>, earlier: int)
    requires
        state.wf(),
        0 <= earlier <= draws.len(),
        state.lasts(draws.len()),
    ensures
        state.run(draws.take(earlier)).scale_progress().wf(),
        state.run(draws.take(earlier)).tab_progress().wf(),
        state.run(draws).scale_progress().wf(),
        state.run(draws).tab_progress().wf(),
        state.run(draws.take(earlier)).scale_progress().le(state.run(draws).scale_progress()),
        state.run(draws.take(earlier)).tab_progress().le(state.run(draws).tab_progress()),
{
    lemma_run_within_trial(state, draws.take(earlier));
    lemma_run_within_trial(state, draws);
    let before = state.run(draws.take(earlier));
    let after = state.run(draws);
    if state.tab_reveal_seconds > 0 {
        lemma_clamped_ratio_monotonic(
            before.elapsed_seconds,
            after.elapsed_seconds,
            state.tab_reveal_seconds,
        );
    }
    if state.total_seconds > state.tab_reveal_seconds {
        lemma_clamped_ratio_monotonic(
            before.elapsed_seconds - state.tab_reveal_seconds,
            after.elapsed_seconds - state.tab_reveal_seconds,
            state.total_seconds - state.tab_reveal_seconds,
        );
    }
}

} // verus!
