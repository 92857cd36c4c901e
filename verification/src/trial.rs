//! The state of a trial and the operations that change it.

use vstd::prelude::*;
use crate::catalog::{get, name_at, IndexOutOfRange, Scale, CATALOG_SIZE};
use crate::chance::draw_below;
use crate::model::{TickOutcome, TrialView, DEFAULT_TAB_REVEAL_SECONDS, DEFAULT_TOTAL_SECONDS};
use crate::progress::Progress;

verus! {

/// A trial in progress: the scale on display, the seconds elapsed, the two
/// spans that the user may edit, and whether the tablature is shown.
///
/// Every value shows a scale of the catalog. Its seconds elapsed are never
/// negative and stay below `i32::MAX`, since the tick that reaches the
/// trial's length starts over: a tick can always count one more second.
#[derive(Clone, Copy, Debug, PartialEq, Eq)]
pub struct TrialState {
    current_index: usize,
    elapsed_seconds: i32,
    tab_reveal_seconds: i32,
    total_seconds: i32,
    tab_visible: bool,
}

impl View for TrialState {
    type V = TrialView;

    closed spec fn view(&self) -> TrialView {
        TrialView {
            current_index: self.current_index as int,
            elapsed_seconds: self.elapsed_seconds as int,
            tab_reveal_seconds: self.tab_reveal_seconds as int,
            total_seconds: self.total_seconds as int,
            tab_visible: self.tab_visible,
        }
    }
}

impl TrialState {
    #[verifier::type_invariant]
    spec fn inv(self) -> bool {
        &&& self.current_index < CATALOG_SIZE
        &&& 0 <= self.elapsed_seconds < i32::MAX
    }

    /// The first trial; see [`TrialView::initial`].
    pub fn new() -> (state: TrialState)
        ensures
            state@ == TrialView::initial(),
            state@.wf(),
    {
        TrialState {
            current_index: 0,
            elapsed_seconds: 0,
            tab_reveal_seconds: DEFAULT_TAB_REVEAL_SECONDS,
            total_seconds: DEFAULT_TOTAL_SECONDS,
            tab_visible: false,
        }
    }

    /// Begins a new trial on the scale at `index`: no time elapsed, the
    /// tablature hidden, the spans unchanged. A position that the catalog does
    /// not have is refused and leaves the state as it was.
    pub fn select(&mut self, index: usize) -> (done: Result<(), IndexOutOfRange>)
        ensures
            index < CATALOG_SIZE ==> done is Ok && final(self)@ == old(self)@.restarted(
                index as int,
            ),
            index >= CATALOG_SIZE ==> done == Err::<(), IndexOutOfRange>(
                IndexOutOfRange { index, size: CATALOG_SIZE },
            ) && final(self)@ == old(self)@,
            final(self)@.wf(),
    {
        proof {
            use_type_invariant(&*self);
        }
        if index < CATALOG_SIZE {
            self.begin(index);
            Ok(())
        } else {
            Err(IndexOutOfRange { index, size: CATALOG_SIZE })
        }
    }

    /// Begins a new trial on the scale at `index`.
    fn begin(&mut self, index: usize)
        requires
            index < CATALOG_SIZE,
        ensures
            final(self)@ == old(self)@.restarted(index as int),
            final(self)@.wf(),
    {
        proof {
            use_type_invariant(&*self);
        }
        self.current_index = index;
        self.elapsed_seconds = 0;
        self.tab_visible = false;
    }

    /// Begins a new trial on a scale drawn at random from the whole catalog.
    /// The draw does not look at the scale on display, so the same scale may
    /// come again.
    pub fn select_next(&mut self)
        ensures
            final(self)@ == old(self)@.restarted(final(self)@.current_index),
            final(self)@.elapsed_seconds == 0,
            !final(self)@.tab_visible,
            final(self)@.wf(),
    {
        let index: usize = draw_below(CATALOG_SIZE);
        self.begin(index);
    }

    /// Counts one second. The tablature becomes visible at the second that
    /// equals the reveal span. At the second that reaches the trial's length
    /// the trial ends instead and the next begins, on a scale drawn at random.
    pub fn tick(&mut self) -> (outcome: TickOutcome)
        ensures
            final(self)@ == old(self)@.ticked(final(self)@.current_index),
            outcome == old(self)@.outcome(),
            final(self)@.wf(),
    {
        proof {
            use_type_invariant(&*self);
        }
        let elapsed: i32 = self.elapsed_seconds + 1;
        if elapsed >= self.total_seconds {
            self.select_next();
            TickOutcome::Restarted
        } else {
            let reveal: bool = !self.tab_visible && elapsed == self.tab_reveal_seconds;
            self.elapsed_seconds = elapsed;
            if reveal {
                self.tab_visible = true;
                TickOutcome::Revealed
            } else {
                TickOutcome::Counted
            }
        }
    }

    /// Sets the trial's length to `seconds`. No limit is applied: the length
    /// may fall below the reveal span, and to zero or less.
    pub fn set_total_seconds(&mut self, seconds: i32)
        ensures
            final(self)@ == old(self)@.with_total_seconds(seconds as int),
            final(self)@.wf(),
    {
        proof {
            use_type_invariant(&*self);
        }
        self.total_seconds = seconds;
    }

    /// Sets the reveal span to `seconds`, or to the trial's length where
    /// `seconds` is beyond it. There is no lower limit: zero and negative
    /// spans are stored as they are.
    pub fn set_tab_reveal_seconds(&mut self, seconds: i32)
        ensures
            final(self)@ == old(self)@.with_tab_reveal_seconds(seconds as int),
            final(self)@.tab_reveal_seconds <= final(self)@.total_seconds,
            final(self)@.wf(),
    {
        proof {
            use_type_invariant(&*self);
        }
        if seconds <= self.total_seconds {
            self.tab_reveal_seconds = seconds;
        } else {
            self.tab_reveal_seconds = self.total_seconds;
        }
    }

    /// The progress of the first phase; see [`TrialView::scale_progress`].
    pub fn scale_progress(&self) -> (progress: Progress)
        ensures
            progress@ == self@.scale_progress(),
            progress@.wf(),
    {
        Progress::ratio(self.elapsed_seconds as i64, self.tab_reveal_seconds as i64)
    }

    /// The progress of the second phase; see [`TrialView::tab_progress`].
    pub fn tab_progress(&self) -> (progress: Progress)
        ensures
            progress@ == self@.tab_progress(),
            progress@.wf(),
    {
        let reveal: i64 = self.tab_reveal_seconds as i64;
        Progress::ratio(self.elapsed_seconds as i64 - reveal, self.total_seconds as i64 - reveal)
    }

    /// The position in the catalog of the scale on display.
    pub fn current_index(&self) -> (index: usize)
        ensures
            index == self@.current_index,
            index < CATALOG_SIZE,
    {
        proof {
            use_type_invariant(self);
        }
        self.current_index
    }

    /// The scale on display.
    pub fn current_scale(&self) -> (scale: Scale)
        ensures
            scale@ == name_at(self@.current_index),
    {
        proof {
            use_type_invariant(self);
        }
        get(self.current_index).unwrap()
    }

    /// The seconds that the trial has lasted.
    pub fn elapsed_seconds(&self) -> (seconds: i32)
        ensures
            seconds == self@.elapsed_seconds,
            seconds >= 0,
    {
        proof {
            use_type_invariant(self);
        }
        self.elapsed_seconds
    }

    /// The second at which the tablature is revealed.
    pub fn tab_reveal_seconds(&self) -> (seconds: i32)
        ensures
            seconds == self@.tab_reveal_seconds,
    {
        self.tab_reveal_seconds
    }

    /// The second at which the trial ends.
    pub fn total_seconds(&self) -> (seconds: i32)
        ensures
            seconds == self@.total_seconds,
    {
        self.total_seconds
    }

    /// Whether the tablature is on display.
    pub fn tab_visible(&self) -> (visible: bool)
        ensures
            visible == self@.tab_visible,
    {
        self.tab_visible
    }
}

} // verus!
