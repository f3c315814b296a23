//! The loop that keeps the dashboard alive, as a state machine: each tick
//! draws the record and decides what the driver does next, and the outcome of
//! a refresh is taken in when it arrives.

use vstd::prelude::*;
use vstd::string::*;
use crate::models::PrInfo;
use crate::palette::Palette;
use crate::registry::{Draw, Registry, RowView, apply_all, distinct_keys, drawn};
use crate::rows::{build_rows, rows_of};

verus! {

/// Milliseconds between two ticks.
pub const TICK_MILLIS: u64 = 75;

/// Where a run stands.
#[derive(Debug, Clone, Copy, PartialEq, Eq, Structural)]
pub enum Phase {
    /// Ticks go on.
    Running,
    /// Every check had its outcome at some tick; nothing more happens.
    Completed,
}

/// What the driver does after a tick.
#[derive(Debug, Clone, Copy, PartialEq, Eq, Structural)]
pub enum Action {
    /// Start fetching the record in the background, then wait for the next
    /// tick.
    Refresh,
    /// Wait for the next tick.
    Wait,
    /// Draw the rows once more as they stand, and stop.
    Finish,
}

/// Why a run ended without a dashboard.
#[derive(Debug, Clone, Copy, PartialEq, Eq, Structural)]
pub enum RunError {
    /// The branch has no pull request, or its record could not be had.
    NoSuchPr,
}

impl RunError {
    /// The name of the error.
    pub fn to_string(&self) -> (name: String)
        ensures
            name@ == "NoSuchPr"@,
    {
        match self {
            RunError::NoSuchPr => String::from_str("NoSuchPr"),
        }
    }
}

/// What one tick did to the screen and what follows it.
#[derive(Debug)]
pub struct Step {
    pub draws: Vec<Draw>,
    pub action: Action,
}

/// One run of the dashboard: the record it shows, the rows on the screen and
/// whether a refresh is on its way.
#[derive(Debug)]
pub struct Scheduler {
    pub record: PrInfo,
    pub registry: Registry,
    pub palette: Palette,
    pub phase: Phase,
    /// A refresh was asked for and its outcome has not come in.
    pub refreshing: bool,
    /// The least time between two fetches, in milliseconds.
    pub min_interval: u64,
}

/// What follows a tick at `now` that found the run going: the end once every
/// check has its outcome; else a refresh where none is on its way and the
/// record is due for one; else nothing but the next tick.
pub open spec fn decide(record: PrInfo, refreshing: bool, now: u64, min_interval: u64) -> Action {
    if record@.complete() {
        Action::Finish
    } else if !refreshing && record.due(now, min_interval) {
        Action::Refresh
    } else {
        Action::Wait
    }
}

/// No refresh is asked for before the least interval has passed since the
/// record was fetched, nor while one is on its way; and once the interval has
/// passed, one is asked for, unless the checks are over or a refresh is on its
/// way.
pub proof fn lemma_refresh_gating(record: PrInfo, refreshing: bool, now: u64, min_interval: u64)
    ensures
        now < record.last_fetched + min_interval ==> decide(record, refreshing, now, min_interval)
            != Action::Refresh,
        refreshing ==> decide(record, refreshing, now, min_interval) != Action::Refresh,
        now >= record.last_fetched + min_interval && !refreshing && !record@.complete() ==> decide(
            record,
            refreshing,
            now,
            min_interval,
        ) == Action::Refresh,
{
}

/// After the outcome of a refresh came in at `then`, no tick before
/// `then + min_interval` asks for another, whether the fetch brought a record
/// or failed.
pub proof fn lemma_one_fetch_per_interval(
    record: PrInfo,
    fetched: Option<PrInfo>,
    then: u64,
    now: u64,
    min_interval: u64,
)
    requires
        now < then + min_interval,
    ensures
        decide(record.refreshed_with(fetched, then), false, now, min_interval) != Action::Refresh,
{
}

impl Scheduler {
    /// Enters the run with the record that was fetched first. Without a
    /// record there is nothing to show, and the run fails before anything is
    /// drawn.
    pub fn start(initial: Option<PrInfo>, min_interval: u64, palette: Palette) -> (out: Result<
        Scheduler,
        RunError,
    >)
        ensures
            initial is None ==> out == Err::<Scheduler, RunError>(RunError::NoSuchPr),
            initial is Some ==> out is Ok && ({
                let run = out->Ok_0;
                &&& run.record == initial->0
                &&& run.registry@ == Seq::<RowView>::empty()
                &&& run.palette == palette
                &&& run.phase == Phase::Running
                &&& !run.refreshing
                &&& run.min_interval == min_interval
            }),
    {
        match initial {
            None => Err(RunError::NoSuchPr),
            Some(record) => Ok(
                Scheduler {
                    record,
                    registry: Registry::new(),
                    palette,
                    phase: Phase::Running,
                    refreshing: false,
                    min_interval,
                },
            ),
        }
    }

    /// Whether the run is over.
    pub fn is_completed(&self) -> (done: bool)
        ensures
            done == (self.phase == Phase::Completed),
    {
        match self.phase {
            Phase::Completed => true,
            Phase::Running => false,
        }
    }

    /// One tick at `now`. While the run goes on, the record is drawn as it
    /// is, changed or not, and then the next step is decided: the run is over
    /// once every check has its outcome; else a refresh is asked for where
    /// none is on its way and the record is due for one. A run that is over
    /// draws nothing and stays over.
    pub fn tick(&mut self, now: u64) -> (step: Step)
        ensures
            final(self).record == old(self).record,
            final(self).palette == old(self).palette,
            final(self).min_interval == old(self).min_interval,
            distinct_keys(old(self).registry@),
            distinct_keys(final(self).registry@),
            old(self).registry@.len() <= final(self).registry@.len(),
            forall|j: int|
                0 <= j < old(self).registry@.len() ==> (#[trigger] final(self).registry@[j]).key
                    == old(self).registry@[j].key,
            old(self).phase == Phase::Completed ==> {
                &&& final(self).registry@ == old(self).registry@
                &&& final(self).phase == Phase::Completed
                &&& final(self).refreshing == old(self).refreshing
                &&& step.draws@.len() == 0
                &&& step.action == Action::Finish
            },
            old(self).phase == Phase::Running ==> {
                let frame = rows_of(old(self).record@, old(self).palette@);
                &&& final(self).registry@ == apply_all(
                    old(self).registry@,
                    frame,
                    old(self).palette@,
                )
                &&& drawn(old(self).registry@, frame, old(self).palette@, step.draws@)
                &&& step.action == decide(
                    old(self).record,
                    old(self).refreshing,
                    now,
                    old(self).min_interval,
                )
                &&& final(self).phase == if step.action == Action::Finish {
                    Phase::Completed
                } else {
                    Phase::Running
                }
                &&& final(self).refreshing == (old(self).refreshing || step.action
                    == Action::Refresh)
            },
    {
        proof {
            use_type_invariant(&self.registry);
        }
        if self.is_completed() {
            return Step { draws: Vec::new(), action: Action::Finish };
        }
        let rows = build_rows(&self.record, &self.palette);
        let draws = self.registry.render(&rows, &self.palette);
        let action = if self.record.is_complete() {
            self.phase = Phase::Completed;
            Action::Finish
        } else if !self.refreshing && self.record.refresh_due(now, self.min_interval) {
            self.refreshing = true;
            Action::Refresh
        } else {
            Action::Wait
        };
        Step { draws, action }
    }

    /// Takes in the outcome of the refresh that was asked for, as it came in
    /// at `now`: the fetched record replaces the one shown, or the one shown
    /// stays where the fetch failed, and the next refresh is due a full
    /// interval after `now`. An outcome that nobody asked for is dropped, and
    /// a run that is over keeps its record.
    pub fn refreshed(&mut self, outcome: Option<PrInfo>, now: u64)
        ensures
            final(self).registry@ == old(self).registry@,
            final(self).palette == old(self).palette,
            final(self).min_interval == old(self).min_interval,
            final(self).phase == old(self).phase,
            !final(self).refreshing,
            final(self).record == if old(self).refreshing && old(self).phase == Phase::Running {
                old(self).record.refreshed_with(outcome, now)
            } else {
                old(self).record
            },
            final(self).record.last_fetched >= old(self).record.last_fetched,
    {
        if self.refreshing {
            self.refreshing = false;
            if !self.is_completed() {
                self.record.update(outcome, now);
            }
        }
    }
}

} // verus!
