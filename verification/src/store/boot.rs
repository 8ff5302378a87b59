//! Goals that an earlier daemon left behind.
use vstd::prelude::*;
#[allow(unused_imports)]
use vstd::string::*;

use super::session::{finish_time, first_finish, next_epoch};
use super::{TaskRow, TaskRowView, TaskStore};
use crate::clock::{is_timestamp, now_rfc3339};
use crate::goal_task::{GoalAccountingState, GoalPauseReason, GoalTaskView};
use crate::message::Text;
use crate::task::{TaskKind, TaskRecord, TaskStatus};
use crate::text::same_text;

verus! {

/// What becomes of a goal when another daemon starts.
#[derive(Clone, Copy, Debug, PartialEq, Eq, Structural)]
pub enum BootFate {
    /// Stays as it is.
    Kept,
    /// Fails: its control extension is gone.
    ExtensionMissing,
    /// Fails: what its last call used is not known.
    AccountingUnknown,
    /// Pauses until someone resumes it.
    Paused,
    /// Fails: it has no further epoch.
    EpochExhausted,
}

/// A session-bound goal that another daemon owned.
pub open spec fn left_behind(row: TaskRowView, boot_id: Seq<char>) -> bool {
    row.task.kind is Goal && row.task.session_id is Some && row.task.owner_boot_id@ != boot_id
}

pub open spec fn boot_fate(row: TaskRowView, boot_id: Seq<char>) -> BootFate {
    if !left_behind(row, boot_id) || !row.task.status.active() {
        BootFate::Kept
    } else {
        match row.goal {
            None => BootFate::ExtensionMissing,
            Some(goal) => if !goal.clean() {
                BootFate::AccountingUnknown
            } else if row.task.status is Paused {
                BootFate::Kept
            } else if row.task.execution_epoch < i64::MAX {
                BootFate::Paused
            } else {
                BootFate::EpochExhausted
            },
        }
    }
}

/// The task row after a boot.
pub open spec fn booted_task(task: TaskRecord, fate: BootFate, now: String) -> TaskRecord {
    match fate {
        BootFate::Kept => task,
        BootFate::ExtensionMissing | BootFate::AccountingUnknown => TaskRecord {
            status: TaskStatus::Failed,
            finished_at: finish_time(task.finished_at, now),
            execution_epoch: next_epoch(task.execution_epoch),
            ..task
        },
        BootFate::Paused => TaskRecord {
            status: TaskStatus::Paused,
            execution_epoch: next_epoch(task.execution_epoch),
            ..task
        },
        BootFate::EpochExhausted => TaskRecord {
            status: TaskStatus::Failed,
            finished_at: finish_time(task.finished_at, now),
            ..task
        },
    }
}

/// The terminal reason after a boot.
pub open spec fn booted_error(error: Option<Text>, fate: BootFate) -> Option<Text> {
    match fate {
        BootFate::Kept | BootFate::Paused => error,
        BootFate::ExtensionMissing => Some(Text::Fixed("goal_control_state_missing")),
        BootFate::AccountingUnknown => Some(Text::Fixed("accounting_outcome_unknown")),
        BootFate::EpochExhausted => Some(Text::Fixed("goal_epoch_exhausted")),
    }
}

/// The extension row after a boot: a call that was outstanding has an unknown
/// outcome from now on, and an interrupted goal says why it is paused.
pub open spec fn booted_goal(goal: GoalTaskView, fate: BootFate) -> GoalTaskView {
    let classified = if goal.settled() {
        goal
    } else {
        GoalTaskView {
            pending_call_id: None,
            pending_call_epoch: None,
            accounting_state: GoalAccountingState::OutcomeUnknown,
            ..goal
        }
    };
    if fate is Paused {
        GoalTaskView {
            pause_reason: Some(GoalPauseReason::DaemonRestart),
            pause_description: Some(Text::Fixed("daemon restart")),
            blockers: Seq::empty(),
            ..classified
        }
    } else {
        classified
    }
}

/// A row after a boot.
pub open spec fn booted(row: TaskRowView, boot_id: Seq<char>, now: String) -> TaskRowView {
    if left_behind(row, boot_id) {
        let fate = boot_fate(row, boot_id);
        TaskRowView {
            task: booted_task(row.task, fate, now),
            error: booted_error(row.error, fate),
            goal: match row.goal {
                Some(goal) => Some(booted_goal(goal, fate)),
                None => None,
            },
            continuation: row.continuation,
        }
    } else {
        row
    }
}

/// All rows after a boot.
pub open spec fn booted_rows(rows: Seq<TaskRowView>, boot_id: Seq<char>, now: String) -> Seq<TaskRowView> {
    rows.map_values(|row: TaskRowView| booted(row, boot_id, now))
}

/// How many goals among the rows changed state.
pub open spec fn boot_count(rows: Seq<TaskRowView>, boot_id: Seq<char>) -> nat
    decreases rows.len(),
{
    if rows.len() == 0 {
        0
    } else {
        boot_count(rows.drop_last(), boot_id) + if boot_fate(rows.last(), boot_id) is Kept {
            0nat
        } else {
            1nat
        }
    }
}

impl TaskRow {
    fn fate(&self, boot_id: &str) -> (r: BootFate)
        ensures
            r == boot_fate(self@, boot_id@),
    {
        if self.task.kind != TaskKind::Goal || self.task.session_id.is_none() || same_text(
            self.task.owner_boot_id.as_str(),
            boot_id,
        ) || self.task.status.is_terminal() {
            return BootFate::Kept;
        }
        match &self.goal {
            None => BootFate::ExtensionMissing,
            Some(goal) => if goal.pending_call_id.is_some() || goal.pending_call_epoch.is_some()
                || goal.accounting_state != GoalAccountingState::Complete {
                BootFate::AccountingUnknown
            } else if self.task.status == TaskStatus::Paused {
                BootFate::Kept
            } else if self.task.execution_epoch < i64::MAX {
                BootFate::Paused
            } else {
                BootFate::EpochExhausted
            },
        }
    }

    fn boot(&mut self, boot_id: &str, now: &String) -> (r: BootFate)
        ensures
            r == boot_fate(old(self)@, boot_id@),
            final(self)@ == booted(old(self)@, boot_id@, *now),
    {
        let fate = self.fate(boot_id);
        if self.task.kind != TaskKind::Goal || self.task.session_id.is_none() || same_text(
            self.task.owner_boot_id.as_str(),
            boot_id,
        ) {
            return fate;
        }
        match &mut self.goal {
            Some(goal) => {
                if goal.pending_call_id.is_some() || goal.pending_call_epoch.is_some() {
                    goal.pending_call_id = None;
                    goal.pending_call_epoch = None;
                    goal.accounting_state = GoalAccountingState::OutcomeUnknown;
                }
                if fate == BootFate::Paused {
                    goal.pause_reason = Some(GoalPauseReason::DaemonRestart);
                    goal.pause_description = Some(Text::Fixed("daemon restart"));
                    goal.blockers = Vec::new();
                }
            },
            None => {},
        }
        match fate {
            BootFate::Kept => {},
            BootFate::ExtensionMissing => {
                self.fail(Text::Fixed("goal_control_state_missing"), now);
            },
            BootFate::AccountingUnknown => {
                self.fail(Text::Fixed("accounting_outcome_unknown"), now);
            },
            BootFate::Paused => {
                self.task.status = TaskStatus::Paused;
                self.task.execution_epoch = self.task.execution_epoch + 1;
            },
            BootFate::EpochExhausted => {
                self.fail(Text::Fixed("goal_epoch_exhausted"), now);
            },
        }
        fate
    }

    fn fail(&mut self, error: Text, now: &String)
        ensures
            final(self)@ == (TaskRowView {
                task: TaskRecord {
                    status: TaskStatus::Failed,
                    finished_at: finish_time(old(self).task.finished_at, *now),
                    execution_epoch: next_epoch(old(self).task.execution_epoch),
                    ..old(self).task
                },
                error: Some(error),
                ..old(self)@
            }),
    {
        self.task.status = TaskStatus::Failed;
        self.error = Some(error);
        self.task.finished_at = first_finish(&self.task.finished_at, now);
        if self.task.execution_epoch < i64::MAX {
            self.task.execution_epoch = self.task.execution_epoch + 1;
        }
    }
}

impl TaskStore {
    /// Fences every goal that an earlier daemon left behind, as of `now`, and
    /// counts the goals that changed state.
    pub fn reconcile_goal_boot_state_at(&mut self, boot_id: &str, now: String) -> (r: u64)
        ensures
            final(self)@ == booted_rows(old(self)@, boot_id@, now),
            r == boot_count(old(self)@, boot_id@),
    {
        let ghost before = self@;
        let mut count: u64 = 0;
        let mut i: usize = 0;
        while i < self.rows.len()
            invariant
                i <= self.rows.len(),
                self.rows.len() == before.len(),
                count <= i,
                count == boot_count(before.take(i as int), boot_id@),
                forall|j: int| 0 <= j < i ==> (#[trigger] self.rows@[j])@ == booted(before[j], boot_id@, now),
                forall|j: int| i <= j < before.len() ==> (#[trigger] self.rows@[j])@ == before[j],
            decreases self.rows.len() - i,
        {
            assert(self.rows@[i as int]@ == before[i as int]);
            assert(before.take(i + 1).drop_last() =~= before.take(i as int));
            let fate = self.rows[i].boot(boot_id, &now);
            if fate != BootFate::Kept {
                count = count + 1;
            }
            i = i + 1;
        }
        assert(before.take(i as int) =~= before);
        assert(self@ =~= booted_rows(before, boot_id@, now));
        count
    }

    /// Fences every goal that an earlier daemon left behind. An outstanding
    /// call fails its goal; a goal with nothing outstanding can be resumed.
    pub fn reconcile_goal_boot_state(&mut self, boot_id: &str) -> (r: u64)
        ensures
            exists|now: String|
                is_timestamp(now@) && final(self)@ == #[trigger] booted_rows(old(self)@, boot_id@, now),
            r == boot_count(old(self)@, boot_id@),
    {
        let now = now_rfc3339();
        self.reconcile_goal_boot_state_at(boot_id, now)
    }
}

} // verus!
