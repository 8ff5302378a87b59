//! Guarded changes and deletions of rows, as one pass over the tables.
use vstd::prelude::*;
#[allow(unused_imports)]
use vstd::string::*;

use super::legacy::{continued, extends, goal_with_id, pause_view, repaused};
use super::session::{active_at, admissible, admitted, awaiting, deletable, finished, limitable, limited, pausable, paused, resumable, resumed, settled, with_id, without};
use super::{any_row, transition_outcome, updated, TaskRow, TaskRowView, TaskStore};
use crate::goal_task::{GoalAccountingState, GoalPauseState, GoalTransitionResult, TaskContinuationContext};
use crate::message::Text;
use crate::task::TaskStatus;
use crate::text::same_text;
use crate::usd::Usd;

verus! {

/// A change of the rows that pass a guard.
#[allow(inconsistent_fields)]
pub(crate) enum RowChange<'a> {
    Pause { task_id: &'a str, session_id: &'a str, epoch: i64, pause: &'a GoalPauseState },
    Resume { task_id: &'a str, session_id: &'a str, epoch: i64, owner_pid: u32, owner_boot_id: &'a String },
    Finish {
        task_id: &'a str,
        session_id: &'a str,
        epoch: i64,
        status: TaskStatus,
        error: &'a Option<Text>,
        now: &'a String,
    },
    Pend { task_id: &'a str, session_id: &'a str, epoch: i64, call_id: &'a String },
    Settle {
        task_id: &'a str,
        session_id: &'a str,
        epoch: i64,
        call_id: &'a str,
        accounting_state: GoalAccountingState,
    },
    Limit {
        task_id: &'a str,
        session_id: &'a str,
        epoch: i64,
        token_limit: Option<u64>,
        cost_limit_usd: Option<Usd>,
    },
    /// The limits of a goal, whatever its session and epoch.
    Relimit { task_id: &'a str, token_limit: Option<u64>, cost_limit_usd: Option<Usd> },
    /// The pause of a goal, whatever its session and epoch.
    Repause { task_id: &'a str, pause: &'a Option<GoalPauseState> },
    Continue { task_id: &'a str, context: &'a Option<TaskContinuationContext> },
}

impl<'a> RowChange<'a> {
    /// The rows that are changed.
    pub(crate) open spec fn guard(self) -> spec_fn(TaskRowView) -> bool {
        match self {
            RowChange::Pause { task_id, session_id, epoch, .. } => pausable(task_id@, session_id@, epoch),
            RowChange::Resume { task_id, session_id, epoch, .. } => resumable(task_id@, session_id@, epoch),
            RowChange::Finish { task_id, session_id, epoch, .. } => active_at(task_id@, session_id@, epoch),
            RowChange::Pend { task_id, session_id, epoch, .. } => admissible(task_id@, session_id@, epoch),
            RowChange::Settle { task_id, session_id, epoch, call_id, .. } => awaiting(
                task_id@,
                session_id@,
                epoch,
                call_id@,
            ),
            RowChange::Limit { task_id, session_id, epoch, .. } => limitable(task_id@, session_id@, epoch),
            RowChange::Relimit { task_id, .. } => extends(task_id@),
            RowChange::Repause { task_id, .. } => extends(task_id@),
            RowChange::Continue { task_id, .. } => goal_with_id(task_id@),
        }
    }

    /// What becomes of them.
    pub(crate) open spec fn step(self) -> spec_fn(TaskRowView) -> TaskRowView {
        match self {
            RowChange::Pause { pause, .. } => paused(pause@),
            RowChange::Resume { owner_pid, owner_boot_id, .. } => resumed(owner_pid, *owner_boot_id),
            RowChange::Finish { status, error, now, .. } => finished(status, *error, *now),
            RowChange::Pend { call_id, epoch, .. } => admitted(*call_id, epoch),
            RowChange::Settle { accounting_state, .. } => settled(accounting_state),
            RowChange::Limit { token_limit, cost_limit_usd, .. } => limited(token_limit, cost_limit_usd),
            RowChange::Relimit { token_limit, cost_limit_usd, .. } => limited(token_limit, cost_limit_usd),
            RowChange::Repause { pause, .. } => repaused(pause_view(*pause)),
            RowChange::Continue { context, .. } => continued(*context),
        }
    }

    /// Changes one row if it passes the guard.
    fn apply(&self, row: &mut TaskRow) -> (hit: bool)
        ensures
            hit == self.guard()(old(row)@),
            final(row)@ == (if hit {
                self.step()(old(row)@)
            } else {
                old(row)@
            }),
    {
        match self {
            RowChange::Pause { task_id, session_id, epoch, pause } => row.pause_if(task_id, session_id, *epoch, pause),
            RowChange::Resume { task_id, session_id, epoch, owner_pid, owner_boot_id } => row.resume_if(
                task_id,
                session_id,
                *epoch,
                *owner_pid,
                owner_boot_id,
            ),
            RowChange::Finish { task_id, session_id, epoch, status, error, now } => row.finish_if(
                task_id,
                session_id,
                *epoch,
                *status,
                error,
                now,
            ),
            RowChange::Pend { task_id, session_id, epoch, call_id } => row.admit_if(task_id, session_id, *epoch, call_id),
            RowChange::Settle { task_id, session_id, epoch, call_id, accounting_state } => row.settle_if(
                task_id,
                session_id,
                *epoch,
                call_id,
                *accounting_state,
            ),
            RowChange::Limit { task_id, session_id, epoch, token_limit, cost_limit_usd } => row.limit_if(
                task_id,
                session_id,
                *epoch,
                *token_limit,
                *cost_limit_usd,
            ),
            RowChange::Relimit { task_id, token_limit, cost_limit_usd } => row.relimit_if(
                task_id,
                *token_limit,
                *cost_limit_usd,
            ),
            RowChange::Repause { task_id, pause } => row.repause_if(task_id, pause),
            RowChange::Continue { task_id, context } => row.continue_if(task_id, context),
        }
    }
}

/// The rows that a deletion takes.
pub(crate) enum RowDeletion<'a> {
    WithId { task_id: &'a str },
    Finished { task_id: &'a str, session_id: &'a str, epoch: i64 },
}

impl<'a> RowDeletion<'a> {
    pub(crate) open spec fn guard(self) -> spec_fn(TaskRowView) -> bool {
        match self {
            RowDeletion::WithId { task_id } => with_id(task_id@),
            RowDeletion::Finished { task_id, session_id, epoch } => deletable(task_id@, session_id@, epoch),
        }
    }

    fn takes(&self, row: &TaskRow) -> (r: bool)
        ensures
            r == self.guard()(row@),
    {
        match self {
            RowDeletion::WithId { task_id } => same_text(row.task.id.as_str(), task_id),
            RowDeletion::Finished { task_id, session_id, epoch } => row.is_deletable(task_id, session_id, *epoch),
        }
    }
}

/// Removing from a longer prefix is removing from the shorter one, and then
/// keeping or dropping the next row.
proof fn lemma_without_step(rows: Seq<TaskRowView>, guard: spec_fn(TaskRowView) -> bool, i: int)
    requires
        0 <= i < rows.len(),
    ensures
        without(rows.take(i + 1), guard) == (if guard(rows[i]) {
            without(rows.take(i), guard)
        } else {
            without(rows.take(i), guard).push(rows[i])
        }),
{
    reveal(Seq::filter);
    assert(rows.take(i + 1).drop_last() =~= rows.take(i));
    assert(rows.take(i + 1).last() == rows[i]);
}

impl TaskStore {
    /// Makes a change, and says whether any row passed its guard.
    pub(crate) fn change_rows(&mut self, change: &RowChange<'_>) -> (applied: bool)
        ensures
            applied == any_row(old(self)@, change.guard()),
            final(self)@ == updated(old(self)@, change.guard(), change.step()),
            !applied ==> final(self)@ == old(self)@,
    {
        let ghost before = self@;
        let mut applied = false;
        let mut i: usize = 0;
        while i < self.rows.len()
            invariant
                i <= self.rows.len(),
                self.rows.len() == before.len(),
                forall|j: int|
                    0 <= j < i ==> (#[trigger] self.rows@[j])@ == (if change.guard()(before[j]) {
                        change.step()(before[j])
                    } else {
                        before[j]
                    }),
                forall|j: int| i <= j < before.len() ==> (#[trigger] self.rows@[j])@ == before[j],
                applied == exists|j: int| 0 <= j < i && change.guard()(#[trigger] before[j]),
            decreases self.rows.len() - i,
        {
            assert(self.rows@[i as int]@ == before[i as int]);
            if change.apply(&mut self.rows[i]) {
                applied = true;
            }
            i = i + 1;
        }
        assert(self@ =~= updated(before, change.guard(), change.step()));
        if !applied {
            assert(self@ =~= before);
        }
        applied
    }

    /// Makes a change to a goal, and answers as a guarded transition does.
    pub(crate) fn transition(&mut self, task_id: &str, change: &RowChange<'_>) -> (r: GoalTransitionResult)
        ensures
            r == transition_outcome(old(self)@, change.guard(), task_id@),
            final(self)@ == updated(old(self)@, change.guard(), change.step()),
    {
        if self.change_rows(change) {
            GoalTransitionResult::Applied
        } else {
            self.transition_failure(task_id)
        }
    }

    /// Deletes rows, and says whether there were any to delete.
    pub(crate) fn delete_rows(&mut self, deletion: &RowDeletion<'_>) -> (applied: bool)
        ensures
            applied == any_row(old(self)@, deletion.guard()),
            final(self)@ == without(old(self)@, deletion.guard()),
            !applied ==> final(self)@ == old(self)@,
    {
        let ghost before = self@;
        let mut kept: Vec<TaskRow> = Vec::new();
        let mut rest: Vec<TaskRow> = Vec::new();
        std::mem::swap(&mut self.rows, &mut rest);
        let ghost all = rest@;
        let n: usize = rest.len();
        let mut applied = false;
        let mut i: usize = 0;
        assert(before.take(0) =~= Seq::<TaskRowView>::empty());
        proof {
            reveal(Seq::filter);
        }
        assert(kept@.map_values(|row: TaskRow| row@) =~= without(before.take(0), deletion.guard()));
        while i < n
            invariant
                i <= n,
                n == all.len(),
                rest@ == all.skip(i as int),
                before == all.map_values(|row: TaskRow| row@),
                kept@.map_values(|row: TaskRow| row@) == without(before.take(i as int), deletion.guard()),
                applied == exists|j: int| 0 <= j < i && deletion.guard()(#[trigger] before[j]),
                !applied ==> kept@ =~= all.take(i as int),
            decreases n - i,
        {
            let row = rest.remove(0);
            assert(row == all[i as int]);
            assert(before[i as int] == row@);
            assert(rest@ =~= all.skip(i + 1));
            proof {
                lemma_without_step(before, deletion.guard(), i as int);
            }
            if deletion.takes(&row) {
                applied = true;
            } else {
                let ghost kept_before = kept@;
                kept.push(row);
                assert(kept@.map_values(|row: TaskRow| row@) =~= kept_before.map_values(|row: TaskRow| row@).push(row@));
            }
            i = i + 1;
        }
        assert(before.take(n as int) =~= before);
        self.rows = kept;
        if !applied {
            assert(self@ =~= before);
        }
        applied
    }
}

} // verus!
