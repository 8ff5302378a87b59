//! Unguarded mutations, which only goals without a session accept.
use vstd::prelude::*;
#[allow(unused_imports)]
use vstd::string::*;

use super::error::StoreError;
use super::limits::{goal_limits_to_db, limits_error};
use super::queries::has_goal_row;
use super::session::{limited, with_pause, write_pause};
use super::update::RowChange;
use super::{is_store_blank, store_blank, updated, TaskRow, TaskRowView, TaskStore};
use crate::goal_task::{copy_continuation, GoalPauseState, GoalPauseView, TaskContinuationContext};
use crate::task::TaskKind;
use crate::text::same_text;
use crate::usd::Usd;

verus! {

/// A goal with that id that is bound to a session.
pub open spec fn session_bound(row: TaskRowView, task_id: Seq<char>) -> bool {
    row.task.id@ == task_id && row.task.kind is Goal && (row.task.session_id matches Some(session) && !store_blank(
        session@,
    ))
}

/// Such a goal exists.
pub open spec fn any_session_bound(rows: Seq<TaskRowView>, task_id: Seq<char>) -> bool {
    exists|i: int| 0 <= i < rows.len() && session_bound(#[trigger] rows[i], task_id)
}

/// Rows whose extension carries that id.
pub open spec fn extends(task_id: Seq<char>) -> spec_fn(TaskRowView) -> bool {
    |row: TaskRowView| row.goal matches Some(goal) && goal.task_id@ == task_id
}

pub open spec fn any_extension(rows: Seq<TaskRowView>, task_id: Seq<char>) -> bool {
    exists|i: int| 0 <= i < rows.len() && extends(task_id)(#[trigger] rows[i])
}

/// Why an unguarded change of an extension row is refused.
pub open spec fn legacy_error(rows: Seq<TaskRowView>, task_id: String) -> Option<StoreError> {
    if any_session_bound(rows, task_id@) {
        Some(StoreError::SessionBound)
    } else if !any_extension(rows, task_id@) {
        Some(StoreError::ExtensionMissing { task_id })
    } else {
        None
    }
}

pub open spec fn legacy_limits_error(
    rows: Seq<TaskRowView>,
    task_id: String,
    token_limit: Option<u64>,
    cost_limit: Option<Usd>,
) -> Option<StoreError> {
    match limits_error(token_limit, cost_limit) {
        Some(error) => Some(error),
        None => legacy_error(rows, task_id),
    }
}

/// A row with a pause written, or cleared.
pub open spec fn repaused(pause: Option<GoalPauseView>) -> spec_fn(TaskRowView) -> TaskRowView {
    |row: TaskRowView| TaskRowView { goal: with_pause(row.goal, pause), ..row }
}

/// Goals with that id and their extension.
pub open spec fn goal_with_id(task_id: Seq<char>) -> spec_fn(TaskRowView) -> bool {
    |row: TaskRowView| row.task.id@ == task_id && row.task.kind is Goal && row.goal is Some
}

/// A row that continues elsewhere.
pub open spec fn continued(context: Option<TaskContinuationContext>) -> spec_fn(TaskRowView) -> TaskRowView {
    |row: TaskRowView| TaskRowView { continuation: context, ..row }
}

/// Why a change of the continuation context is refused.
pub open spec fn continuation_error(rows: Seq<TaskRowView>, task_id: String) -> Option<StoreError> {
    if any_session_bound(rows, task_id@) {
        Some(StoreError::SessionBound)
    } else if !has_goal_row(rows, task_id@) {
        Some(StoreError::NotAGoal { task_id })
    } else {
        None
    }
}

pub open spec fn pause_view(pause: Option<GoalPauseState>) -> Option<GoalPauseView> {
    match pause {
        Some(p) => Some(p@),
        None => None,
    }
}

fn copy_pause(pause: &Option<GoalPauseState>) -> (r: Option<GoalPauseState>)
    ensures
        pause_view(r) == pause_view(*pause),
{
    match pause {
        Some(p) => Some(p.copy()),
        None => None,
    }
}

impl TaskRow {
    fn is_extension_of(&self, task_id: &str) -> (r: bool)
        ensures
            r == extends(task_id@)(self@),
    {
        match &self.goal {
            Some(goal) => same_text(goal.task_id.as_str(), task_id),
            None => false,
        }
    }

    pub(super) fn relimit_if(&mut self, task_id: &str, token_limit: Option<u64>, cost_limit_usd: Option<Usd>) -> (hit: bool)
        ensures
            hit == extends(task_id@)(old(self)@),
            final(self)@ == (if hit {
                limited(token_limit, cost_limit_usd)(old(self)@)
            } else {
                old(self)@
            }),
    {
        let hit = self.is_extension_of(task_id);
        if hit {
            match &mut self.goal {
                Some(goal) => {
                    goal.effective_token_limit = token_limit;
                    goal.effective_cost_limit_usd = cost_limit_usd;
                },
                None => {},
            }
        }
        hit
    }

    pub(super) fn repause_if(&mut self, task_id: &str, pause: &Option<GoalPauseState>) -> (hit: bool)
        ensures
            hit == extends(task_id@)(old(self)@),
            final(self)@ == (if hit {
                repaused(pause_view(*pause))(old(self)@)
            } else {
                old(self)@
            }),
    {
        let hit = self.is_extension_of(task_id);
        if hit {
            write_pause(&mut self.goal, copy_pause(pause));
        }
        hit
    }

    pub(super) fn continue_if(&mut self, task_id: &str, context: &Option<TaskContinuationContext>) -> (hit: bool)
        ensures
            hit == goal_with_id(task_id@)(old(self)@),
            final(self)@ == (if hit {
                continued(*context)(old(self)@)
            } else {
                old(self)@
            }),
    {
        if same_text(self.task.id.as_str(), task_id) && self.task.kind == TaskKind::Goal && self.goal.is_some() {
            self.continuation = copy_continuation(context);
            true
        } else {
            false
        }
    }
}

impl TaskStore {
    /// Refuses unguarded changes of a session-bound goal.
    pub fn reject_session_goal_legacy_mutation(&self, task_id: &str) -> (r: Result<(), StoreError>)
        ensures
            r == (if any_session_bound(self@, task_id@) {
                Err::<(), StoreError>(StoreError::SessionBound)
            } else {
                Ok::<(), StoreError>(())
            }),
    {
        let mut i: usize = 0;
        while i < self.rows.len()
            invariant
                i <= self.rows.len(),
                forall|j: int| 0 <= j < i ==> !session_bound(#[trigger] self@[j], task_id@),
            decreases self.rows.len() - i,
        {
            assert(self@[i as int] == self.rows@[i as int]@);
            let bound = match &self.rows[i].task.session_id {
                Some(session) => !is_store_blank(session.as_str()),
                None => false,
            };
            if bound && same_text(self.rows[i].task.id.as_str(), task_id) && self.rows[i].task.kind == TaskKind::Goal {
                return Err(StoreError::SessionBound);
            }
            i = i + 1;
        }
        Ok(())
    }

    /// Changes the limits of a goal without a session.
    pub fn update_goal_limits(&mut self, task_id: String, token_limit: Option<u64>, cost_limit_usd: Option<Usd>) -> (r:
        Result<(), StoreError>)
        ensures
            match legacy_limits_error(old(self)@, task_id, token_limit, cost_limit_usd) {
                Some(error) => r == Err::<(), StoreError>(error) && final(self)@ == old(self)@,
                None => r == Ok::<(), StoreError>(()) && final(self)@ == updated(
                    old(self)@,
                    extends(task_id@),
                    limited(token_limit, cost_limit_usd),
                ),
            },
    {
        match goal_limits_to_db(token_limit, cost_limit_usd) {
            Err(error) => {
                return Err(error);
            },
            Ok(_) => {},
        }
        match self.reject_session_goal_legacy_mutation(task_id.as_str()) {
            Err(error) => {
                return Err(error);
            },
            Ok(()) => {},
        }
        let change = RowChange::Relimit { task_id: task_id.as_str(), token_limit, cost_limit_usd };
        if self.change_rows(&change) {
            Ok(())
        } else {
            Err(StoreError::ExtensionMissing { task_id })
        }
    }

    /// Writes or clears the pause of a goal without a session.
    pub fn update_goal_pause(&mut self, task_id: String, pause: Option<GoalPauseState>) -> (r: Result<(), StoreError>)
        ensures
            match legacy_error(old(self)@, task_id) {
                Some(error) => r == Err::<(), StoreError>(error) && final(self)@ == old(self)@,
                None => r == Ok::<(), StoreError>(()) && final(self)@ == updated(
                    old(self)@,
                    extends(task_id@),
                    repaused(pause_view(pause)),
                ),
            },
    {
        match self.reject_session_goal_legacy_mutation(task_id.as_str()) {
            Err(error) => {
                return Err(error);
            },
            Ok(()) => {},
        }
        if self.change_rows(&RowChange::Repause { task_id: task_id.as_str(), pause: &pause }) {
            Ok(())
        } else {
            Err(StoreError::ExtensionMissing { task_id })
        }
    }

    /// Records or clears where a goal without a session continues.
    pub fn set_continuation_context(&mut self, task_id: String, context: Option<TaskContinuationContext>) -> (r: Result<
        (),
        StoreError,
    >)
        ensures
            match continuation_error(old(self)@, task_id) {
                Some(error) => r == Err::<(), StoreError>(error) && final(self)@ == old(self)@,
                None => r == Ok::<(), StoreError>(()) && final(self)@ == updated(
                    old(self)@,
                    goal_with_id(task_id@),
                    continued(context),
                ),
            },
    {
        match self.reject_session_goal_legacy_mutation(task_id.as_str()) {
            Err(error) => {
                return Err(error);
            },
            Ok(()) => {},
        }
        match self.ensure_goal_task_row(task_id.clone()) {
            Err(error) => {
                return Err(error);
            },
            Ok(()) => {},
        }
        self.change_rows(&RowChange::Continue { task_id: task_id.as_str(), context: &context });
        Ok(())
    }
}

} // verus!
