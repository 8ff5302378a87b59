//! Goals that are found by their context: an agent, a route and a principal.
use vstd::prelude::*;
#[allow(unused_imports)]
use vstd::string::*;

use super::error::StoreError;
use super::limits::{goal_limits_to_db, limits_error};
use super::session::{call_outstanding, ensure_goal_task_identity};
use super::{has_id, is_store_blank, pending_call, store_blank, valid, TaskRow, TaskRowView, TaskStore};
use crate::goal_task::{GoalTaskRecord, GoalTaskView, TaskContinuationContext};
use crate::task::{TaskKind, TaskRecord};
use crate::text::same_text;

verus! {

/// A text that may be missing; the index of contexts takes a missing one for
/// an empty one.
pub open spec fn coalesced(text: Option<String>) -> Seq<char> {
    match text {
        Some(text) => text@,
        None => Seq::empty(),
    }
}

/// The index of contexts covers active goals.
pub open spec fn holds_context(task: TaskRecord) -> bool {
    task.kind is Goal && task.status.active()
}

/// Two tasks have the same context.
pub open spec fn same_context(one: TaskRecord, other: TaskRecord) -> bool {
    &&& one.agent@ == other.agent@
    &&& coalesced(one.originator_route) == coalesced(other.originator_route)
    &&& coalesced(one.principal_id) == coalesced(other.principal_id)
}

/// An active goal holds the context of a task.
pub open spec fn context_taken(rows: Seq<TaskRowView>, task: TaskRecord) -> bool {
    exists|i: int|
        0 <= i < rows.len() && holds_context((#[trigger] rows[i]).task) && same_context(rows[i].task, task)
}

/// An outstanding call without its epoch, or an epoch without its call, or one
/// of them unusable.
pub open spec fn pending_pair_broken(goal: GoalTaskView) -> bool {
    ||| goal.pending_call_id is Some != goal.pending_call_epoch is Some
    ||| goal.pending_call_id matches Some(id) && store_blank(id@)
    ||| goal.pending_call_epoch matches Some(epoch) && epoch < 1
}

/// Why a goal cannot be inserted, the first reason that holds.
pub open spec fn insert_error(rows: Seq<TaskRowView>, task: TaskRecord, goal: GoalTaskView) -> Option<StoreError> {
    if !(task.kind is Goal) {
        Some(StoreError::NotGoalKind { task_id: task.id })
    } else if task.id@ != goal.task_id@ {
        Some(StoreError::IdMismatch { task_id: task.id, goal_task_id: goal.task_id })
    } else if limits_error(goal.effective_token_limit, goal.effective_cost_limit_usd) is Some {
        limits_error(goal.effective_token_limit, goal.effective_cost_limit_usd)
    } else if has_id(rows, task.id@) {
        Some(StoreError::TaskIdTaken)
    } else if holds_context(task) && context_taken(rows, task) {
        Some(StoreError::ContextTaken)
    } else if pending_pair_broken(goal) {
        Some(StoreError::PendingPairInvalid)
    } else if goal.pending_call_id matches Some(id) && call_outstanding(rows, id@) {
        Some(StoreError::PendingCallTaken)
    } else {
        None
    }
}

/// The row of an inserted goal. The tables have no column for tool batches.
pub open spec fn inserted_row(
    task: TaskRecord,
    goal: GoalTaskView,
    continuation: Option<TaskContinuationContext>,
) -> TaskRowView {
    TaskRowView {
        task,
        error: None,
        goal: Some(GoalTaskView { pending_tool_batch_id: None, pending_tool_epoch: None, ..goal }),
        continuation,
    }
}

fn same_coalesced(one: &Option<String>, other: &Option<String>) -> (r: bool)
    ensures
        r == (coalesced(*one) == coalesced(*other)),
{
    proof {
        reveal_strlit("");
        assert(""@ =~= Seq::<char>::empty());
    }
    let one = match one {
        Some(text) => text.as_str(),
        None => "",
    };
    let other = match other {
        Some(text) => text.as_str(),
        None => "",
    };
    same_text(one, other)
}

impl TaskStore {
    fn is_context_taken(&self, task: &TaskRecord) -> (r: bool)
        ensures
            r == context_taken(self@, *task),
    {
        let mut i: usize = 0;
        while i < self.rows.len()
            invariant
                i <= self.rows.len(),
                forall|j: int|
                    0 <= j < i ==> !(holds_context((#[trigger] self@[j]).task) && same_context(self@[j].task, *task)),
            decreases self.rows.len() - i,
        {
            assert(self@[i as int] == self.rows@[i as int]@);
            let other = &self.rows[i].task;
            if other.kind == TaskKind::Goal && other.status.is_active() && same_text(
                other.agent.as_str(),
                task.agent.as_str(),
            ) && same_coalesced(&other.originator_route, &task.originator_route) && same_coalesced(
                &other.principal_id,
                &task.principal_id,
            ) {
                return true;
            }
            i = i + 1;
        }
        false
    }

    /// Inserts a goal with its extension and where it continues, unless
    /// another active goal holds its context.
    pub fn create_goal(
        &mut self,
        task: TaskRecord,
        goal: GoalTaskRecord,
        continuation: Option<TaskContinuationContext>,
    ) -> (r: Result<(), StoreError>)
        ensures
            match insert_error(old(self)@, task, goal@) {
                Some(error) => r == Err::<(), StoreError>(error) && final(self)@ == old(self)@,
                None => r == Ok::<(), StoreError>(()) && final(self)@ == old(self)@.push(
                    inserted_row(task, goal@, continuation),
                ),
            },
    {
        match ensure_goal_task_identity(&task, &goal) {
            Err(error) => {
                return Err(error);
            },
            Ok(()) => {},
        }
        match goal_limits_to_db(goal.effective_token_limit, goal.effective_cost_limit_usd) {
            Err(error) => {
                return Err(error);
            },
            Ok(_) => {},
        }
        if self.contains_id(task.id.as_str()) {
            return Err(StoreError::TaskIdTaken);
        }
        if task.status.is_active() && self.is_context_taken(&task) {
            return Err(StoreError::ContextTaken);
        }
        let paired = match (&goal.pending_call_id, goal.pending_call_epoch) {
            (Some(id), Some(epoch)) => !is_store_blank(id.as_str()) && epoch >= 1,
            (None, None) => true,
            _ => false,
        };
        if !paired {
            return Err(StoreError::PendingPairInvalid);
        }
        let outstanding = match &goal.pending_call_id {
            Some(id) => self.has_call_outstanding(id.as_str()),
            None => false,
        };
        if outstanding {
            return Err(StoreError::PendingCallTaken);
        }
        let mut goal = goal;
        goal.pending_tool_batch_id = None;
        goal.pending_tool_epoch = None;
        let ghost before = self@;
        let row = TaskRow { task, error: None, goal: Some(goal), continuation };
        let ghost row_view = row@;
        self.rows.push(row);
        assert(self@ =~= before.push(row_view));
        Ok(())
    }
}

/// The tables keep their constraints when a goal without a session is inserted,
/// and no two active goals come to hold one context.
pub proof fn law_contexts_stay_distinct(
    rows: Seq<TaskRowView>,
    task: TaskRecord,
    goal: GoalTaskView,
    continuation: Option<TaskContinuationContext>,
)
    requires
        valid(rows),
        task.session_id is None,
        insert_error(rows, task, goal) is None,
        forall|i: int, j: int|
            0 <= i < j < rows.len() && holds_context((#[trigger] rows[i]).task) && holds_context(
                (#[trigger] rows[j]).task,
            ) ==> !same_context(rows[i].task, rows[j].task),
    ensures
        ({
            let next = rows.push(inserted_row(task, goal, continuation));
            &&& valid(next)
            &&& forall|i: int, j: int|
                0 <= i < j < next.len() && holds_context((#[trigger] next[i]).task) && holds_context(
                    (#[trigger] next[j]).task,
                ) ==> !same_context(next[i].task, next[j].task)
        }),
{
    let row = inserted_row(task, goal, continuation);
    let next = rows.push(row);
    assert forall|i: int, j: int|
        0 <= i < j < next.len() && pending_call(#[trigger] next[i]) is Some implies pending_call(next[i])
        != pending_call(#[trigger] next[j]) by {
        if j == rows.len() {
            assert(next[i] == rows[i]);
        }
    }
}

} // verus!
