//! The task tables and the guarded transitions of goals over them.
//!
//! A store is the list of its task rows in insertion order, each joined with
//! its goal extension and its continuation context. Every mutation is an
//! all-or-nothing step from one such list to the next.
pub mod boot;
pub mod calls;
pub mod context;
pub mod error;
pub mod laws;
pub mod legacy;
pub mod limits;
pub mod meaning;
pub mod migration;
pub mod queries;
pub mod rows;
pub mod session;
mod update;

use vstd::prelude::*;
#[allow(unused_imports)]
use vstd::string::*;

use crate::goal_task::{GoalTaskRecord, GoalTaskView, GoalTransitionResult, TaskContinuationContext};
use crate::message::Text;
use crate::task::{TaskKind, TaskRecord};
use crate::text::{chars_of, opt_view, same_text};

verus! {

/// One task row with everything that hangs on it.
#[derive(Debug, PartialEq, Eq)]
pub struct TaskRow {
    pub task: TaskRecord,
    /// Terminal reason.
    pub error: Option<Text>,
    pub goal: Option<GoalTaskRecord>,
    pub continuation: Option<TaskContinuationContext>,
}

/// What a `TaskRow` holds.
#[verifier::ext_equal]
pub struct TaskRowView {
    pub task: TaskRecord,
    pub error: Option<Text>,
    pub goal: Option<GoalTaskView>,
    pub continuation: Option<TaskContinuationContext>,
}

/// All task rows, oldest first.
#[derive(Debug, PartialEq, Eq)]
pub struct TaskStore {
    pub rows: Vec<TaskRow>,
}

pub open spec fn goal_view(goal: Option<GoalTaskRecord>) -> Option<GoalTaskView> {
    match goal {
        Some(g) => Some(g@),
        None => None,
    }
}

impl View for TaskRow {
    type V = TaskRowView;

    open spec fn view(&self) -> TaskRowView {
        TaskRowView {
            task: self.task,
            error: self.error,
            goal: goal_view(self.goal),
            continuation: self.continuation,
        }
    }
}

impl View for TaskStore {
    type V = Seq<TaskRowView>;

    open spec fn view(&self) -> Seq<TaskRowView> {
        self.rows@.map_values(|row: TaskRow| row@)
    }
}

/// Some row satisfies `p`.
pub open spec fn any_row(rows: Seq<TaskRowView>, p: spec_fn(TaskRowView) -> bool) -> bool {
    exists|i: int| 0 <= i < rows.len() && p(#[trigger] rows[i])
}

/// A row with that id exists.
pub open spec fn has_id(rows: Seq<TaskRowView>, task_id: Seq<char>) -> bool {
    exists|i: int| 0 <= i < rows.len() && (#[trigger] rows[i]).task.id@ == task_id
}

/// The answer to a guarded transition: applied where a row passes the guard,
/// otherwise stale or missing as the task row exists or not.
pub open spec fn transition_outcome(
    rows: Seq<TaskRowView>,
    guard: spec_fn(TaskRowView) -> bool,
    task_id: Seq<char>,
) -> GoalTransitionResult {
    if any_row(rows, guard) {
        GoalTransitionResult::Applied
    } else if has_id(rows, task_id) {
        GoalTransitionResult::Stale
    } else {
        GoalTransitionResult::Missing
    }
}

/// The rows with `step` taken where `guard` holds.
pub open spec fn updated(
    rows: Seq<TaskRowView>,
    guard: spec_fn(TaskRowView) -> bool,
    step: spec_fn(TaskRowView) -> TaskRowView,
) -> Seq<TaskRowView> {
    rows.map_values(|row: TaskRowView| if guard(row) { step(row) } else { row })
}

/// The goal with that id, bound to that session.
pub open spec fn bound_goal(row: TaskRowView, task_id: Seq<char>, session_id: Seq<char>) -> bool {
    &&& row.task.id@ == task_id
    &&& row.task.kind is Goal
    &&& opt_view(row.task.session_id) == Some(session_id)
}

/// The session that a goal row occupies.
pub open spec fn goal_session(row: TaskRowView) -> Option<Seq<char>> {
    if row.task.kind is Goal {
        opt_view(row.task.session_id)
    } else {
        None
    }
}

/// The call that a goal row has outstanding.
pub open spec fn pending_call(row: TaskRowView) -> Option<Seq<char>> {
    match row.goal {
        Some(goal) => opt_view(goal.pending_call_id),
        None => None,
    }
}

/// Position of the first character at or after `from` that is not a space.
pub open spec fn after_spaces(s: Seq<char>, from: int) -> int
    decreases s.len() - from,
{
    if 0 <= from < s.len() && s[from] == ' ' {
        after_spaces(s, from + 1)
    } else {
        from
    }
}

/// Blank to the store: nothing is left before the first NUL once the spaces
/// around the text are gone.
pub open spec fn store_blank(s: Seq<char>) -> bool {
    let first = after_spaces(s, 0);
    first >= s.len() || s[first] == '\0'
}

/// Whether a text is blank to the store.
pub fn is_store_blank(s: &str) -> (r: bool)
    ensures
        r == store_blank(s@),
{
    let v = chars_of(s);
    let mut i: usize = 0;
    while i < v.len() && v[i] == ' '
        invariant
            i <= v.len(),
            v@ == s@,
            after_spaces(s@, 0) == after_spaces(s@, i as int),
        decreases v.len() - i,
    {
        i = i + 1;
    }
    i >= v.len() || v[i] == '\0'
}

/// A row that the schema accepts. It has no column for tool batches.
pub open spec fn row_valid(row: TaskRowView) -> bool {
    &&& row.continuation is Some ==> row.goal is Some
    &&& row.goal matches Some(goal) ==> {
        &&& row.task.kind is Goal
        &&& goal.task_id@ == row.task.id@
        &&& goal.effective_token_limit matches Some(limit) ==> limit <= i64::MAX
        &&& goal.effective_cost_limit_usd matches Some(limit) ==> limit.storable_limit()
        &&& goal.pending_call_id is Some == goal.pending_call_epoch is Some
        &&& goal.pending_call_id matches Some(id) ==> !store_blank(id@)
        &&& goal.pending_call_epoch matches Some(epoch) ==> epoch >= 1
        &&& goal.pending_tool_batch_id is None
        &&& goal.pending_tool_epoch is None
    }
}

/// The tables keep their constraints: ids are unique, a session has at most
/// one goal, a call is outstanding for at most one goal, and every row is
/// valid.
pub open spec fn valid(rows: Seq<TaskRowView>) -> bool {
    &&& forall|i: int| 0 <= i < rows.len() ==> row_valid(#[trigger] rows[i])
    &&& forall|i: int, j: int|
        0 <= i < j < rows.len() ==> (#[trigger] rows[i]).task.id@ != (#[trigger] rows[j]).task.id@
    &&& forall|i: int, j: int|
        0 <= i < j < rows.len() && goal_session(#[trigger] rows[i]) is Some ==> goal_session(rows[i])
            != goal_session(#[trigger] rows[j])
    &&& forall|i: int, j: int|
        0 <= i < j < rows.len() && pending_call(#[trigger] rows[i]) is Some ==> pending_call(rows[i])
            != pending_call(#[trigger] rows[j])
}

impl TaskRow {
    /// Whether this is the goal with that id, bound to that session.
    pub fn is_bound_goal(&self, task_id: &str, session_id: &str) -> (r: bool)
        ensures
            r == bound_goal(self@, task_id@, session_id@),
    {
        same_text(self.task.id.as_str(), task_id) && self.task.kind == TaskKind::Goal
            && self.has_session(session_id)
    }

    pub fn has_session(&self, session_id: &str) -> (r: bool)
        ensures
            r == (opt_view(self.task.session_id) == Some(session_id@)),
    {
        match &self.task.session_id {
            Some(bound) => same_text(bound.as_str(), session_id),
            None => false,
        }
    }
}

impl TaskStore {
    /// A store without rows.
    pub fn new() -> (r: TaskStore)
        ensures
            r@ == Seq::<TaskRowView>::empty(),
            valid(r@),
    {
        let r = TaskStore { rows: Vec::new() };
        assert(r@ =~= Seq::<TaskRowView>::empty());
        r
    }

    /// Why a guarded transition did not apply: the task row is there and no
    /// longer matches, or it is not there.
    pub fn transition_failure(&self, task_id: &str) -> (r: GoalTransitionResult)
        ensures
            r == (if has_id(self@, task_id@) {
                GoalTransitionResult::Stale
            } else {
                GoalTransitionResult::Missing
            }),
    {
        if self.contains_id(task_id) {
            GoalTransitionResult::Stale
        } else {
            GoalTransitionResult::Missing
        }
    }

    /// Whether a row with that id exists.
    pub fn contains_id(&self, task_id: &str) -> (r: bool)
        ensures
            r == has_id(self@, task_id@),
    {
        let mut i: usize = 0;
        while i < self.rows.len()
            invariant
                i <= self.rows.len(),
                forall|j: int| 0 <= j < i ==> (#[trigger] self@[j]).task.id@ != task_id@,
            decreases self.rows.len() - i,
        {
            if same_text(self.rows[i].task.id.as_str(), task_id) {
                assert(self@[i as int].task.id@ == task_id@);
                return true;
            }
            assert(self@[i as int].task == self.rows@[i as int].task);
            i = i + 1;
        }
        false
    }
}

} // verus!
