//! Lookups.
use vstd::prelude::*;
#[allow(unused_imports)]
use vstd::string::*;

use super::error::StoreError;
use super::session::session_occupant;
use super::{bound_goal, TaskRow, TaskRowView, TaskStore};
use crate::goal_task::{copy_continuation, GoalTaskRecord, TaskContinuationContext};
use crate::message::{copy_opt, Text};
use crate::task::{TaskKind, TaskRecord};
use crate::text::{blank, is_blank, law_text_order, opt_view, same_text, sorts_before, text_before};

verus! {

/// A running or paused goal of an agent; a route or a principal narrows the
/// choice only when it is given.
pub open spec fn active_for(
    row: TaskRowView,
    agent: Seq<char>,
    route: Option<Seq<char>>,
    principal: Option<Seq<char>>,
) -> bool {
    &&& row.task.agent@ == agent
    &&& row.task.kind is Goal
    &&& row.task.status.active()
    &&& route is Some ==> opt_view(row.task.originator_route) == route
    &&& principal is Some ==> opt_view(row.task.principal_id) == principal
}

/// The row at `i` comes before the row at `j`: it started earlier, or at the
/// same time and was inserted earlier.
pub open spec fn older(rows: Seq<TaskRowView>, i: int, j: int) -> bool {
    text_before(rows[i].task.started_at@, rows[j].task.started_at@) || (rows[i].task.started_at@
        == rows[j].task.started_at@ && i < j)
}

/// The row at `at` is the latest active goal for an agent and context.
pub open spec fn latest_at(
    rows: Seq<TaskRowView>,
    agent: Seq<char>,
    route: Option<Seq<char>>,
    principal: Option<Seq<char>>,
    at: int,
) -> bool {
    &&& 0 <= at < rows.len()
    &&& active_for(rows[at], agent, route, principal)
    &&& forall|i: int|
        0 <= i < rows.len() && i != at && active_for(#[trigger] rows[i], agent, route, principal) ==> older(rows, i, at)
}

pub open spec fn none_active(
    rows: Seq<TaskRowView>,
    agent: Seq<char>,
    route: Option<Seq<char>>,
    principal: Option<Seq<char>>,
) -> bool {
    forall|i: int| 0 <= i < rows.len() ==> !active_for(#[trigger] rows[i], agent, route, principal)
}

/// The text behind an optional reference.
pub open spec fn ref_view(o: Option<&str>) -> Option<Seq<char>> {
    match o {
        Some(s) => Some(s@),
        None => None,
    }
}

/// A row with that id that is a goal and has its extension.
pub open spec fn goal_row(rows: Seq<TaskRowView>, task_id: Seq<char>, i: int) -> bool {
    0 <= i < rows.len() && rows[i].task.id@ == task_id && rows[i].task.kind is Goal && rows[i].goal is Some
}

/// Such a row exists.
pub open spec fn has_goal_row(rows: Seq<TaskRowView>, task_id: Seq<char>) -> bool {
    exists|i: int| #[trigger] goal_row(rows, task_id, i)
}

fn matches_filter(value: &Option<String>, filter: Option<&str>) -> (r: bool)
    ensures
        r == (filter is Some ==> opt_view(*value) == ref_view(filter)),
{
    match filter {
        None => true,
        Some(wanted) => match value {
            Some(have) => same_text(have.as_str(), wanted),
            None => false,
        },
    }
}

impl TaskRow {
    fn is_active_for(&self, agent: &str, route: Option<&str>, principal: Option<&str>) -> (r: bool)
        ensures
            r == active_for(self@, agent@, ref_view(route), ref_view(principal)),
    {
        same_text(self.task.agent.as_str(), agent) && self.task.kind == TaskKind::Goal
            && self.task.status.is_active() && matches_filter(&self.task.originator_route, route)
            && matches_filter(&self.task.principal_id, principal)
    }
}

impl TaskStore {
    fn latest_position(&self, agent: &str, route: Option<&str>, principal: Option<&str>) -> (r: Option<usize>)
        ensures
            match r {
                Some(i) => latest_at(self@, agent@, ref_view(route), ref_view(principal), i as int),
                None => none_active(self@, agent@, ref_view(route), ref_view(principal)),
            },
    {
        let ghost rows = self@;
        let mut best: Option<usize> = None;
        let mut i: usize = 0;
        while i < self.rows.len()
            invariant
                i <= self.rows.len(),
                rows == self@,
                match best {
                    Some(b) => latest_at(rows.take(i as int), agent@, ref_view(route), ref_view(principal), b as int),
                    None => none_active(rows.take(i as int), agent@, ref_view(route), ref_view(principal)),
                },
            decreases self.rows.len() - i,
        {
            assert(rows[i as int] == self.rows@[i as int]@);
            let ghost shorter = rows.take(i as int);
            let ghost longer = rows.take(i + 1);
            assert(forall|j: int| 0 <= j < i ==> longer[j] == shorter[j]);
            if self.rows[i].is_active_for(agent, route, principal) {
                match best {
                    None => {
                        best = Some(i);
                    },
                    Some(b) => {
                        assert(rows[b as int] == self.rows@[b as int]@);
                        proof {
                            law_text_order(
                                rows[i as int].task.started_at@,
                                rows[b as int].task.started_at@,
                                rows[i as int].task.started_at@,
                            );
                        }
                        if !sorts_before(self.rows[i].task.started_at.as_str(), self.rows[b].task.started_at.as_str()) {
                            proof {
                                assert forall|j: int|
                                    0 <= j < longer.len() && j != i && active_for(
                                        #[trigger] longer[j],
                                        agent@,
                                        ref_view(route),
                                        ref_view(principal),
                                    ) implies older(longer, j, i as int) by {
                                    assert(longer[j] == shorter[j]);
                                    if j != b {
                                        assert(older(shorter, j, b as int));
                                        law_text_order(
                                            rows[j].task.started_at@,
                                            rows[b as int].task.started_at@,
                                            rows[i as int].task.started_at@,
                                        );
                                    }
                                }
                            }
                            best = Some(i);
                        } else {
                            assert(older(longer, i as int, b as int));
                            assert forall|j: int|
                                0 <= j < longer.len() && j != b && active_for(
                                    #[trigger] longer[j],
                                    agent@,
                                    ref_view(route),
                                    ref_view(principal),
                                ) implies older(longer, j, b as int) by {
                                if j < i {
                                    assert(longer[j] == shorter[j]);
                                    assert(older(shorter, j, b as int));
                                }
                            }
                        }
                    },
                }
            } else {
                proof {
                    if best is Some {
                        let b = best->Some_0 as int;
                        assert forall|j: int|
                            0 <= j < longer.len() && j != b && active_for(
                                #[trigger] longer[j],
                                agent@,
                                ref_view(route),
                                ref_view(principal),
                            ) implies older(longer, j, b) by {
                            assert(longer[j] == shorter[j]);
                            assert(older(shorter, j, b));
                        }
                    }
                }
            }
            i = i + 1;
        }
        assert(rows.take(i as int) =~= rows);
        best
    }

    /// The latest running or paused goal of an agent.
    pub fn latest_active_goal_for_agent(&self, agent: &str) -> (r: Option<TaskRecord>)
        ensures
            match r {
                Some(task) => exists|i: int| #[trigger] latest_at(self@, agent@, None, None, i) && task == self@[i].task,
                None => none_active(self@, agent@, None, None),
            },
    {
        self.latest_active_goal_for_context(agent, None, None)
    }

    /// The latest running or paused goal of an agent in a context.
    pub fn latest_active_goal_for_context(
        &self,
        agent: &str,
        originator_route: Option<&str>,
        principal_id: Option<&str>,
    ) -> (r: Option<TaskRecord>)
        ensures
            match r {
                Some(task) => exists|i: int|
                    #[trigger] latest_at(self@, agent@, ref_view(originator_route), ref_view(principal_id), i) && task
                        == self@[i].task,
                None => none_active(self@, agent@, ref_view(originator_route), ref_view(principal_id)),
            },
    {
        match self.latest_position(agent, originator_route, principal_id) {
            Some(i) => {
                let task = self.rows[i].task.copy();
                assert(latest_at(self@, agent@, ref_view(originator_route), ref_view(principal_id), i as int));
                Some(task)
            },
            None => None,
        }
    }

    /// The id of the latest running or paused goal of an agent in a context.
    pub fn latest_active_goal_id_for_context(
        &self,
        agent: &str,
        originator_route: Option<&str>,
        principal_id: Option<&str>,
    ) -> (r: Option<String>)
        ensures
            match r {
                Some(id) => exists|i: int|
                    #[trigger] latest_at(self@, agent@, ref_view(originator_route), ref_view(principal_id), i) && id
                        == self@[i].task.id,
                None => none_active(self@, agent@, ref_view(originator_route), ref_view(principal_id)),
            },
    {
        match self.latest_position(agent, originator_route, principal_id) {
            Some(i) => {
                let id = self.rows[i].task.id.clone();
                assert(latest_at(self@, agent@, ref_view(originator_route), ref_view(principal_id), i as int));
                Some(id)
            },
            None => None,
        }
    }

    /// The extension row of a goal.
    pub fn get_goal_task(&self, task_id: &str) -> (r: Option<GoalTaskRecord>)
        ensures
            match r {
                Some(goal) => exists|i: int|
                    0 <= i < self@.len() && (#[trigger] self@[i]).goal == Some(goal@) && goal.task_id@ == task_id@,
                None => forall|i: int|
                    0 <= i < self@.len() ==> ((#[trigger] self@[i]).goal matches Some(goal) ==> goal.task_id@ != task_id@),
            },
    {
        let mut i: usize = 0;
        while i < self.rows.len()
            invariant
                i <= self.rows.len(),
                forall|j: int|
                    0 <= j < i ==> ((#[trigger] self@[j]).goal matches Some(goal) ==> goal.task_id@ != task_id@),
            decreases self.rows.len() - i,
        {
            assert(self@[i as int] == self.rows@[i as int]@);
            match &self.rows[i].goal {
                Some(goal) => {
                    if same_text(goal.task_id.as_str(), task_id) {
                        return Some(goal.copy());
                    }
                },
                None => {},
            }
            i = i + 1;
        }
        None
    }

    fn goal_row_position(&self, task_id: &str) -> (r: Option<usize>)
        ensures
            match r {
                Some(i) => goal_row(self@, task_id@, i as int),
                None => !has_goal_row(self@, task_id@),
            },
    {
        let mut i: usize = 0;
        while i < self.rows.len()
            invariant
                i <= self.rows.len(),
                forall|j: int| 0 <= j < i ==> !(#[trigger] goal_row(self@, task_id@, j)),
            decreases self.rows.len() - i,
        {
            assert(self@[i as int] == self.rows@[i as int]@);
            if same_text(self.rows[i].task.id.as_str(), task_id) && self.rows[i].task.kind == TaskKind::Goal
                && self.rows[i].goal.is_some() {
                return Some(i);
            }
            i = i + 1;
        }
        None
    }

    /// Whether a task is a goal with its extension; an error names it if not.
    pub fn ensure_goal_task_row(&self, task_id: String) -> (r: Result<(), StoreError>)
        ensures
            r == (if has_goal_row(self@, task_id@) {
                Ok::<(), StoreError>(())
            } else {
                Err::<(), StoreError>(StoreError::NotAGoal { task_id })
            }),
    {
        match self.goal_row_position(task_id.as_str()) {
            Some(i) => {
                assert(goal_row(self@, task_id@, i as int));
                Ok(())
            },
            None => Err(StoreError::NotAGoal { task_id }),
        }
    }

    /// Where a goal continues, if that was recorded.
    pub fn get_continuation_context(&self, task_id: String) -> (r: Result<Option<TaskContinuationContext>, StoreError>)
        ensures
            match r {
                Ok(context) => exists|i: int|
                    #[trigger] goal_row(self@, task_id@, i) && context == self@[i].continuation,
                Err(error) => !has_goal_row(self@, task_id@) && error == (StoreError::NotAGoal { task_id }),
            },
    {
        match self.goal_row_position(task_id.as_str()) {
            Some(i) => {
                assert(self@[i as int] == self.rows@[i as int]@);
                assert(goal_row(self@, task_id@, i as int));
                Ok(copy_continuation(&self.rows[i].continuation))
            },
            None => Err(StoreError::NotAGoal { task_id }),
        }
    }

    /// The goal that occupies a session; a blank session has none.
    pub fn current_goal_for_session(&self, session_id: &str) -> (r: Option<TaskRecord>)
        ensures
            r == (if blank(session_id@) {
                None::<TaskRecord>
            } else {
                match session_occupant(self@, session_id@) {
                    Some(row) => Some(row.task),
                    None => None,
                }
            }),
    {
        if is_blank(session_id) {
            return None;
        }
        match self.position_of_session(session_id) {
            Some(i) => {
                assert(self@[i as int] == self.rows@[i as int]@);
                Some(self.rows[i].task.copy())
            },
            None => None,
        }
    }

    /// Why the goal of a session ended, if it has and a reason was recorded.
    pub fn terminal_reason_for_session_goal(&self, task_id: &str, session_id: &str) -> (r: Option<Text>)
        ensures
            match terminal_row(self@, task_id@, session_id@, 0) {
                Some(row) => r == row.error,
                None => r is None,
            },
    {
        let mut i: usize = 0;
        while i < self.rows.len()
            invariant
                i <= self.rows.len(),
                terminal_row(self@, task_id@, session_id@, 0) == terminal_row(self@, task_id@, session_id@, i as int),
            decreases self.rows.len() - i,
        {
            assert(self@[i as int] == self.rows@[i as int]@);
            if self.rows[i].is_bound_goal(task_id, session_id) && self.rows[i].task.status.is_terminal() {
                return copy_opt(&self.rows[i].error);
            }
            i = i + 1;
        }
        None
    }
}

/// The first finished goal with that id in that session, from a position on.
pub open spec fn terminal_row(
    rows: Seq<TaskRowView>,
    task_id: Seq<char>,
    session_id: Seq<char>,
    from: int,
) -> Option<TaskRowView>
    decreases rows.len() - from,
{
    if from < 0 || from >= rows.len() {
        None
    } else if bound_goal(rows[from], task_id, session_id) && rows[from].task.status.terminal() {
        Some(rows[from])
    } else {
        terminal_row(rows, task_id, session_id, from + 1)
    }
}

} // verus!
