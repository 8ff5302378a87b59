//! Guarded transitions of session-bound goals.
use vstd::prelude::*;
#[allow(unused_imports)]
use vstd::string::*;

use super::error::StoreError;
use super::limits::{goal_limits_to_db, limits_error};
use super::update::{RowChange, RowDeletion};
use super::{any_row, bound_goal, goal_session, goal_view, has_id, is_store_blank, pending_call, store_blank, transition_outcome, updated, TaskRow, TaskRowView, TaskStore};
use crate::goal_task::{GoalAccountingState, GoalPauseState, GoalPauseView, GoalTaskRecord, GoalTaskView, GoalTransitionResult};
use crate::clock::{is_timestamp, now_rfc3339};
use crate::message::{copy_opt, Text};
use crate::task::{TaskKind, TaskRecord, TaskStatus};
use crate::text::{blank, is_blank, opt_view, same_text};
use crate::usd::Usd;

verus! {

/// The next epoch, which stays at the largest once it is reached.
pub open spec fn next_epoch(epoch: i64) -> i64 {
    if epoch < i64::MAX {
        (epoch + 1) as i64
    } else {
        epoch
    }
}

fn advance(epoch: i64) -> (r: i64)
    ensures
        r == next_epoch(epoch),
{
    if epoch < i64::MAX {
        epoch + 1
    } else {
        epoch
    }
}

/// The later of no finish time and `now`: a recorded finish time stays.
pub open spec fn finish_time(finished_at: Option<String>, now: String) -> Option<String> {
    match finished_at {
        Some(at) => Some(at),
        None => Some(now),
    }
}

pub fn first_finish(finished_at: &Option<String>, now: &String) -> (r: Option<String>)
    ensures
        r == finish_time(*finished_at, *now),
{
    match finished_at {
        Some(at) => Some(at.clone()),
        None => Some(now.clone()),
    }
}

/// The goal extension with a pause written to it.
pub open spec fn with_pause(goal: Option<GoalTaskView>, pause: Option<GoalPauseView>) -> Option<GoalTaskView> {
    match goal {
        Some(g) => Some(
            match pause {
                Some(p) => GoalTaskView {
                    pause_reason: Some(p.reason),
                    pause_description: p.description,
                    blockers: p.blockers,
                    ..g
                },
                None => GoalTaskView {
                    pause_reason: None,
                    pause_description: None,
                    blockers: Seq::empty(),
                    ..g
                },
            },
        ),
        None => None,
    }
}

pub fn write_pause(goal: &mut Option<GoalTaskRecord>, pause: Option<GoalPauseState>)
    ensures
        goal_view(*final(goal)) == with_pause(
            goal_view(*old(goal)),
            match pause {
                Some(p) => Some(p@),
                None => None,
            },
        ),
{
    match goal {
        Some(g) => {
            match pause {
                Some(p) => {
                    g.pause_reason = Some(p.reason);
                    g.pause_description = p.description;
                    g.blockers = p.blockers;
                },
                None => {
                    g.pause_reason = None;
                    g.pause_description = None;
                    g.blockers = Vec::new();
                },
            }
        },
        None => {},
    }
}

// ---------------------------------------------------------------- pausing
/// A running goal of that session at that epoch, with room for another epoch.
pub open spec fn pausable(task_id: Seq<char>, session_id: Seq<char>, epoch: i64) -> spec_fn(TaskRowView) -> bool {
    |row: TaskRowView|
        bound_goal(row, task_id, session_id) && row.task.status is Running && row.task.execution_epoch == epoch
            && epoch < i64::MAX
}

pub open spec fn paused(pause: GoalPauseView) -> spec_fn(TaskRowView) -> TaskRowView {
    |row: TaskRowView|
        TaskRowView {
            task: TaskRecord {
                status: TaskStatus::Paused,
                finished_at: None,
                execution_epoch: next_epoch(row.task.execution_epoch),
                ..row.task
            },
            error: None,
            goal: with_pause(row.goal, Some(pause)),
            continuation: row.continuation,
        }
}

// ---------------------------------------------------------------- resuming
/// A paused goal of that session at that epoch, with room for another epoch,
/// nothing outstanding and all usage known.
pub open spec fn resumable(task_id: Seq<char>, session_id: Seq<char>, epoch: i64) -> spec_fn(TaskRowView) -> bool {
    |row: TaskRowView|
        bound_goal(row, task_id, session_id) && row.task.status is Paused && row.task.execution_epoch == epoch
            && epoch < i64::MAX && (row.goal matches Some(goal) && goal.clean())
}

pub open spec fn resumed(owner_pid: u32, owner_boot_id: String) -> spec_fn(TaskRowView) -> TaskRowView {
    |row: TaskRowView|
        TaskRowView {
            task: TaskRecord {
                status: TaskStatus::Running,
                execution_epoch: next_epoch(row.task.execution_epoch),
                owner_pid,
                owner_boot_id,
                heartbeat_at: None,
                ..row.task
            },
            goal: with_pause(row.goal, None),
            ..row
        }
}

// ---------------------------------------------------------------- finishing
/// A running or paused goal of that session at that epoch.
pub open spec fn active_at(task_id: Seq<char>, session_id: Seq<char>, epoch: i64) -> spec_fn(TaskRowView) -> bool {
    |row: TaskRowView|
        bound_goal(row, task_id, session_id) && row.task.status.active() && row.task.execution_epoch == epoch
}

pub open spec fn finished(status: TaskStatus, error: Option<Text>, now: String) -> spec_fn(TaskRowView) -> TaskRowView {
    |row: TaskRowView|
        TaskRowView {
            task: TaskRecord {
                status,
                finished_at: finish_time(row.task.finished_at, now),
                execution_epoch: next_epoch(row.task.execution_epoch),
                ..row.task
            },
            error,
            ..row
        }
}

// ---------------------------------------------------------------- operations
/// A running goal of that session at that epoch that may admit a call.
pub open spec fn admissible(task_id: Seq<char>, session_id: Seq<char>, epoch: i64) -> spec_fn(TaskRowView) -> bool {
    |row: TaskRowView|
        bound_goal(row, task_id, session_id) && row.task.status is Running && row.task.execution_epoch == epoch && (
        row.goal matches Some(goal) && goal.clean())
}

pub open spec fn admitted(call_id: String, epoch: i64) -> spec_fn(TaskRowView) -> TaskRowView {
    |row: TaskRowView|
        TaskRowView {
            goal: match row.goal {
                Some(goal) => Some(
                    GoalTaskView {
                        pending_call_id: Some(call_id),
                        pending_call_epoch: Some(epoch),
                        ..goal
                    },
                ),
                None => None,
            },
            ..row
        }
}

/// The goal of that session that has exactly that call outstanding.
pub open spec fn awaiting(
    task_id: Seq<char>,
    session_id: Seq<char>,
    epoch: i64,
    call_id: Seq<char>,
) -> spec_fn(TaskRowView) -> bool {
    |row: TaskRowView|
        bound_goal(row, task_id, session_id) && (row.goal matches Some(goal) && opt_view(goal.pending_call_id)
            == Some(call_id) && goal.pending_call_epoch == Some(epoch))
}

pub open spec fn settled(state: GoalAccountingState) -> spec_fn(TaskRowView) -> TaskRowView {
    |row: TaskRowView|
        TaskRowView {
            goal: match row.goal {
                Some(goal) => Some(
                    GoalTaskView {
                        pending_call_id: None,
                        pending_call_epoch: None,
                        accounting_state: state,
                        ..goal
                    },
                ),
                None => None,
            },
            ..row
        }
}

// ---------------------------------------------------------------- limits
/// A running or paused goal of that session at that epoch that has limits to
/// change.
pub open spec fn limitable(task_id: Seq<char>, session_id: Seq<char>, epoch: i64) -> spec_fn(TaskRowView) -> bool {
    |row: TaskRowView| active_at(task_id, session_id, epoch)(row) && row.goal is Some
}

pub open spec fn limited(token_limit: Option<u64>, cost_limit: Option<Usd>) -> spec_fn(TaskRowView) -> TaskRowView {
    |row: TaskRowView|
        TaskRowView {
            goal: match row.goal {
                Some(goal) => Some(
                    GoalTaskView {
                        effective_token_limit: token_limit,
                        effective_cost_limit_usd: cost_limit,
                        ..goal
                    },
                ),
                None => None,
            },
            ..row
        }
}

// ---------------------------------------------------------------- deletion
/// A finished goal of that session at that epoch with nothing outstanding.
pub open spec fn deletable(task_id: Seq<char>, session_id: Seq<char>, epoch: i64) -> spec_fn(TaskRowView) -> bool {
    |row: TaskRowView|
        bound_goal(row, task_id, session_id) && row.task.status.terminal() && row.task.execution_epoch == epoch && (
        row.goal matches Some(goal) ==> goal.settled())
}

/// The rows without those that `guard` picks.
pub open spec fn without(rows: Seq<TaskRowView>, guard: spec_fn(TaskRowView) -> bool) -> Seq<TaskRowView> {
    rows.filter(|row: TaskRowView| !guard(row))
}

// ---------------------------------------------------------------- creation
/// Position of the goal that occupies a session, or the number of rows.
pub open spec fn session_position(rows: Seq<TaskRowView>, session_id: Seq<char>, from: int) -> int
    decreases rows.len() - from,
{
    if from < 0 || from >= rows.len() {
        rows.len() as int
    } else if goal_session(rows[from]) == Some(session_id) {
        from
    } else {
        session_position(rows, session_id, from + 1)
    }
}

/// The goal that occupies a session.
pub open spec fn session_occupant(rows: Seq<TaskRowView>, session_id: Seq<char>) -> Option<TaskRowView> {
    let at = session_position(rows, session_id, 0);
    if at < rows.len() {
        Some(rows[at])
    } else {
        None
    }
}

/// A goal that a new one may take the place of: finished, nothing outstanding.
pub open spec fn replaceable(row: TaskRowView) -> bool {
    row.task.status.terminal() && (row.goal matches Some(goal) ==> goal.settled())
}

/// Why a task and its extension cannot be a new goal, whatever the tables hold.
pub open spec fn new_goal_error(task: TaskRecord, goal: GoalTaskView) -> Option<StoreError> {
    if !(task.kind is Goal) {
        Some(StoreError::NotGoalKind { task_id: task.id })
    } else if task.id@ != goal.task_id@ {
        Some(StoreError::IdMismatch { task_id: task.id, goal_task_id: goal.task_id })
    } else if task.session_id is None || blank(task.session_id->Some_0@) {
        Some(StoreError::SessionRequired)
    } else if !(task.status is Running) || task.finished_at is Some {
        Some(StoreError::NotFresh)
    } else if blank(goal.objective@) {
        Some(StoreError::ObjectiveRequired)
    } else if !goal.clean() {
        Some(StoreError::PendingOrIncomplete)
    } else {
        None
    }
}

/// What creating a goal answers.
pub open spec fn create_outcome(rows: Seq<TaskRowView>, task: TaskRecord, goal: GoalTaskView) -> Result<
    GoalTransitionResult,
    StoreError,
> {
    match new_goal_error(task, goal) {
        Some(error) => Err(error),
        None => if has_id(rows, task.id@) {
            Err(StoreError::IdExists)
        } else if session_occupant(rows, task.session_id->Some_0@) matches Some(row) && !replaceable(row) {
            Ok(GoalTransitionResult::Stale)
        } else if store_blank(task.session_id->Some_0@) {
            Err(StoreError::SessionBlankInTables)
        } else {
            match limits_error(goal.effective_token_limit, goal.effective_cost_limit_usd) {
                Some(error) => Err(error),
                None => Ok(GoalTransitionResult::Applied),
            }
        },
    }
}

/// Rows with that id.
pub open spec fn with_id(task_id: Seq<char>) -> spec_fn(TaskRowView) -> bool {
    |row: TaskRowView| row.task.id@ == task_id
}

/// The rows once the session's finished goal has made room.
pub open spec fn vacated(rows: Seq<TaskRowView>, session_id: Seq<char>) -> Seq<TaskRowView> {
    match session_occupant(rows, session_id) {
        Some(row) => without(rows, with_id(row.task.id@)),
        None => rows,
    }
}

/// The row of a new goal: its first epoch, and no terminal reason. The tables
/// have no column for tool batches.
pub open spec fn new_goal_row(task: TaskRecord, goal: GoalTaskView) -> TaskRowView {
    TaskRowView {
        task: TaskRecord { execution_epoch: 1, ..task },
        error: None,
        goal: Some(GoalTaskView { pending_tool_batch_id: None, pending_tool_epoch: None, ..goal }),
        continuation: None,
    }
}

/// The rows once a goal was created.
pub open spec fn created(rows: Seq<TaskRowView>, task: TaskRecord, goal: GoalTaskView) -> Seq<TaskRowView> {
    vacated(rows, task.session_id->Some_0@).push(new_goal_row(task, goal))
}

/// Whether task row and extension row belong together as a goal.
pub fn ensure_goal_task_identity(task: &TaskRecord, goal: &GoalTaskRecord) -> (r: Result<(), StoreError>)
    ensures
        match r {
            Ok(_) => task.kind is Goal && task.id@ == goal.task_id@,
            Err(error) => error == (if !(task.kind is Goal) {
                StoreError::NotGoalKind { task_id: task.id }
            } else {
                StoreError::IdMismatch { task_id: task.id, goal_task_id: goal.task_id }
            }) && (!(task.kind is Goal) || task.id@ != goal.task_id@),
        },
{
    if task.kind != TaskKind::Goal {
        return Err(StoreError::NotGoalKind { task_id: task.id.clone() });
    }
    if !same_text(task.id.as_str(), goal.task_id.as_str()) {
        return Err(StoreError::IdMismatch { task_id: task.id.clone(), goal_task_id: goal.task_id.clone() });
    }
    Ok(())
}

fn goal_is_settled(goal: &GoalTaskRecord) -> (r: bool)
    ensures
        r == goal@.settled(),
{
    goal.pending_call_id.is_none() && goal.pending_call_epoch.is_none()
}

fn goal_is_clean(goal: &GoalTaskRecord) -> (r: bool)
    ensures
        r == goal@.clean(),
{
    goal_is_settled(goal) && goal.accounting_state == GoalAccountingState::Complete
}

fn check_new_goal(task: &TaskRecord, goal: &GoalTaskRecord) -> (r: Option<StoreError>)
    ensures
        r == new_goal_error(*task, goal@),
{
    match ensure_goal_task_identity(task, goal) {
        Err(error) => {
            return Some(error);
        },
        Ok(()) => {},
    }
    let session_missing = match &task.session_id {
        Some(session) => is_blank(session.as_str()),
        None => true,
    };
    if session_missing {
        return Some(StoreError::SessionRequired);
    }
    if task.status != TaskStatus::Running || task.finished_at.is_some() {
        return Some(StoreError::NotFresh);
    }
    if is_blank(goal.objective.as_str()) {
        return Some(StoreError::ObjectiveRequired);
    }
    if !goal_is_clean(goal) {
        return Some(StoreError::PendingOrIncomplete);
    }
    None
}

impl TaskStore {
    /// Position of the goal that occupies a session.
    pub fn position_of_session(&self, session_id: &str) -> (r: Option<usize>)
        ensures
            match r {
                Some(i) => i < self.rows.len() && i == session_position(self@, session_id@, 0),
                None => session_position(self@, session_id@, 0) == self@.len(),
            },
    {
        let mut i: usize = 0;
        while i < self.rows.len()
            invariant
                i <= self.rows.len(),
                session_position(self@, session_id@, 0) == session_position(self@, session_id@, i as int),
            decreases self.rows.len() - i,
        {
            assert(self@[i as int] == self.rows@[i as int]@);
            if self.rows[i].task.kind == TaskKind::Goal && self.rows[i].has_session(session_id) {
                return Some(i);
            }
            i = i + 1;
        }
        None
    }

    /// Starts a goal in its session, in place of a finished goal that has
    /// nothing outstanding.
    pub fn create_or_replace_session_goal(&mut self, task: TaskRecord, goal: GoalTaskRecord) -> (r: Result<
        GoalTransitionResult,
        StoreError,
    >)
        ensures
            r == create_outcome(old(self)@, task, goal@),
            final(self)@ == (if r == Ok::<GoalTransitionResult, StoreError>(GoalTransitionResult::Applied) {
                created(old(self)@, task, goal@)
            } else {
                old(self)@
            }),
    {
        match check_new_goal(&task, &goal) {
            Some(error) => {
                return Err(error);
            },
            None => {},
        }
        let session_id: String = match &task.session_id {
            Some(session) => session.clone(),
            None => {
                return Err(StoreError::SessionRequired);
            },
        };
        if self.contains_id(task.id.as_str()) {
            return Err(StoreError::IdExists);
        }
        let occupant = self.position_of_session(session_id.as_str());
        match occupant {
            Some(at) => {
                let row = &self.rows[at];
                assert(self@[at as int] == row@);
                if !row.task.status.is_terminal() {
                    return Ok(GoalTransitionResult::Stale);
                }
                let open = match &row.goal {
                    Some(current) => !goal_is_settled(current),
                    None => false,
                };
                if open {
                    return Ok(GoalTransitionResult::Stale);
                }
            },
            None => {},
        }
        if is_store_blank(session_id.as_str()) {
            return Err(StoreError::SessionBlankInTables);
        }
        match goal_limits_to_db(goal.effective_token_limit, goal.effective_cost_limit_usd) {
            Err(error) => {
                return Err(error);
            },
            Ok(_) => {},
        }
        match occupant {
            Some(at) => {
                let id = self.rows[at].task.id.clone();
                assert(self@[at as int].task.id@ == id@);
                self.delete_rows(&RowDeletion::WithId { task_id: id.as_str() });
            },
            None => {},
        }
        let mut task = task;
        task.execution_epoch = 1;
        let mut goal = goal;
        goal.pending_tool_batch_id = None;
        goal.pending_tool_epoch = None;
        let ghost before = self@;
        let row = TaskRow { task, error: None, goal: Some(goal), continuation: None };
        let ghost row_view = row@;
        self.rows.push(row);
        assert(self@ =~= before.push(row_view));
        Ok(GoalTransitionResult::Applied)
    }
}

impl TaskRow {
    pub(super) fn pause_if(&mut self, task_id: &str, session_id: &str, expected_epoch: i64, pause: &GoalPauseState) -> (hit: bool)
        ensures
            hit == pausable(task_id@, session_id@, expected_epoch)(old(self)@),
            final(self)@ == (if hit {
                paused(pause@)(old(self)@)
            } else {
                old(self)@
            }),
    {
        if self.is_bound_goal(task_id, session_id) && self.task.status == TaskStatus::Running
            && self.task.execution_epoch == expected_epoch && expected_epoch < i64::MAX {
            self.task.status = TaskStatus::Paused;
            self.task.finished_at = None;
            self.task.execution_epoch = advance(self.task.execution_epoch);
            self.error = None;
            write_pause(&mut self.goal, Some(pause.copy()));
            true
        } else {
            false
        }
    }

    pub(super) fn resume_if(
        &mut self,
        task_id: &str,
        session_id: &str,
        expected_epoch: i64,
        owner_pid: u32,
        owner_boot_id: &String,
    ) -> (hit: bool)
        ensures
            hit == resumable(task_id@, session_id@, expected_epoch)(old(self)@),
            final(self)@ == (if hit {
                resumed(owner_pid, *owner_boot_id)(old(self)@)
            } else {
                old(self)@
            }),
    {
        let clean = match &self.goal {
            Some(goal) => goal_is_clean(goal),
            None => false,
        };
        if self.is_bound_goal(task_id, session_id) && self.task.status == TaskStatus::Paused
            && self.task.execution_epoch == expected_epoch && expected_epoch < i64::MAX && clean {
            self.task.status = TaskStatus::Running;
            self.task.execution_epoch = advance(self.task.execution_epoch);
            self.task.owner_pid = owner_pid;
            self.task.owner_boot_id = owner_boot_id.clone();
            self.task.heartbeat_at = None;
            write_pause(&mut self.goal, None);
            true
        } else {
            false
        }
    }

    fn is_active_at(&self, task_id: &str, session_id: &str, expected_epoch: i64) -> (r: bool)
        ensures
            r == active_at(task_id@, session_id@, expected_epoch)(self@),
    {
        self.is_bound_goal(task_id, session_id) && self.task.status.is_active() && self.task.execution_epoch
            == expected_epoch
    }

    pub(super) fn finish_if(
        &mut self,
        task_id: &str,
        session_id: &str,
        expected_epoch: i64,
        status: TaskStatus,
        error: &Option<Text>,
        now: &String,
    ) -> (hit: bool)
        ensures
            hit == active_at(task_id@, session_id@, expected_epoch)(old(self)@),
            final(self)@ == (if hit {
                finished(status, *error, *now)(old(self)@)
            } else {
                old(self)@
            }),
    {
        if self.is_active_at(task_id, session_id, expected_epoch) {
            self.task.status = status;
            self.task.finished_at = first_finish(&self.task.finished_at, now);
            self.task.execution_epoch = advance(self.task.execution_epoch);
            self.error = copy_opt(error);
            true
        } else {
            false
        }
    }

    fn is_admissible(&self, task_id: &str, session_id: &str, expected_epoch: i64) -> (r: bool)
        ensures
            r == admissible(task_id@, session_id@, expected_epoch)(self@),
    {
        let clean = match &self.goal {
            Some(goal) => goal_is_clean(goal),
            None => false,
        };
        self.is_bound_goal(task_id, session_id) && self.task.status == TaskStatus::Running
            && self.task.execution_epoch == expected_epoch && clean
    }

    pub(super) fn admit_if(&mut self, task_id: &str, session_id: &str, expected_epoch: i64, call_id: &String) -> (hit: bool)
        ensures
            hit == admissible(task_id@, session_id@, expected_epoch)(old(self)@),
            final(self)@ == (if hit {
                admitted(*call_id, expected_epoch)(old(self)@)
            } else {
                old(self)@
            }),
    {
        if self.is_admissible(task_id, session_id, expected_epoch) {
            match &mut self.goal {
                Some(goal) => {
                    goal.pending_call_id = Some(call_id.clone());
                    goal.pending_call_epoch = Some(expected_epoch);
                },
                None => {},
            }
            true
        } else {
            false
        }
    }

    pub(super) fn settle_if(
        &mut self,
        task_id: &str,
        session_id: &str,
        admitted_epoch: i64,
        call_id: &str,
        accounting_state: GoalAccountingState,
    ) -> (hit: bool)
        ensures
            hit == awaiting(task_id@, session_id@, admitted_epoch, call_id@)(old(self)@),
            final(self)@ == (if hit {
                settled(accounting_state)(old(self)@)
            } else {
                old(self)@
            }),
    {
        if !self.is_bound_goal(task_id, session_id) {
            return false;
        }
        let outstanding = match &self.goal {
            Some(goal) => match (&goal.pending_call_id, goal.pending_call_epoch) {
                (Some(pending), Some(epoch)) => same_text(pending.as_str(), call_id) && epoch == admitted_epoch,
                _ => false,
            },
            None => false,
        };
        if outstanding {
            match &mut self.goal {
                Some(goal) => {
                    goal.pending_call_id = None;
                    goal.pending_call_epoch = None;
                    goal.accounting_state = accounting_state;
                },
                None => {},
            }
        }
        outstanding
    }

    pub(super) fn limit_if(
        &mut self,
        task_id: &str,
        session_id: &str,
        expected_epoch: i64,
        token_limit: Option<u64>,
        cost_limit_usd: Option<Usd>,
    ) -> (hit: bool)
        ensures
            hit == limitable(task_id@, session_id@, expected_epoch)(old(self)@),
            final(self)@ == (if hit {
                limited(token_limit, cost_limit_usd)(old(self)@)
            } else {
                old(self)@
            }),
    {
        if self.is_active_at(task_id, session_id, expected_epoch) && self.goal.is_some() {
            match &mut self.goal {
                Some(goal) => {
                    goal.effective_token_limit = token_limit;
                    goal.effective_cost_limit_usd = cost_limit_usd;
                },
                None => {},
            }
            true
        } else {
            false
        }
    }

    pub(super) fn is_deletable(&self, task_id: &str, session_id: &str, expected_epoch: i64) -> (r: bool)
        ensures
            r == deletable(task_id@, session_id@, expected_epoch)(self@),
    {
        let closed = match &self.goal {
            Some(goal) => goal_is_settled(goal),
            None => true,
        };
        self.is_bound_goal(task_id, session_id) && self.task.status.is_terminal() && self.task.execution_epoch
            == expected_epoch && closed
    }
}

/// What admitting a call answers.
pub open spec fn admit_outcome(
    rows: Seq<TaskRowView>,
    task_id: Seq<char>,
    session_id: Seq<char>,
    epoch: i64,
    call_id: Seq<char>,
) -> Result<GoalTransitionResult, StoreError> {
    if blank(call_id) {
        Err(StoreError::BlankCallId)
    } else if any_row(rows, admissible(task_id, session_id, epoch)) {
        if store_blank(call_id) || epoch < 1 {
            Err(StoreError::PendingPairInvalid)
        } else if call_outstanding(rows, call_id) {
            Err(StoreError::PendingCallTaken)
        } else {
            Ok(GoalTransitionResult::Applied)
        }
    } else {
        Ok(transition_outcome(rows, admissible(task_id, session_id, epoch), task_id))
    }
}

/// Some goal has that call outstanding.
pub open spec fn call_outstanding(rows: Seq<TaskRowView>, call_id: Seq<char>) -> bool {
    exists|i: int| 0 <= i < rows.len() && pending_call(#[trigger] rows[i]) == Some(call_id)
}

impl TaskStore {
    /// Pauses the running goal of a session at an epoch, and moves it to the
    /// next epoch.
    pub fn pause_session_goal(
        &mut self,
        task_id: &str,
        session_id: &str,
        expected_epoch: i64,
        pause: GoalPauseState,
    ) -> (r: GoalTransitionResult)
        ensures
            r == transition_outcome(old(self)@, pausable(task_id@, session_id@, expected_epoch), task_id@),
            final(self)@ == updated(old(self)@, pausable(task_id@, session_id@, expected_epoch), paused(pause@)),
    {
        self.transition(task_id, &RowChange::Pause { task_id, session_id, epoch: expected_epoch, pause: &pause })
    }

    /// Resumes the paused goal of a session at an epoch under a new owner, and
    /// moves it to the next epoch. Refused while a call is outstanding or usage
    /// is not fully known.
    pub fn resume_session_goal(
        &mut self,
        task_id: &str,
        session_id: &str,
        expected_epoch: i64,
        owner_pid: u32,
        owner_boot_id: String,
    ) -> (r: GoalTransitionResult)
        ensures
            r == transition_outcome(old(self)@, resumable(task_id@, session_id@, expected_epoch), task_id@),
            final(self)@ == updated(
                old(self)@,
                resumable(task_id@, session_id@, expected_epoch),
                resumed(owner_pid, owner_boot_id),
            ),
    {
        let change = RowChange::Resume {
            task_id,
            session_id,
            epoch: expected_epoch,
            owner_pid,
            owner_boot_id: &owner_boot_id,
        };
        self.transition(task_id, &change)
    }

    /// Ends the goal of a session at an epoch with a terminal status, as of
    /// `now`, and moves it to the next epoch.
    pub fn finish_session_goal_at(
        &mut self,
        task_id: &str,
        session_id: &str,
        expected_epoch: i64,
        status: TaskStatus,
        error: Option<Text>,
        now: String,
    ) -> (r: Result<GoalTransitionResult, StoreError>)
        ensures
            r == finish_outcome(old(self)@, task_id@, session_id@, expected_epoch, status),
            final(self)@ == finish_rows(old(self)@, task_id@, session_id@, expected_epoch, status, error, now),
    {
        if !status.is_terminal() {
            return Err(StoreError::NotTerminal);
        }
        let change = RowChange::Finish {
            task_id,
            session_id,
            epoch: expected_epoch,
            status,
            error: &error,
            now: &now,
        };
        Ok(self.transition(task_id, &change))
    }

    /// Ends the goal of a session at an epoch with a terminal status.
    pub fn finish_session_goal(
        &mut self,
        task_id: &str,
        session_id: &str,
        expected_epoch: i64,
        status: TaskStatus,
        error: Option<Text>,
    ) -> (r: Result<GoalTransitionResult, StoreError>)
        ensures
            r == finish_outcome(old(self)@, task_id@, session_id@, expected_epoch, status),
            exists|now: String|
                is_timestamp(now@) && final(self)@ == #[trigger] finish_rows(
                    old(self)@,
                    task_id@,
                    session_id@,
                    expected_epoch,
                    status,
                    error,
                    now,
                ),
    {
        let now = now_rfc3339();
        self.finish_session_goal_at(task_id, session_id, expected_epoch, status, error, now)
    }

    /// Records an outstanding call for the running goal of a session at an
    /// epoch.
    pub fn admit_pending_operation(
        &mut self,
        task_id: &str,
        session_id: &str,
        expected_epoch: i64,
        pending_call_id: String,
    ) -> (r: Result<GoalTransitionResult, StoreError>)
        ensures
            r == admit_outcome(old(self)@, task_id@, session_id@, expected_epoch, pending_call_id@),
            final(self)@ == (if r == Ok::<GoalTransitionResult, StoreError>(GoalTransitionResult::Applied) {
                updated(
                    old(self)@,
                    admissible(task_id@, session_id@, expected_epoch),
                    admitted(pending_call_id, expected_epoch),
                )
            } else {
                old(self)@
            }),
    {
        if is_blank(pending_call_id.as_str()) {
            return Err(StoreError::BlankCallId);
        }
        if !self.can_admit(task_id, session_id, expected_epoch) {
            return Ok(self.transition_failure(task_id));
        }
        if is_store_blank(pending_call_id.as_str()) || expected_epoch < 1 {
            return Err(StoreError::PendingPairInvalid);
        }
        if self.has_call_outstanding(pending_call_id.as_str()) {
            return Err(StoreError::PendingCallTaken);
        }
        let change = RowChange::Pend { task_id, session_id, epoch: expected_epoch, call_id: &pending_call_id };
        Ok(self.transition(task_id, &change))
    }

    fn can_admit(&self, task_id: &str, session_id: &str, expected_epoch: i64) -> (r: bool)
        ensures
            r == any_row(self@, admissible(task_id@, session_id@, expected_epoch)),
    {
        let mut i: usize = 0;
        while i < self.rows.len()
            invariant
                i <= self.rows.len(),
                forall|j: int| 0 <= j < i ==> !admissible(task_id@, session_id@, expected_epoch)(#[trigger] self@[j]),
            decreases self.rows.len() - i,
        {
            assert(self@[i as int] == self.rows@[i as int]@);
            if self.rows[i].is_admissible(task_id, session_id, expected_epoch) {
                return true;
            }
            i = i + 1;
        }
        false
    }

    /// Whether some goal has that call outstanding.
    pub fn has_call_outstanding(&self, call_id: &str) -> (r: bool)
        ensures
            r == call_outstanding(self@, call_id@),
    {
        let mut i: usize = 0;
        while i < self.rows.len()
            invariant
                i <= self.rows.len(),
                forall|j: int| 0 <= j < i ==> pending_call(#[trigger] self@[j]) != Some(call_id@),
            decreases self.rows.len() - i,
        {
            assert(self@[i as int] == self.rows@[i as int]@);
            let hit = match &self.rows[i].goal {
                Some(goal) => match &goal.pending_call_id {
                    Some(pending) => same_text(pending.as_str(), call_id),
                    None => false,
                },
                None => false,
            };
            if hit {
                return true;
            }
            i = i + 1;
        }
        false
    }

    /// Clears an outstanding call, whatever became of the goal meanwhile, and
    /// records what is known of its usage.
    pub fn settle_pending_operation(
        &mut self,
        task_id: &str,
        session_id: &str,
        admitted_epoch: i64,
        pending_call_id: &str,
        accounting_state: GoalAccountingState,
    ) -> (r: GoalTransitionResult)
        ensures
            r == transition_outcome(
                old(self)@,
                awaiting(task_id@, session_id@, admitted_epoch, pending_call_id@),
                task_id@,
            ),
            final(self)@ == updated(
                old(self)@,
                awaiting(task_id@, session_id@, admitted_epoch, pending_call_id@),
                settled(accounting_state),
            ),
    {
        let change = RowChange::Settle {
            task_id,
            session_id,
            epoch: admitted_epoch,
            call_id: pending_call_id,
            accounting_state,
        };
        self.transition(task_id, &change)
    }

    /// Changes the limits of the running or paused goal of a session at an
    /// epoch.
    pub fn update_session_goal_limits(
        &mut self,
        task_id: &str,
        session_id: &str,
        expected_epoch: i64,
        token_limit: Option<u64>,
        cost_limit_usd: Option<Usd>,
    ) -> (r: Result<GoalTransitionResult, StoreError>)
        ensures
            r == session_limits_outcome(
                old(self)@,
                task_id@,
                session_id@,
                expected_epoch,
                token_limit,
                cost_limit_usd,
            ),
            final(self)@ == session_limits_rows(
                old(self)@,
                task_id@,
                session_id@,
                expected_epoch,
                token_limit,
                cost_limit_usd,
            ),
    {
        match goal_limits_to_db(token_limit, cost_limit_usd) {
            Err(error) => {
                return Err(error);
            },
            Ok(_) => {},
        }
        let change = RowChange::Limit { task_id, session_id, epoch: expected_epoch, token_limit, cost_limit_usd };
        Ok(self.transition(task_id, &change))
    }

    /// Deletes the finished goal of a session at an epoch, unless a call is
    /// still outstanding.
    pub fn delete_session_goal(&mut self, task_id: &str, session_id: &str, expected_epoch: i64) -> (r:
        GoalTransitionResult)
        ensures
            r == transition_outcome(old(self)@, deletable(task_id@, session_id@, expected_epoch), task_id@),
            final(self)@ == without(old(self)@, deletable(task_id@, session_id@, expected_epoch)),
    {
        if self.delete_rows(&RowDeletion::Finished { task_id, session_id, epoch: expected_epoch }) {
            GoalTransitionResult::Applied
        } else {
            self.transition_failure(task_id)
        }
    }
}

/// What ending a goal answers.
pub open spec fn finish_outcome(
    rows: Seq<TaskRowView>,
    task_id: Seq<char>,
    session_id: Seq<char>,
    epoch: i64,
    status: TaskStatus,
) -> Result<GoalTransitionResult, StoreError> {
    if !status.terminal() {
        Err(StoreError::NotTerminal)
    } else {
        Ok(transition_outcome(rows, active_at(task_id, session_id, epoch), task_id))
    }
}

/// The rows once a goal has ended.
pub open spec fn finish_rows(
    rows: Seq<TaskRowView>,
    task_id: Seq<char>,
    session_id: Seq<char>,
    epoch: i64,
    status: TaskStatus,
    error: Option<Text>,
    now: String,
) -> Seq<TaskRowView> {
    if status.terminal() {
        updated(rows, active_at(task_id, session_id, epoch), finished(status, error, now))
    } else {
        rows
    }
}

/// What changing limits answers.
pub open spec fn session_limits_outcome(
    rows: Seq<TaskRowView>,
    task_id: Seq<char>,
    session_id: Seq<char>,
    epoch: i64,
    token_limit: Option<u64>,
    cost_limit: Option<Usd>,
) -> Result<GoalTransitionResult, StoreError> {
    match limits_error(token_limit, cost_limit) {
        Some(error) => Err(error),
        None => Ok(transition_outcome(rows, limitable(task_id, session_id, epoch), task_id)),
    }
}

/// The rows once limits have changed.
pub open spec fn session_limits_rows(
    rows: Seq<TaskRowView>,
    task_id: Seq<char>,
    session_id: Seq<char>,
    epoch: i64,
    token_limit: Option<u64>,
    cost_limit: Option<Usd>,
) -> Seq<TaskRowView> {
    if limits_error(token_limit, cost_limit) is None {
        updated(rows, limitable(task_id, session_id, epoch), limited(token_limit, cost_limit))
    } else {
        rows
    }
}

} // verus!
