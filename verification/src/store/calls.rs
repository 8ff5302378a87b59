//! What callers of the store can rely on: for every call, what becomes of each
//! row and what the answer says.
use vstd::prelude::*;
#[allow(unused_imports)]
use vstd::string::*;

use super::boot::booted;
use super::context::insert_error;
use super::error::StoreError;
use super::legacy::extends;
use super::limits::limits_error;
use super::meaning::{
    accounted, answers, at_rest, ended, epoch_after, is_goal_of, law_latest_goal_of_a_context,
    law_terminal_reason_is_of_an_ended_goal, law_what_a_creation_does, law_what_unguarded_changes_do, pause_written,
    recorded,
};
use super::migration::{
    migrate_schema, normalized, steps_between, version_steps, MigrationStep, LATEST_VERSION, OBJECTIVE_GUARD, SCHEMA_V1,
    SCHEMA_V2, SCHEMA_V3, SCHEMA_V4, SCHEMA_V5, SCHEMA_V6, SCHEMA_V7, SCHEMA_V8,
};
use super::queries::{goal_row, latest_at};
use super::rows::{goal_task_to_row, law_stored_goal_reads_back, row_to_goal_task, RowError, StoredGoal};
use super::session::{
    active_at, awaiting, created, deletable, limitable, new_goal_error, pausable, resumable, session_occupant,
};
use super::{store_blank, valid, TaskRowView, TaskStore};
use crate::clock::is_timestamp;
use crate::goal_task::{
    GoalAccountingState, GoalPauseState, GoalTaskRecord, GoalTaskView, GoalTransitionResult, TaskContinuationContext,
};
use crate::message::Text;
use crate::task::{TaskKind, TaskRecord, TaskStatus};
use crate::text::{blank, text_before};
use crate::usd::Usd;

verus! {

// ---------------------------------------------------------------- transitions
/// After a call to pause, the running goal of the session at the epoch is
/// paused with what was given, one epoch on; every other row is as it was.
pub proof fn law_goal_is_paused(
    store: &mut TaskStore,
    task_id: &str,
    session_id: &str,
    epoch: i64,
    pause: GoalPauseState,
    r: GoalTransitionResult,
    i: int,
)
    requires
        call_ensures(TaskStore::pause_session_goal, (store, task_id, session_id, epoch, pause), r),
        0 <= i < old(store)@.len(),
    ensures
        answers(old(store)@, pausable(task_id@, session_id@, epoch), task_id@, r),
        final(store)@.len() == old(store)@.len(),
        ({
            let row = old(store)@[i];
            let after = final(store)@[i];
            if is_goal_of(row, task_id@, session_id@) && row.task.status == TaskStatus::Running
                && row.task.execution_epoch == epoch && epoch < i64::MAX {
                &&& r is Applied
                &&& after.task.status == TaskStatus::Paused
                &&& after.task.execution_epoch == epoch + 1
                &&& row.goal matches Some(goal) ==> pause_written(goal, after.goal->Some_0, Some(pause@))
            } else {
                after == row
            }
        }),
{
}

/// After a call to resume, the paused goal of the session at the epoch runs
/// under its new owner, one epoch on and without its pause, if all its usage is
/// known; every other row is as it was.
pub proof fn law_goal_is_resumed(
    store: &mut TaskStore,
    task_id: &str,
    session_id: &str,
    epoch: i64,
    owner_pid: u32,
    owner_boot_id: String,
    r: GoalTransitionResult,
    i: int,
)
    requires
        call_ensures(
            TaskStore::resume_session_goal,
            (store, task_id, session_id, epoch, owner_pid, owner_boot_id),
            r,
        ),
        0 <= i < old(store)@.len(),
    ensures
        answers(old(store)@, resumable(task_id@, session_id@, epoch), task_id@, r),
        final(store)@.len() == old(store)@.len(),
        ({
            let row = old(store)@[i];
            let after = final(store)@[i];
            if is_goal_of(row, task_id@, session_id@) && row.task.status == TaskStatus::Paused
                && row.task.execution_epoch == epoch && epoch < i64::MAX && (row.goal matches Some(goal) && accounted(
                goal,
            )) {
                &&& r is Applied
                &&& after.task.status == TaskStatus::Running
                &&& after.task.execution_epoch == epoch + 1
                &&& after.task.owner_pid == owner_pid
                &&& after.task.owner_boot_id == owner_boot_id
                &&& after.task.heartbeat_at is None
                &&& pause_written(row.goal->Some_0, after.goal->Some_0, None)
            } else {
                after == row
            }
        }),
{
}

/// A goal that was paused by one call can be resumed by the next, at the epoch
/// that the pause led to, and at no other; it runs two epochs on, and its
/// extension is what it was but for the pause.
pub proof fn law_pause_and_resume(
    store: &mut TaskStore,
    later: &mut TaskStore,
    task_id: &str,
    session_id: &str,
    epoch: i64,
    at: i64,
    pause: GoalPauseState,
    owner_pid: u32,
    owner_boot_id: String,
    first: GoalTransitionResult,
    second: GoalTransitionResult,
    i: int,
)
    requires
        call_ensures(TaskStore::pause_session_goal, (store, task_id, session_id, epoch, pause), first),
        final(store)@ == old(later)@,
        call_ensures(TaskStore::resume_session_goal, (later, task_id, session_id, at, owner_pid, owner_boot_id), second),
        0 <= i < old(store)@.len(),
        is_goal_of(old(store)@[i], task_id@, session_id@),
        old(store)@[i].task.status == TaskStatus::Running,
        old(store)@[i].task.execution_epoch == epoch,
        epoch + 1 < i64::MAX,
        old(store)@[i].goal matches Some(goal) && accounted(goal),
    ensures
        first is Applied,
        ({
            let row = old(store)@[i];
            let after = final(later)@[i];
            if at == epoch + 1 {
                &&& second is Applied
                &&& after.task.status == TaskStatus::Running
                &&& after.task.execution_epoch == epoch + 2
                &&& pause_written(row.goal->Some_0, after.goal->Some_0, None)
            } else {
                after.task.status == TaskStatus::Paused && after.task.execution_epoch == epoch + 1
            }
        }),
{
    law_goal_is_paused(store, task_id, session_id, epoch, pause, first, i);
    law_goal_is_resumed(later, task_id, session_id, at, owner_pid, owner_boot_id, second, i);
}

/// After a call to finish, the running or paused goal of the session at the
/// epoch has ended as it was told, one epoch on; every other row is as it was.
/// A status that is no end is refused.
pub proof fn law_goal_is_ended(
    store: &mut TaskStore,
    task_id: &str,
    session_id: &str,
    epoch: i64,
    status: TaskStatus,
    error: Option<Text>,
    r: Result<GoalTransitionResult, StoreError>,
    i: int,
)
    requires
        call_ensures(TaskStore::finish_session_goal, (store, task_id, session_id, epoch, status, error), r),
        0 <= i < old(store)@.len(),
    ensures
        final(store)@.len() == old(store)@.len(),
        ended(status) ==> (r matches Ok(answer) && answers(
            old(store)@,
            active_at(task_id@, session_id@, epoch),
            task_id@,
            answer,
        )),
        !ended(status) ==> r == Err::<GoalTransitionResult, StoreError>(StoreError::NotTerminal),
        ({
            let row = old(store)@[i];
            let after = final(store)@[i];
            if ended(status) && is_goal_of(row, task_id@, session_id@) && !ended(row.task.status)
                && row.task.execution_epoch == epoch {
                &&& r == Ok::<GoalTransitionResult, StoreError>(GoalTransitionResult::Applied)
                &&& after.task.status == status
                &&& after.task.execution_epoch == epoch_after(epoch)
                &&& after.error == error
                &&& after.goal == row.goal
                &&& row.task.finished_at is Some ==> after.task.finished_at == row.task.finished_at
                &&& row.task.finished_at is None ==> (after.task.finished_at matches Some(at) && is_timestamp(at@))
            } else {
                after == row
            }
        }),
{
}

/// The same, at a time that the caller gives.
pub proof fn law_goal_is_ended_at(
    store: &mut TaskStore,
    task_id: &str,
    session_id: &str,
    epoch: i64,
    status: TaskStatus,
    error: Option<Text>,
    now: String,
    r: Result<GoalTransitionResult, StoreError>,
    i: int,
)
    requires
        call_ensures(TaskStore::finish_session_goal_at, (store, task_id, session_id, epoch, status, error, now), r),
        0 <= i < old(store)@.len(),
        ended(status),
        is_goal_of(old(store)@[i], task_id@, session_id@),
        !ended(old(store)@[i].task.status),
        old(store)@[i].task.execution_epoch == epoch,
    ensures
        r == Ok::<GoalTransitionResult, StoreError>(GoalTransitionResult::Applied),
        final(store)@[i].task.status == status,
        final(store)@[i].task.finished_at == recorded(old(store)@[i].task.finished_at, now),
        final(store)@[i].error == error,
{
    assert(active_at(task_id@, session_id@, epoch)(old(store)@[i]));
}

/// The goal that a call was recorded for has it outstanding; no other row
/// changes, and no row does if the call is refused.
pub proof fn law_call_is_outstanding(
    store: &mut TaskStore,
    task_id: &str,
    session_id: &str,
    epoch: i64,
    call_id: String,
    r: Result<GoalTransitionResult, StoreError>,
    i: int,
)
    requires
        call_ensures(TaskStore::admit_pending_operation, (store, task_id, session_id, epoch, call_id), r),
        0 <= i < old(store)@.len(),
    ensures
        ({
            let row = old(store)@[i];
            let after = final(store)@[i];
            let hit = is_goal_of(row, task_id@, session_id@) && row.task.status == TaskStatus::Running
                && row.task.execution_epoch == epoch && (row.goal matches Some(goal) && accounted(goal));
            &&& final(store)@.len() == old(store)@.len()
            &&& r == Ok::<GoalTransitionResult, StoreError>(GoalTransitionResult::Applied) && hit ==> after == (
            TaskRowView {
                goal: Some(
                    GoalTaskView {
                        pending_call_id: Some(call_id),
                        pending_call_epoch: Some(epoch),
                        ..row.goal->Some_0
                    },
                ),
                ..row
            })
            &&& !hit || r != Ok::<GoalTransitionResult, StoreError>(GoalTransitionResult::Applied) ==> after == row
            &&& blank(call_id@) <==> r == Err::<GoalTransitionResult, StoreError>(StoreError::BlankCallId)
            &&& hit && !store_blank(call_id@) && !blank(call_id@) && epoch >= 1 ==> r == (if exists|k: int|
                0 <= k < old(store)@.len() && ((#[trigger] old(store)@[k]).goal matches Some(goal) && (
                goal.pending_call_id matches Some(other) && other@ == call_id@)) {
                Err::<GoalTransitionResult, StoreError>(StoreError::PendingCallTaken)
            } else {
                Ok::<GoalTransitionResult, StoreError>(GoalTransitionResult::Applied)
            })
        }),
{
    super::meaning::law_what_a_call_does(old(store)@, old(store)@[i], task_id@, session_id@, epoch, call_id);
}

/// Settling a call leaves nothing outstanding for the goal that had it, and
/// records what was found; every other row is as it was.
pub proof fn law_call_is_settled(
    store: &mut TaskStore,
    task_id: &str,
    session_id: &str,
    epoch: i64,
    call_id: &str,
    state: GoalAccountingState,
    r: GoalTransitionResult,
    i: int,
)
    requires
        call_ensures(TaskStore::settle_pending_operation, (store, task_id, session_id, epoch, call_id, state), r),
        0 <= i < old(store)@.len(),
    ensures
        answers(old(store)@, awaiting(task_id@, session_id@, epoch, call_id@), task_id@, r),
        final(store)@.len() == old(store)@.len(),
        ({
            let row = old(store)@[i];
            let after = final(store)@[i];
            if is_goal_of(row, task_id@, session_id@) && (row.goal matches Some(goal) && (
            goal.pending_call_id matches Some(id) && id@ == call_id@) && goal.pending_call_epoch == Some(epoch)) {
                &&& r is Applied
                &&& after == (TaskRowView {
                    goal: Some(
                        GoalTaskView {
                            pending_call_id: None,
                            pending_call_epoch: None,
                            accounting_state: state,
                            ..row.goal->Some_0
                        },
                    ),
                    ..row
                })
            } else {
                after == row
            }
        }),
{
}

/// New limits are those of the running or paused goal of the session at the
/// epoch; every other row is as it was, and every row is if they cannot be
/// stored.
pub proof fn law_limits_are_set(
    store: &mut TaskStore,
    task_id: &str,
    session_id: &str,
    epoch: i64,
    token_limit: Option<u64>,
    cost_limit: Option<Usd>,
    r: Result<GoalTransitionResult, StoreError>,
    i: int,
)
    requires
        call_ensures(
            TaskStore::update_session_goal_limits,
            (store, task_id, session_id, epoch, token_limit, cost_limit),
            r,
        ),
        0 <= i < old(store)@.len(),
    ensures
        final(store)@.len() == old(store)@.len(),
        match limits_error(token_limit, cost_limit) {
            Some(error) => r == Err::<GoalTransitionResult, StoreError>(error) && final(store)@ == old(store)@,
            None => r matches Ok(answer) && answers(
                old(store)@,
                limitable(task_id@, session_id@, epoch),
                task_id@,
                answer,
            ),
        },
        ({
            let row = old(store)@[i];
            let after = final(store)@[i];
            if limits_error(token_limit, cost_limit) is None && is_goal_of(row, task_id@, session_id@) && !ended(
                row.task.status,
            ) && row.task.execution_epoch == epoch && row.goal is Some {
                &&& r == Ok::<GoalTransitionResult, StoreError>(GoalTransitionResult::Applied)
                &&& after == (TaskRowView {
                    goal: Some(
                        GoalTaskView {
                            effective_token_limit: token_limit,
                            effective_cost_limit_usd: cost_limit,
                            ..row.goal->Some_0
                        },
                    ),
                    ..row
                })
            } else {
                after == row
            }
        }),
{
}

/// A deletion leaves exactly the rows that are not the finished goal of the
/// session at the epoch with nothing outstanding, in their order.
pub proof fn law_goal_is_deleted(
    store: &mut TaskStore,
    task_id: &str,
    session_id: &str,
    epoch: i64,
    r: GoalTransitionResult,
)
    requires
        call_ensures(TaskStore::delete_session_goal, (store, task_id, session_id, epoch), r),
    ensures
        answers(old(store)@, deletable(task_id@, session_id@, epoch), task_id@, r),
        final(store)@ == old(store)@.filter(
            |row: TaskRowView|
                !(is_goal_of(row, task_id@, session_id@) && ended(row.task.status) && row.task.execution_epoch == epoch
                    && (row.goal matches Some(goal) ==> at_rest(goal))),
        ),
{
    let kept = |row: TaskRowView|
        !(is_goal_of(row, task_id@, session_id@) && ended(row.task.status) && row.task.execution_epoch == epoch && (
        row.goal matches Some(goal) ==> at_rest(goal)));
    let guard = deletable(task_id@, session_id@, epoch);
    assert((|row: TaskRowView| !guard(row)) =~= kept);
}

/// A goal that was created is the last row, at its first epoch; one that was
/// not created leaves every row as it was, and the answer says why.
pub proof fn law_goal_is_created(
    store: &mut TaskStore,
    task: TaskRecord,
    goal: GoalTaskRecord,
    r: Result<GoalTransitionResult, StoreError>,
)
    requires
        call_ensures(TaskStore::create_or_replace_session_goal, (store, task, goal), r),
    ensures
        r != Ok::<GoalTransitionResult, StoreError>(GoalTransitionResult::Applied) ==> final(store)@ == old(store)@,
        r == Ok::<GoalTransitionResult, StoreError>(GoalTransitionResult::Applied) ==> {
            &&& final(store)@.len() > 0
            &&& final(store)@.last().task == (TaskRecord { execution_epoch: 1, ..task })
            &&& final(store)@.last().error is None
            &&& final(store)@.last().continuation is None
            &&& final(store)@.last().goal == Some(
                GoalTaskView { pending_tool_batch_id: None, pending_tool_epoch: None, ..goal@ },
            )
        },
        match new_goal_error(task, goal@) {
            Some(error) => r == Err::<GoalTransitionResult, StoreError>(error),
            None => {
                let known = exists|i: int| 0 <= i < old(store)@.len() && (#[trigger] old(store)@[i]).task.id@ == task.id@;
                let session = task.session_id->Some_0@;
                let occupied = session_occupant(old(store)@, session) matches Some(row) && !(ended(row.task.status) && (
                row.goal matches Some(goal) ==> at_rest(goal)));
                &&& known <==> r == Err::<GoalTransitionResult, StoreError>(StoreError::IdExists)
                &&& !known && occupied <==> r == Ok::<GoalTransitionResult, StoreError>(GoalTransitionResult::Stale)
                &&& !known && !occupied && !store_blank(session) && limits_error(
                    goal@.effective_token_limit,
                    goal@.effective_cost_limit_usd,
                ) is None <==> r == Ok::<GoalTransitionResult, StoreError>(GoalTransitionResult::Applied)
            },
        },
{
    if new_goal_error(task, goal@) is None {
        law_what_a_creation_does(old(store)@, task, goal@);
        assert(created(old(store)@, task, goal@).len() > 0);
    }
}

// ---------------------------------------------------------------- goals without a session
/// A goal is inserted if it is one, with its own extension and limits that can
/// be stored, under an id of its own; an active goal needs a context that no
/// active goal has, and an outstanding call needs its epoch and an id that is
/// outstanding nowhere else.
pub proof fn law_which_goals_are_inserted(rows: Seq<TaskRowView>, task: TaskRecord, goal: GoalTaskView)
    ensures
        ({
            let whole = task.kind == TaskKind::Goal;
            let paired = task.id@ == goal.task_id@;
            let stored = limits_error(goal.effective_token_limit, goal.effective_cost_limit_usd);
            let known = exists|i: int| 0 <= i < rows.len() && (#[trigger] rows[i]).task.id@ == task.id@;
            let taken = !ended(task.status) && exists|i: int|
                {
                    &&& 0 <= i < rows.len()
                    &&& (#[trigger] rows[i]).task.kind == TaskKind::Goal
                    &&& !ended(rows[i].task.status)
                    &&& rows[i].task.agent@ == task.agent@
                    &&& words_or_none(rows[i].task.originator_route) == words_or_none(task.originator_route)
                    &&& words_or_none(rows[i].task.principal_id) == words_or_none(task.principal_id)
                };
            let complete = match (goal.pending_call_id, goal.pending_call_epoch) {
                (None, None) => true,
                (Some(id), Some(epoch)) => !store_blank(id@) && epoch >= 1,
                _ => false,
            };
            let error = insert_error(rows, task, goal);
            &&& !whole ==> error == Some(StoreError::NotGoalKind { task_id: task.id })
            &&& whole && !paired ==> error == Some(
                StoreError::IdMismatch { task_id: task.id, goal_task_id: goal.task_id },
            )
            &&& whole && paired && stored is Some ==> error == stored
            &&& whole && paired && stored is None && known ==> error == Some(StoreError::TaskIdTaken)
            &&& whole && paired && stored is None && !known && taken ==> error == Some(StoreError::ContextTaken)
            &&& whole && paired && stored is None && !known && !taken && !complete ==> error == Some(
                StoreError::PendingPairInvalid,
            )
            &&& whole && paired && stored is None && !known && !taken && complete && goal.pending_call_id is None
                ==> error is None
            &&& whole && paired && stored is None && !known && !taken && complete && goal.pending_call_id is Some
                ==> error == (if exists|i: int|
                0 <= i < rows.len() && ((#[trigger] rows[i]).goal matches Some(other) && (
                other.pending_call_id matches Some(id) && id@ == goal.pending_call_id->Some_0@)) {
                Some(StoreError::PendingCallTaken)
            } else {
                None
            })
        }),
{
    if !ended(task.status) && exists|i: int|
        {
            &&& 0 <= i < rows.len()
            &&& (#[trigger] rows[i]).task.kind == TaskKind::Goal
            &&& !ended(rows[i].task.status)
            &&& rows[i].task.agent@ == task.agent@
            &&& words_or_none(rows[i].task.originator_route) == words_or_none(task.originator_route)
            &&& words_or_none(rows[i].task.principal_id) == words_or_none(task.principal_id)
        } {
        let i = choose|i: int|
            {
                &&& 0 <= i < rows.len()
                &&& (#[trigger] rows[i]).task.kind == TaskKind::Goal
                &&& !ended(rows[i].task.status)
                &&& rows[i].task.agent@ == task.agent@
                &&& words_or_none(rows[i].task.originator_route) == words_or_none(task.originator_route)
                &&& words_or_none(rows[i].task.principal_id) == words_or_none(task.principal_id)
            };
        assert(super::context::holds_context(rows[i].task));
        assert(super::context::same_context(rows[i].task, task));
    }
    if goal.pending_call_id is Some {
        let id = goal.pending_call_id->Some_0;
        assert(super::session::call_outstanding(rows, id@) == exists|i: int|
            0 <= i < rows.len() && ((#[trigger] rows[i]).goal matches Some(other) && (
            other.pending_call_id matches Some(has) && has@ == id@))) by {
            if exists|i: int|
                0 <= i < rows.len() && ((#[trigger] rows[i]).goal matches Some(other) && (
                other.pending_call_id matches Some(has) && has@ == id@)) {
                let i = choose|i: int|
                    0 <= i < rows.len() && ((#[trigger] rows[i]).goal matches Some(other) && (
                    other.pending_call_id matches Some(has) && has@ == id@));
                assert(super::pending_call(rows[i]) == Some(id@));
            }
        }
    }
}

/// Text that may be missing; a missing text and an empty one are the same.
pub open spec fn words_or_none(text: Option<String>) -> Seq<char> {
    match text {
        Some(text) => text@,
        None => Seq::empty(),
    }
}

/// A goal that was inserted comes last, as it was given; a refused one leaves
/// the rows as they were.
pub proof fn law_goal_is_inserted(
    store: &mut TaskStore,
    task: TaskRecord,
    goal: GoalTaskRecord,
    continuation: Option<TaskContinuationContext>,
    r: Result<(), StoreError>,
)
    requires
        call_ensures(TaskStore::create_goal, (store, task, goal, continuation), r),
    ensures
        match insert_error(old(store)@, task, goal@) {
            Some(error) => r == Err::<(), StoreError>(error) && final(store)@ == old(store)@,
            None => {
                &&& r is Ok
                &&& final(store)@.len() == old(store)@.len() + 1
                &&& final(store)@.drop_last() == old(store)@
                &&& final(store)@.last().task == task
                &&& final(store)@.last().error is None
                &&& final(store)@.last().continuation == continuation
                &&& final(store)@.last().goal == Some(
                    GoalTaskView { pending_tool_batch_id: None, pending_tool_epoch: None, ..goal@ },
                )
            },
        },
{
    assert(final(store)@.drop_last() =~= old(store)@ || r is Err);
}

/// Changes to a goal without a session: limits and a pause go to the extension
/// with the id, where to go on goes to the goal with the id, and nothing else
/// of any row changes. A goal that is bound to a session is refused.
pub proof fn law_unbound_goal_is_changed(
    limited: &mut TaskStore,
    paused: &mut TaskStore,
    continued: &mut TaskStore,
    task_id: String,
    token_limit: Option<u64>,
    cost_limit: Option<Usd>,
    pause: Option<GoalPauseState>,
    context: Option<TaskContinuationContext>,
    a: Result<(), StoreError>,
    b: Result<(), StoreError>,
    c: Result<(), StoreError>,
    i: int,
)
    requires
        call_ensures(TaskStore::update_goal_limits, (limited, task_id, token_limit, cost_limit), a),
        call_ensures(TaskStore::update_goal_pause, (paused, task_id, pause), b),
        call_ensures(TaskStore::set_continuation_context, (continued, task_id, context), c),
        old(limited)@ == old(paused)@,
        old(limited)@ == old(continued)@,
        0 <= i < old(limited)@.len(),
    ensures
        ({
            let row = old(limited)@[i];
            let mine = row.goal matches Some(goal) && goal.task_id@ == task_id@;
            let bound = row.task.id@ == task_id@ && row.task.kind == TaskKind::Goal && (
            row.task.session_id matches Some(session) && !store_blank(session@));
            &&& a is Err ==> final(limited)@ == old(limited)@
            &&& b is Err ==> final(paused)@ == old(paused)@
            &&& c is Err ==> final(continued)@ == old(continued)@
            &&& bound ==> b == Err::<(), StoreError>(StoreError::SessionBound) && c == Err::<(), StoreError>(
                StoreError::SessionBound,
            ) && a is Err
            &&& b is Ok ==> !bound
            &&& limits_error(token_limit, cost_limit) matches Some(error) ==> a == Err::<(), StoreError>(error)
            &&& limits_error(token_limit, cost_limit) is None ==> a == b
            &&& a is Ok ==> final(limited)@[i] == (if mine {
                TaskRowView {
                    goal: Some(
                        GoalTaskView {
                            effective_token_limit: token_limit,
                            effective_cost_limit_usd: cost_limit,
                            ..row.goal->Some_0
                        },
                    ),
                    ..row
                }
            } else {
                row
            })
            &&& b is Ok && !mine ==> final(paused)@[i] == row
            &&& b is Ok && mine ==> {
                &&& final(paused)@[i].task == row.task
                &&& final(paused)@[i].error == row.error
                &&& pause_written(
                    row.goal->Some_0,
                    final(paused)@[i].goal->Some_0,
                    match pause {
                        Some(pause) => Some(pause@),
                        None => None,
                    },
                )
            }
            &&& c is Ok ==> final(continued)@[i] == (if row.task.id@ == task_id@ && row.task.kind == TaskKind::Goal
                && row.goal is Some {
                TaskRowView { continuation: context, ..row }
            } else {
                row
            })
        }),
{
    let row = old(limited)@[i];
    law_what_unguarded_changes_do(
        old(limited)@,
        row,
        task_id,
        token_limit,
        cost_limit,
        match pause {
            Some(pause) => Some(pause@),
            None => None,
        },
        context,
    );
    assert(extends(task_id@)(row) == (row.goal matches Some(goal) && goal.task_id@ == task_id@));
}

// ---------------------------------------------------------------- queries
/// The goal that is read for a session is bound to it, and none is read only if
/// no goal is. In a session of blanks there is none.
pub proof fn law_current_goal_is_of_the_session(store: &TaskStore, session_id: &str, r: Option<TaskRecord>)
    requires
        call_ensures(TaskStore::current_goal_for_session, (store, session_id), r),
    ensures
        blank(session_id@) ==> r is None,
        r matches Some(task) ==> exists|i: int|
            0 <= i < store@.len() && (#[trigger] store@[i]).task == task && task.kind == TaskKind::Goal && (
            task.session_id matches Some(session) && session@ == session_id@),
        !blank(session_id@) && r is None ==> forall|i: int|
            0 <= i < store@.len() ==> !((#[trigger] store@[i]).task.kind == TaskKind::Goal && (
            store@[i].task.session_id matches Some(session) && session@ == session_id@)),
{
    super::meaning::law_goal_of_a_session(store@, session_id@);
}

/// A terminal reason is that of the goal of the session that has ended; without
/// such a goal there is none.
pub proof fn law_terminal_reason_is_read(store: &TaskStore, task_id: &str, session_id: &str, r: Option<Text>)
    requires
        call_ensures(TaskStore::terminal_reason_for_session_goal, (store, task_id, session_id), r),
    ensures
        (exists|i: int|
            0 <= i < store@.len() && is_goal_of(#[trigger] store@[i], task_id@, session_id@) && ended(
                store@[i].task.status,
            ) && store@[i].error == r) || (r is None && forall|i: int|
            0 <= i < store@.len() ==> !(is_goal_of(#[trigger] store@[i], task_id@, session_id@) && ended(
                store@[i].task.status,
            ))),
{
    law_terminal_reason_is_of_an_ended_goal(store@, task_id@, session_id@);
}

proof fn lemma_one_order(a: Seq<char>, b: Seq<char>)
    ensures
        text_before(a, b) ==> !text_before(b, a),
    decreases a.len(),
{
    if a.len() > 0 && b.len() > 0 && a[0] == b[0] {
        lemma_one_order(a.skip(1), b.skip(1));
    }
}

/// The latest active goal of a context, its id, and the latest active goal of
/// an agent are of that agent and that context, and no active goal there
/// started later.
pub proof fn law_latest_goal_is_read(
    store: &TaskStore,
    agent: &str,
    route: Option<&str>,
    principal: Option<&str>,
    of_context: Option<TaskRecord>,
    id: Option<String>,
    of_agent: Option<TaskRecord>,
    i: int,
)
    requires
        call_ensures(TaskStore::latest_active_goal_for_context, (store, agent, route, principal), of_context),
        call_ensures(TaskStore::latest_active_goal_id_for_context, (store, agent, route, principal), id),
        call_ensures(TaskStore::latest_active_goal_for_agent, (store, agent), of_agent),
        0 <= i < store@.len(),
        store@[i].task.kind == TaskKind::Goal,
        !ended(store@[i].task.status),
        store@[i].task.agent@ == agent@,
    ensures
        ({
            let row = store@[i];
            let inside = (route matches Some(wanted) ==> (row.task.originator_route matches Some(has) && has@
                == wanted@)) && (principal matches Some(wanted) ==> (row.task.principal_id matches Some(has) && has@
                == wanted@));
            &&& of_agent matches Some(task) && task.agent@ == agent@ && task.kind == TaskKind::Goal && !ended(
                task.status,
            ) && !text_before(task.started_at@, row.task.started_at@)
            &&& inside ==> (of_context matches Some(task) && task.agent@ == agent@ && task.kind == TaskKind::Goal
                && !ended(task.status) && !text_before(task.started_at@, row.task.started_at@))
            &&& of_context is Some == id is Some
            &&& of_context matches Some(task) ==> id == Some(task.id)
            &&& of_context matches Some(task) ==> (route matches Some(wanted) ==> (
            task.originator_route matches Some(has) && has@ == wanted@)) && (principal matches Some(wanted) ==> (
            task.principal_id matches Some(has) && has@ == wanted@))
        }),
{
    let row = store@[i];
    let words = super::queries::ref_view(route);
    let who = super::queries::ref_view(principal);
    assert(super::queries::active_for(row, agent@, None, None));
    let j = choose|j: int| #[trigger] latest_at(store@, agent@, None, None, j) && of_agent->Some_0 == store@[j].task;
    assert(latest_at(store@, agent@, None, None, j));
    if j != i {
        law_latest_goal_of_a_context(store@, agent@, None, None, j, i);
    }
    lemma_one_order(row.task.started_at@, row.task.started_at@);
    lemma_one_order(row.task.started_at@, store@[j].task.started_at@);
    if of_context is Some {
        let k = choose|k: int|
            #[trigger] latest_at(store@, agent@, words, who, k) && of_context->Some_0 == store@[k].task;
        assert(latest_at(store@, agent@, words, who, k));
        if k != i {
            law_latest_goal_of_a_context(store@, agent@, words, who, k, i);
        }
        lemma_one_order(row.task.started_at@, store@[k].task.started_at@);
        if id is Some {
            let m = choose|m: int| #[trigger] latest_at(store@, agent@, words, who, m) && id->Some_0 == store@[m].task.id;
            if m != k {
                law_latest_goal_of_a_context(store@, agent@, words, who, k, m);
                law_latest_goal_of_a_context(store@, agent@, words, who, m, k);
                lemma_one_order(store@[m].task.started_at@, store@[k].task.started_at@);
            }
        } else {
            super::meaning::law_context_without_a_goal(store@, agent@, words, who, k);
        }
    } else {
        if id is Some {
            let m = choose|m: int| #[trigger] latest_at(store@, agent@, words, who, m) && id->Some_0 == store@[m].task.id;
            super::meaning::law_context_without_a_goal(store@, agent@, words, who, m);
        }
    }
}

/// The extension and the continuation that are read belong to the id that was
/// asked for; what is missing is not there.
pub proof fn law_goal_is_read_by_id(
    store: &TaskStore,
    task_id: String,
    id: &str,
    goal: Option<GoalTaskRecord>,
    context: Result<Option<TaskContinuationContext>, StoreError>,
)
    requires
        id@ == task_id@,
        call_ensures(TaskStore::get_goal_task, (store, id), goal),
        call_ensures(TaskStore::get_continuation_context, (store, task_id), context),
    ensures
        goal matches Some(goal) ==> goal.task_id@ == task_id@ && exists|i: int|
            0 <= i < store@.len() && (#[trigger] store@[i]).goal == Some(goal@),
        goal is None ==> forall|i: int|
            0 <= i < store@.len() ==> ((#[trigger] store@[i]).goal matches Some(goal) ==> goal.task_id@ != task_id@),
        context matches Ok(context) ==> exists|i: int|
            0 <= i < store@.len() && (#[trigger] store@[i]).task.id@ == task_id@ && store@[i].task.kind
                == TaskKind::Goal && store@[i].goal is Some && store@[i].continuation == context,
        context matches Err(error) ==> error == (StoreError::NotAGoal { task_id }) && forall|i: int|
            0 <= i < store@.len() && (#[trigger] store@[i]).task.id@ == task_id@ && store@[i].task.kind
                == TaskKind::Goal ==> store@[i].goal is None,
{
    if context is Ok {
        let i = choose|i: int| #[trigger] goal_row(store@, task_id@, i) && context->Ok_0 == store@[i].continuation;
        assert(store@[i].task.id@ == task_id@);
    } else {
        assert forall|i: int|
            0 <= i < store@.len() && (#[trigger] store@[i]).task.id@ == task_id@ && store@[i].task.kind
                == TaskKind::Goal implies store@[i].goal is None by {
            assert(!goal_row(store@, task_id@, i));
        }
    }
}

// ---------------------------------------------------------------- boots and earlier schemas
/// A boot takes every row by itself, in its place: goals of this daemon, tasks
/// that are no goals, and goals that are paused with all usage known stay as
/// they are; a goal of an earlier daemon does not run on. What is counted is
/// never more than the rows.
pub proof fn law_store_is_booted(store: &mut TaskStore, boot_id: &str, r: u64, i: int)
    requires
        call_ensures(TaskStore::reconcile_goal_boot_state, (store, boot_id), r),
        0 <= i < old(store)@.len(),
    ensures
        final(store)@.len() == old(store)@.len(),
        r == super::boot::boot_count(old(store)@, boot_id@),
        exists|now: String| is_timestamp(now@) && final(store)@[i] == #[trigger] booted(old(store)@[i], boot_id@, now),
        ({
            let row = old(store)@[i];
            let after = final(store)@[i];
            let earlier = row.task.kind == TaskKind::Goal && row.task.session_id is Some && row.task.owner_boot_id@
                != boot_id@;
            &&& after.task.id == row.task.id
            &&& !earlier ==> after == row
            &&& row.task.status == TaskStatus::Paused && (row.goal matches Some(goal) && accounted(goal)) ==> after == row
            &&& earlier ==> after.task.status != TaskStatus::Running
            &&& earlier && row.task.status == TaskStatus::Running && (row.goal matches Some(goal) && accounted(goal))
                && row.task.execution_epoch < i64::MAX ==> after.task.status == TaskStatus::Paused
                && after.task.execution_epoch == row.task.execution_epoch + 1
            &&& ended(row.task.status) ==> after.task == row.task && after.error == row.error
        }),
{
    let now = choose|now: String|
        is_timestamp(now@) && final(store)@ == #[trigger] super::boot::booted_rows(old(store)@, boot_id@, now);
    assert(final(store)@[i] == booted(old(store)@[i], boot_id@, now));
}

/// Goals of earlier schemas are brought under the session rules row by row, in
/// their places.
pub proof fn law_store_is_normalized(store: &mut TaskStore, i: int)
    requires
        call_ensures(TaskStore::normalize_legacy_goals, (store,), ()),
        0 <= i < old(store)@.len(),
    ensures
        final(store)@.len() == old(store)@.len(),
        exists|now: String| is_timestamp(now@) && final(store)@[i] == #[trigger] normalized(old(store)@[i], now),
{
    let now = choose|now: String|
        is_timestamp(now@) && final(store)@ == #[trigger] super::migration::normalized_rows(old(store)@, now);
    assert(final(store)@[i] == normalized(old(store)@[i], now));
}

/// A plan ends with the guard of the objectives, and holds before it what the
/// database lacks: nothing if it is of the latest version or later, and from no
/// version at all every step.
pub proof fn law_schema_is_brought_up_to_date(version: i64, skip: bool, r: Vec<MigrationStep>)
    requires
        call_ensures(migrate_schema, (version, skip), r),
    ensures
        r@.len() > 0,
        r@.last() == MigrationStep::Batch(OBJECTIVE_GUARD, "apply immutable goal objective guard"),
        version >= LATEST_VERSION ==> r@.len() == 1,
        0 <= version ==> r@.drop_last() == steps_between(version as int, LATEST_VERSION as int, skip),
        version < 0 ==> r@.drop_last() == steps_between(0, LATEST_VERSION as int, skip),
{
    let start = super::migration::starting_version(version);
    assert(r@.drop_last() =~= steps_between(start, LATEST_VERSION as int, skip));
}

/// Each version adds what it needs: the columns of limits, of pauses and of
/// outstanding calls come one by one before their version is marked, goals are
/// normalized before the rules on sessions, and the index that a later version
/// supersedes can be left out.
pub proof fn law_what_each_version_adds(skip: bool)
    ensures
        version_steps(1, skip) == seq![MigrationStep::Batch(SCHEMA_V1, "apply control-plane schema v1")],
        ({
            let steps = version_steps(2, skip);
            &&& steps.len() == 3
            &&& steps[0] matches MigrationStep::AddColumn(name, _) && name == "effective_token_limit"
            &&& steps[1] matches MigrationStep::AddColumn(name, _) && name == "effective_cost_limit_usd"
            &&& steps[2] matches MigrationStep::Batch(batch, _) && batch == SCHEMA_V2
        }),
        ({
            let steps = version_steps(3, skip);
            &&& steps.len() == 4
            &&& steps[0] matches MigrationStep::AddColumn(name, _) && name == "pause_reason"
            &&& steps[1] matches MigrationStep::AddColumn(name, _) && name == "pause_description"
            &&& steps[2] matches MigrationStep::AddColumn(name, _) && name == "blockers_json"
            &&& steps[3] matches MigrationStep::Batch(batch, _) && batch == SCHEMA_V3
        }),
        skip ==> version_steps(4, skip).len() == 0,
        !skip ==> version_steps(4, skip) == seq![MigrationStep::Batch(SCHEMA_V4, "apply control-plane schema v4")],
        version_steps(5, skip) == seq![MigrationStep::Batch(SCHEMA_V5, "apply control-plane schema v5")],
        version_steps(6, skip) == seq![MigrationStep::Batch(SCHEMA_V6, "apply control-plane schema v6")],
        version_steps(7, skip) == seq![MigrationStep::Batch(SCHEMA_V7, "apply control-plane schema v7")],
        ({
            let steps = version_steps(8, skip);
            &&& steps.len() == 5
            &&& steps[0] matches MigrationStep::AddColumn(name, _) && name == "pending_call_id"
            &&& steps[1] matches MigrationStep::AddColumn(name, _) && name == "pending_call_epoch"
            &&& steps[2] matches MigrationStep::AddColumn(name, _) && name == "accounting_state"
            &&& steps[3] is NormalizeLegacyGoals
            &&& steps[4] matches MigrationStep::Batch(batch, _) && batch == SCHEMA_V8
        }),
        forall|from: int, to: int| #[trigger]
            steps_between(from, to, skip) == (if from >= to {
                Seq::<MigrationStep>::empty()
            } else {
                steps_between(from, to - 1, skip) + version_steps(to, skip)
            }),
{
}

/// What is written to a row and read back is the record, but for its tool
/// batch, which has no column. A record is refused exactly where its limits
/// cannot be stored.
pub proof fn law_record_is_kept(
    record: GoalTaskRecord,
    row: Result<StoredGoal, StoreError>,
    back: Result<GoalTaskRecord, RowError>,
)
    requires
        call_ensures(goal_task_to_row, (record,), row),
        row is Ok ==> call_ensures(row_to_goal_task, (row->Ok_0,), back),
    ensures
        match limits_error(record.effective_token_limit, record.effective_cost_limit_usd) {
            Some(error) => row == Err::<StoredGoal, StoreError>(error),
            None => row is Ok && (back matches Ok(back) && back@ == (GoalTaskView {
                pending_tool_batch_id: None,
                pending_tool_epoch: None,
                ..record@
            })),
        },
{
    if row is Ok {
        law_stored_goal_reads_back(row->Ok_0, record@);
    }
}

/// Valid tables: no id, no session of a goal and no outstanding call occurs
/// twice; an extension belongs to the goal with its id, has limits that can be
/// stored, and a call with its epoch or neither; only goals have a place to go
/// on.
pub proof fn law_what_valid_tables_hold(rows: Seq<TaskRowView>, i: int, j: int)
    requires
        valid(rows),
        0 <= i < j < rows.len(),
    ensures
        rows[i].task.id@ != rows[j].task.id@,
        rows[i].task.kind == TaskKind::Goal && rows[j].task.kind == TaskKind::Goal && rows[i].task.session_id is Some
            && rows[j].task.session_id is Some ==> rows[i].task.session_id->Some_0@ != rows[j].task.session_id->Some_0@,
        (rows[i].goal matches Some(one) && (rows[j].goal matches Some(other) && one.pending_call_id is Some
            && other.pending_call_id is Some)) ==> rows[i].goal->Some_0.pending_call_id->Some_0@
            != rows[j].goal->Some_0.pending_call_id->Some_0@,
        rows[i].goal is None ==> rows[i].continuation is None,
        rows[i].goal matches Some(goal) ==> {
            &&& rows[i].task.kind == TaskKind::Goal
            &&& goal.task_id@ == rows[i].task.id@
            &&& limits_error(goal.effective_token_limit, goal.effective_cost_limit_usd) is None
            &&& match (goal.pending_call_id, goal.pending_call_epoch) {
                (None, None) => true,
                (Some(id), Some(epoch)) => !store_blank(id@) && epoch >= 1,
                _ => false,
            }
        },
{
    if rows[i].goal is Some && rows[j].goal is Some {
        assert(super::pending_call(rows[i]) is Some ==> super::pending_call(rows[i]) != super::pending_call(rows[j]));
    }
    assert(super::goal_session(rows[i]) is Some ==> super::goal_session(rows[i]) != super::goal_session(rows[j]));
    assert(super::row_valid(rows[i]));
}

} // verus!
