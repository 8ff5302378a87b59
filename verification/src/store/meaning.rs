//! What each operation does to the rows: which it picks, what it changes of
//! them, and what it answers.
use vstd::prelude::*;
#[allow(unused_imports)]
use vstd::string::*;

use super::boot::{boot_count, booted, booted_rows};
use super::error::StoreError;
use super::legacy::{continuation_error, continued, extends, goal_with_id, legacy_error, legacy_limits_error, repaused};
use super::limits::limits_error;
use super::migration::{normalized, normalized_rows};
use super::queries::{active_for, has_goal_row, latest_at, none_active, terminal_row};
use super::session::{
    active_at, admissible, admit_outcome, admitted, awaiting, create_outcome, created, deletable, finish_outcome,
    finish_rows, limitable, limited, new_goal_error, pausable, paused, resumable, resumed, session_limits_outcome,
    session_limits_rows, session_occupant, session_position, settled, vacated, with_id, without,
};
use super::{store_blank, transition_outcome, updated, valid, TaskRowView};
use crate::goal_task::{
    GoalAccountingState, GoalBlocker, GoalPauseReason, GoalPauseView, GoalTaskView, GoalTransitionResult,
    TaskContinuationContext,
};
use crate::message::Text;
use crate::task::{TaskKind, TaskRecord, TaskStatus};
use crate::text::{blank, text_before};
use crate::usd::Usd;

verus! {

/// The row is the goal with that id in that session.
pub open spec fn is_goal_of(row: TaskRowView, task_id: Seq<char>, session_id: Seq<char>) -> bool {
    &&& row.task.id@ == task_id
    &&& row.task.kind == TaskKind::Goal
    &&& row.task.session_id matches Some(session) && session@ == session_id
}

/// Nothing is outstanding for the goal.
pub open spec fn at_rest(goal: GoalTaskView) -> bool {
    goal.pending_call_id is None && goal.pending_call_epoch is None
}

/// Nothing is outstanding, and all usage is known.
pub open spec fn accounted(goal: GoalTaskView) -> bool {
    at_rest(goal) && goal.accounting_state == GoalAccountingState::Complete
}

pub open spec fn ended(status: TaskStatus) -> bool {
    status != TaskStatus::Running && status != TaskStatus::Paused
}

/// The epoch after an epoch; the last one stays.
pub open spec fn epoch_after(epoch: i64) -> int {
    if epoch == i64::MAX {
        i64::MAX as int
    } else {
        epoch + 1
    }
}

/// A time that was recorded stays; otherwise it is now.
pub open spec fn recorded(at: Option<String>, now: String) -> Option<String> {
    if at is Some {
        at
    } else {
        Some(now)
    }
}

/// The extension with a pause in place of the one it had.
pub open spec fn pause_written(goal: GoalTaskView, after: GoalTaskView, pause: Option<GoalPauseView>) -> bool {
    &&& after == (GoalTaskView {
        pause_reason: after.pause_reason,
        pause_description: after.pause_description,
        blockers: after.blockers,
        ..goal
    })
    &&& match pause {
        Some(pause) => after.pause_reason == Some(pause.reason) && after.pause_description == pause.description
            && after.blockers == pause.blockers,
        None => after.pause_reason is None && after.pause_description is None && after.blockers.len() == 0,
    }
}

/// A guarded transition answers that it was applied where it picks a row, and
/// otherwise whether a row with the id is there.
pub open spec fn answers(
    rows: Seq<TaskRowView>,
    guard: spec_fn(TaskRowView) -> bool,
    task_id: Seq<char>,
    answer: GoalTransitionResult,
) -> bool {
    match answer {
        GoalTransitionResult::Applied => exists|i: int| 0 <= i < rows.len() && guard(#[trigger] rows[i]),
        GoalTransitionResult::Stale => (forall|i: int| 0 <= i < rows.len() ==> !guard(#[trigger] rows[i])) && exists|
            i: int,
        |
            0 <= i < rows.len() && (#[trigger] rows[i]).task.id@ == task_id,
        GoalTransitionResult::Missing => forall|i: int|
            0 <= i < rows.len() ==> !guard(#[trigger] rows[i]) && rows[i].task.id@ != task_id,
    }
}

/// The answer to a guarded transition says whether it was applied, and if not
/// whether its goal is there.
pub proof fn law_transition_is_answered(
    rows: Seq<TaskRowView>,
    guard: spec_fn(TaskRowView) -> bool,
    task_id: Seq<char>,
)
    ensures
        answers(rows, guard, task_id, transition_outcome(rows, guard, task_id)),
{
}

/// A change touches exactly the rows that it picks, and leaves all rows where
/// they are.
pub proof fn law_change_touches_what_it_picks(
    rows: Seq<TaskRowView>,
    guard: spec_fn(TaskRowView) -> bool,
    step: spec_fn(TaskRowView) -> TaskRowView,
    i: int,
)
    requires
        0 <= i < rows.len(),
    ensures
        updated(rows, guard, step).len() == rows.len(),
        guard(rows[i]) ==> updated(rows, guard, step)[i] == step(rows[i]),
        !guard(rows[i]) ==> updated(rows, guard, step)[i] == rows[i],
{
}

// ---------------------------------------------------------------- transitions
/// A pause picks the running goal of the session at the epoch, if an epoch is
/// left. The goal is paused as it was asked for, at the next epoch, without a
/// finish time or a terminal reason; nothing else of it changes.
pub proof fn law_what_a_pause_does(
    row: TaskRowView,
    task_id: Seq<char>,
    session_id: Seq<char>,
    epoch: i64,
    pause: GoalPauseView,
)
    ensures
        pausable(task_id, session_id, epoch)(row) == (is_goal_of(row, task_id, session_id) && row.task.status
            == TaskStatus::Running && row.task.execution_epoch == epoch && epoch != i64::MAX),
        ({
            let after = paused(pause)(row);
            &&& after.task == (TaskRecord {
                status: TaskStatus::Paused,
                finished_at: None,
                execution_epoch: after.task.execution_epoch,
                ..row.task
            })
            &&& after.task.execution_epoch == epoch_after(row.task.execution_epoch)
            &&& after.error is None
            &&& after.continuation == row.continuation
            &&& after.goal is Some == row.goal is Some
            &&& row.goal matches Some(goal) ==> pause_written(goal, after.goal->Some_0, Some(pause))
        }),
{
}

/// A resume picks the paused goal of the session at the epoch, if an epoch is
/// left, nothing is outstanding and all usage is known. The goal runs under its
/// new owner at the next epoch, without a heartbeat and without a pause;
/// nothing else of it changes.
pub proof fn law_what_a_resume_does(
    row: TaskRowView,
    task_id: Seq<char>,
    session_id: Seq<char>,
    epoch: i64,
    owner_pid: u32,
    owner_boot_id: String,
)
    ensures
        resumable(task_id, session_id, epoch)(row) == (is_goal_of(row, task_id, session_id) && row.task.status
            == TaskStatus::Paused && row.task.execution_epoch == epoch && epoch != i64::MAX && (
        row.goal matches Some(goal) && accounted(goal))),
        ({
            let after = resumed(owner_pid, owner_boot_id)(row);
            &&& after.task == (TaskRecord {
                status: TaskStatus::Running,
                execution_epoch: after.task.execution_epoch,
                owner_pid,
                owner_boot_id,
                heartbeat_at: None,
                ..row.task
            })
            &&& after.task.execution_epoch == epoch_after(row.task.execution_epoch)
            &&& after.error == row.error
            &&& after.continuation == row.continuation
            &&& after.goal is Some == row.goal is Some
            &&& row.goal matches Some(goal) ==> pause_written(goal, after.goal->Some_0, None)
        }),
{
}

/// An end picks the running or paused goal of the session at the epoch, and is
/// refused for a status that is no end. The goal has the status and the reason
/// that it was given, at the next epoch; a finish time that was recorded stays,
/// and its extension does too.
pub proof fn law_what_an_end_does(
    rows: Seq<TaskRowView>,
    task_id: Seq<char>,
    session_id: Seq<char>,
    epoch: i64,
    status: TaskStatus,
    error: Option<Text>,
    now: String,
    i: int,
)
    requires
        0 <= i < rows.len(),
    ensures
        ({
            let next = finish_rows(rows, task_id, session_id, epoch, status, error, now);
            let hit = is_goal_of(rows[i], task_id, session_id) && !ended(rows[i].task.status)
                && rows[i].task.execution_epoch == epoch;
            &&& next.len() == rows.len()
            &&& !ended(status) ==> next == rows && finish_outcome(rows, task_id, session_id, epoch, status) == Err::<
                GoalTransitionResult,
                StoreError,
            >(StoreError::NotTerminal)
            &&& ended(status) ==> (finish_outcome(rows, task_id, session_id, epoch, status) matches Ok(answer) && answers(
                rows,
                active_at(task_id, session_id, epoch),
                task_id,
                answer,
            ))
            &&& active_at(task_id, session_id, epoch)(rows[i]) == hit
            &&& !hit ==> next[i] == rows[i]
            &&& hit && ended(status) ==> {
                &&& next[i].task == (TaskRecord {
                    status,
                    finished_at: recorded(rows[i].task.finished_at, now),
                    execution_epoch: next[i].task.execution_epoch,
                    ..rows[i].task
                })
                &&& next[i].task.execution_epoch == epoch_after(rows[i].task.execution_epoch)
                &&& next[i].error == error
                &&& next[i].goal == rows[i].goal
                &&& next[i].continuation == rows[i].continuation
            }
        }),
{
}

/// A call is recorded for the running goal of the session at the epoch, if
/// nothing is outstanding and all usage is known; its id has to say something
/// and must not be outstanding anywhere. Nothing else of the goal changes.
#[verifier::spinoff_prover]
pub proof fn law_what_a_call_does(
    rows: Seq<TaskRowView>,
    row: TaskRowView,
    task_id: Seq<char>,
    session_id: Seq<char>,
    epoch: i64,
    call_id: String,
)
    ensures
        admissible(task_id, session_id, epoch)(row) == (is_goal_of(row, task_id, session_id) && row.task.status
            == TaskStatus::Running && row.task.execution_epoch == epoch && (row.goal matches Some(goal) && accounted(
            goal,
        ))),
        ({
            let after = admitted(call_id, epoch)(row);
            &&& after == (TaskRowView { goal: after.goal, ..row })
            &&& match row.goal {
                None => after.goal is None,
                Some(goal) => after.goal == Some(
                    GoalTaskView { pending_call_id: Some(call_id), pending_call_epoch: Some(epoch), ..goal },
                ),
            }
        }),
        ({
            let answer = admit_outcome(rows, task_id, session_id, epoch, call_id@);
            let picks = exists|i: int| 0 <= i < rows.len() && admissible(task_id, session_id, epoch)(#[trigger] rows[i]);
            let taken = exists|i: int|
                0 <= i < rows.len() && ((#[trigger] rows[i]).goal matches Some(goal) && (
                goal.pending_call_id matches Some(other) && other@ == call_id@));
            if blank(call_id@) {
                answer == Err::<GoalTransitionResult, StoreError>(StoreError::BlankCallId)
            } else if !picks {
                answer matches Ok(result) && !(result is Applied) && answers(
                    rows,
                    admissible(task_id, session_id, epoch),
                    task_id,
                    result,
                )
            } else if store_blank(call_id@) || epoch < 1 {
                answer == Err::<GoalTransitionResult, StoreError>(StoreError::PendingPairInvalid)
            } else if taken {
                answer == Err::<GoalTransitionResult, StoreError>(StoreError::PendingCallTaken)
            } else {
                answer == Ok::<GoalTransitionResult, StoreError>(GoalTransitionResult::Applied)
            }
        }),
{
}

/// Settling picks the goal of the session that has exactly that call
/// outstanding since that epoch, whatever became of it since. Nothing is
/// outstanding then, and its accounting is what was found.
pub proof fn law_what_settling_does(
    row: TaskRowView,
    task_id: Seq<char>,
    session_id: Seq<char>,
    epoch: i64,
    call_id: Seq<char>,
    state: GoalAccountingState,
)
    ensures
        awaiting(task_id, session_id, epoch, call_id)(row) == (is_goal_of(row, task_id, session_id) && (
        row.goal matches Some(goal) && (goal.pending_call_id matches Some(id) && id@ == call_id)
            && goal.pending_call_epoch == Some(epoch))),
        ({
            let after = settled(state)(row);
            &&& after == (TaskRowView { goal: after.goal, ..row })
            &&& match row.goal {
                None => after.goal is None,
                Some(goal) => after.goal == Some(
                    GoalTaskView {
                        pending_call_id: None,
                        pending_call_epoch: None,
                        accounting_state: state,
                        ..goal
                    },
                ),
            }
        }),
{
}

/// New limits are for the running or paused goal of the session at the epoch
/// that has an extension; limits that cannot be stored are refused and change
/// nothing. Nothing but the two limits changes.
pub proof fn law_what_new_limits_do(
    rows: Seq<TaskRowView>,
    task_id: Seq<char>,
    session_id: Seq<char>,
    epoch: i64,
    token_limit: Option<u64>,
    cost_limit: Option<Usd>,
    i: int,
)
    requires
        0 <= i < rows.len(),
    ensures
        ({
            let next = session_limits_rows(rows, task_id, session_id, epoch, token_limit, cost_limit);
            let answer = session_limits_outcome(rows, task_id, session_id, epoch, token_limit, cost_limit);
            let hit = is_goal_of(rows[i], task_id, session_id) && !ended(rows[i].task.status)
                && rows[i].task.execution_epoch == epoch && rows[i].goal is Some;
            &&& limitable(task_id, session_id, epoch)(rows[i]) == hit
            &&& next.len() == rows.len()
            &&& match limits_error(token_limit, cost_limit) {
                Some(error) => next == rows && answer == Err::<GoalTransitionResult, StoreError>(error),
                None => {
                    &&& answer matches Ok(result) && answers(
                        rows,
                        limitable(task_id, session_id, epoch),
                        task_id,
                        result,
                    )
                    &&& !hit ==> next[i] == rows[i]
                    &&& hit ==> next[i] == (TaskRowView {
                        goal: Some(
                            GoalTaskView {
                                effective_token_limit: token_limit,
                                effective_cost_limit_usd: cost_limit,
                                ..rows[i].goal->Some_0
                            },
                        ),
                        ..rows[i]
                    })
                },
            }
        }),
{
}

/// Limits that can be stored: tokens that a signed number holds, and a finite
/// amount that is not below zero. Tokens are looked at first.
pub proof fn law_which_limits_are_stored(token_limit: Option<u64>, cost_limit: Option<Usd>)
    ensures
        limits_error(token_limit, cost_limit) == (if token_limit is Some && token_limit->Some_0
            > 0x7fff_ffff_ffff_ffffu64 {
            Some(StoreError::TokenLimitOutOfRange { value: token_limit->Some_0 })
        } else if cost_limit is Some && !(cost_limit->Some_0.finite() && cost_limit->Some_0.rank() >= 0) {
            Some(StoreError::CostLimitInvalid)
        } else {
            None
        }),
{
}

/// A deletion takes exactly the finished goal of the session at the epoch with
/// nothing outstanding; all other rows stay, in their order.
pub proof fn law_what_a_deletion_does(
    front: Seq<TaskRowView>,
    row: TaskRowView,
    task_id: Seq<char>,
    session_id: Seq<char>,
    epoch: i64,
)
    ensures
        ({
            let guard = deletable(task_id, session_id, epoch);
            let hit = is_goal_of(row, task_id, session_id) && ended(row.task.status) && row.task.execution_epoch
                == epoch && (row.goal matches Some(goal) ==> at_rest(goal));
            &&& guard(row) == hit
            &&& without(Seq::<TaskRowView>::empty(), guard) == Seq::<TaskRowView>::empty()
            &&& without(front.push(row), guard) == (if hit {
                without(front, guard)
            } else {
                without(front, guard).push(row)
            })
        }),
{
    reveal(Seq::filter);
    assert(front.push(row).drop_last() =~= front);
    let guard = deletable(task_id, session_id, epoch);
    assert(without(Seq::<TaskRowView>::empty(), guard) =~= Seq::<TaskRowView>::empty());
}

// ---------------------------------------------------------------- sessions
proof fn lemma_session_position(rows: Seq<TaskRowView>, session_id: Seq<char>, from: int)
    requires
        0 <= from <= rows.len(),
    ensures
        ({
            let at = session_position(rows, session_id, from);
            &&& from <= at <= rows.len()
            &&& at < rows.len() ==> rows[at].task.kind == TaskKind::Goal && (
            rows[at].task.session_id matches Some(session) && session@ == session_id)
            &&& forall|i: int|
                from <= i < at ==> !((#[trigger] rows[i]).task.kind == TaskKind::Goal && (
                rows[i].task.session_id matches Some(session) && session@ == session_id))
        }),
    decreases rows.len() - from,
{
    if from < rows.len() {
        lemma_session_position(rows, session_id, from + 1);
    }
}

/// The goal of a session is the first goal that is bound to it; in valid tables
/// it is the only one. A session that no goal is bound to has none.
pub proof fn law_goal_of_a_session(rows: Seq<TaskRowView>, session_id: Seq<char>)
    ensures
        match session_occupant(rows, session_id) {
            Some(row) => exists|i: int|
                0 <= i < rows.len() && #[trigger] rows[i] == row && row.task.kind == TaskKind::Goal && (
                row.task.session_id matches Some(session) && session@ == session_id) && forall|j: int|
                    0 <= j < rows.len() && (j < i || (valid(rows) && j != i)) ==> !((#[trigger] rows[j]).task.kind
                        == TaskKind::Goal && (rows[j].task.session_id matches Some(session) && session@
                        == session_id)),
            None => forall|i: int|
                0 <= i < rows.len() ==> !((#[trigger] rows[i]).task.kind == TaskKind::Goal && (
                rows[i].task.session_id matches Some(session) && session@ == session_id)),
        },
{
    lemma_session_position(rows, session_id, 0);
    let at = session_position(rows, session_id, 0);
    if at < rows.len() {
        assert forall|j: int| 0 <= j < rows.len() && (j < at || (valid(rows) && j != at)) implies !((
        #[trigger] rows[j]).task.kind == TaskKind::Goal && (rows[j].task.session_id matches Some(session) && session@
            == session_id)) by {
            if j > at {
                assert(super::goal_session(rows[at]) != super::goal_session(rows[j]));
            }
        }
        assert(rows[at] == session_occupant(rows, session_id)->Some_0);
    }
}

/// A new goal of a session: a running goal task with its own extension, in a
/// session, without a finish time, with an objective, nothing outstanding and
/// all usage known. What is wrong is named in this order.
pub proof fn law_which_goals_can_start(task: TaskRecord, goal: GoalTaskView)
    ensures
        ({
            let whole = task.kind == TaskKind::Goal;
            let paired = task.id@ == goal.task_id@;
            let bound = task.session_id matches Some(session) && !blank(session@);
            let fresh = task.status == TaskStatus::Running && task.finished_at is None;
            let aimed = !blank(goal.objective@);
            &&& new_goal_error(task, goal) is None <==> whole && paired && bound && fresh && aimed && accounted(goal)
            &&& !whole ==> new_goal_error(task, goal) == Some(StoreError::NotGoalKind { task_id: task.id })
            &&& whole && !paired ==> new_goal_error(task, goal) == Some(
                StoreError::IdMismatch { task_id: task.id, goal_task_id: goal.task_id },
            )
            &&& whole && paired && !bound ==> new_goal_error(task, goal) == Some(StoreError::SessionRequired)
            &&& whole && paired && bound && !fresh ==> new_goal_error(task, goal) == Some(StoreError::NotFresh)
            &&& whole && paired && bound && fresh && !aimed ==> new_goal_error(task, goal) == Some(
                StoreError::ObjectiveRequired,
            )
            &&& whole && paired && bound && fresh && aimed && !accounted(goal) ==> new_goal_error(task, goal) == Some(
                StoreError::PendingOrIncomplete,
            )
        }),
{
}

/// A goal is created in a session that is free, or whose goal has ended with
/// nothing outstanding; then that goal makes room, everything else stays, and
/// the new goal comes last, at its first epoch and without a terminal reason.
#[verifier::spinoff_prover]
pub proof fn law_what_a_creation_does(rows: Seq<TaskRowView>, task: TaskRecord, goal: GoalTaskView)
    requires
        new_goal_error(task, goal) is None,
    ensures
        ({
            let session = task.session_id->Some_0@;
            let answer = create_outcome(rows, task, goal);
            let occupied = session_occupant(rows, session) matches Some(row) && !(ended(row.task.status) && (
            row.goal matches Some(goal) ==> at_rest(goal)));
            let known = exists|i: int| 0 <= i < rows.len() && (#[trigger] rows[i]).task.id@ == task.id@;
            let next = created(rows, task, goal);
            &&& known ==> answer == Err::<GoalTransitionResult, StoreError>(StoreError::IdExists)
            &&& !known && occupied ==> answer == Ok::<GoalTransitionResult, StoreError>(GoalTransitionResult::Stale)
            &&& !known && !occupied && store_blank(session) ==> answer == Err::<GoalTransitionResult, StoreError>(
                StoreError::SessionBlankInTables,
            )
            &&& !known && !occupied && !store_blank(session) ==> match limits_error(
                goal.effective_token_limit,
                goal.effective_cost_limit_usd,
            ) {
                Some(error) => answer == Err::<GoalTransitionResult, StoreError>(error),
                None => answer == Ok::<GoalTransitionResult, StoreError>(GoalTransitionResult::Applied),
            }
            &&& next.len() > 0
            &&& next.last().task == (TaskRecord { execution_epoch: 1, ..task })
            &&& next.last().error is None
            &&& next.last().continuation is None
            &&& next.last().goal == Some(
                GoalTaskView { pending_tool_batch_id: None, pending_tool_epoch: None, ..goal },
            )
            &&& next.drop_last() == match session_occupant(rows, session) {
                Some(row) => without(rows, |other: TaskRowView| other.task.id@ == row.task.id@),
                None => rows,
            }
        }),
{
    let session = task.session_id->Some_0@;
    assert(created(rows, task, goal).drop_last() =~= vacated(rows, session));
    match session_occupant(rows, session) {
        Some(row) => {
            let guard = |other: TaskRowView| other.task.id@ == row.task.id@;
            assert(guard =~= with_id(row.task.id@));
        },
        None => {},
    }
}

proof fn lemma_terminal_row(rows: Seq<TaskRowView>, task_id: Seq<char>, session_id: Seq<char>, from: int)
    requires
        0 <= from <= rows.len(),
    ensures
        match terminal_row(rows, task_id, session_id, from) {
            Some(row) => exists|i: int|
                from <= i < rows.len() && #[trigger] rows[i] == row && is_goal_of(row, task_id, session_id) && ended(
                    row.task.status,
                ),
            None => forall|i: int|
                from <= i < rows.len() ==> !(is_goal_of(#[trigger] rows[i], task_id, session_id) && ended(
                    rows[i].task.status,
                )),
        },
    decreases rows.len() - from,
{
    if from < rows.len() {
        lemma_terminal_row(rows, task_id, session_id, from + 1);
        if is_goal_of(rows[from], task_id, session_id) && ended(rows[from].task.status) {
            assert(terminal_row(rows, task_id, session_id, from) == Some(rows[from]));
        }
    }
}

/// The reason of an end is read from the goal of the session that has ended,
/// and from no other.
pub proof fn law_terminal_reason_is_of_an_ended_goal(rows: Seq<TaskRowView>, task_id: Seq<char>, session_id: Seq<char>)
    ensures
        match terminal_row(rows, task_id, session_id, 0) {
            Some(row) => exists|i: int|
                0 <= i < rows.len() && #[trigger] rows[i] == row && is_goal_of(row, task_id, session_id) && ended(
                    row.task.status,
                ),
            None => forall|i: int|
                0 <= i < rows.len() ==> !(is_goal_of(#[trigger] rows[i], task_id, session_id) && ended(
                    rows[i].task.status,
                )),
        },
{
    lemma_terminal_row(rows, task_id, session_id, 0);
}

// ---------------------------------------------------------------- contexts
/// A goal is in a context if it is a running or paused goal of the agent and
/// has the route and the principal that were asked for; what was not asked for
/// does not count. The latest is the one that started last, and among those
/// that started together the one that came last.
pub proof fn law_latest_goal_of_a_context(
    rows: Seq<TaskRowView>,
    agent: Seq<char>,
    route: Option<Seq<char>>,
    principal: Option<Seq<char>>,
    at: int,
    i: int,
)
    requires
        latest_at(rows, agent, route, principal, at),
        0 <= i < rows.len(),
        i != at,
    ensures
        ({
            let row = rows[at];
            &&& row.task.kind == TaskKind::Goal
            &&& !ended(row.task.status)
            &&& row.task.agent@ == agent
            &&& route matches Some(wanted) ==> (row.task.originator_route matches Some(has) && has@ == wanted)
            &&& principal matches Some(wanted) ==> (row.task.principal_id matches Some(has) && has@ == wanted)
        }),
        ({
            let other = rows[i];
            other.task.kind == TaskKind::Goal && !ended(other.task.status) && other.task.agent@ == agent && (
            route matches Some(wanted) ==> (other.task.originator_route matches Some(has) && has@ == wanted)) && (
            principal matches Some(wanted) ==> (other.task.principal_id matches Some(has) && has@ == wanted))
                ==> text_before(other.task.started_at@, rows[at].task.started_at@) || (other.task.started_at@
                == rows[at].task.started_at@ && i < at)
        }),
{
    assert(active_for(rows[i], agent, route, principal) ==> super::queries::older(rows, i, at));
}

/// A context without an active goal is one that no row is in.
pub proof fn law_context_without_a_goal(
    rows: Seq<TaskRowView>,
    agent: Seq<char>,
    route: Option<Seq<char>>,
    principal: Option<Seq<char>>,
    i: int,
)
    requires
        none_active(rows, agent, route, principal),
        0 <= i < rows.len(),
        rows[i].task.kind == TaskKind::Goal,
        rows[i].task.agent@ == agent,
        !ended(rows[i].task.status),
    ensures
        (route matches Some(wanted) && !(rows[i].task.originator_route matches Some(has) && has@ == wanted)) || (
        principal matches Some(wanted) && !(rows[i].task.principal_id matches Some(has) && has@ == wanted)),
{
    assert(!active_for(rows[i], agent, route, principal));
}

// ---------------------------------------------------------------- boots
/// A goal of an earlier daemon, in a session.
pub open spec fn of_an_earlier_daemon(row: TaskRowView, boot_id: Seq<char>) -> bool {
    row.task.kind == TaskKind::Goal && row.task.session_id is Some && row.task.owner_boot_id@ != boot_id
}

/// The extension after a boot, but for its pause: an outstanding call is
/// cleared and its outcome is unknown.
pub open spec fn fenced(goal: GoalTaskView) -> GoalTaskView {
    if at_rest(goal) {
        goal
    } else {
        GoalTaskView {
            pending_call_id: None,
            pending_call_epoch: None,
            accounting_state: GoalAccountingState::OutcomeUnknown,
            ..goal
        }
    }
}

/// The row failed at boot for a reason.
pub open spec fn failed_at_boot(
    row: TaskRowView,
    after: TaskRowView,
    reason: &'static str,
    epoch: int,
    now: String,
) -> bool {
    &&& after.task == (TaskRecord {
        status: TaskStatus::Failed,
        finished_at: recorded(row.task.finished_at, now),
        execution_epoch: after.task.execution_epoch,
        ..row.task
    })
    &&& after.task.execution_epoch == epoch
    &&& after.error == Some(Text::Fixed(reason))
    &&& after.continuation == row.continuation
    &&& after.goal == match row.goal {
        Some(goal) => Some(fenced(goal)),
        None => None,
    }
}

/// A boot leaves alone every row that is not a goal of an earlier daemon in a
/// session, and every goal that is paused with nothing outstanding and all
/// usage known: its pause, its reason, its blockers and its epoch stay.
pub proof fn law_boot_leaves_resting_goals_alone(row: TaskRowView, boot_id: Seq<char>, now: String)
    requires
        !of_an_earlier_daemon(row, boot_id) || (row.goal matches Some(goal) && at_rest(goal) && (ended(row.task.status)
            || (row.task.status == TaskStatus::Paused && goal.accounting_state == GoalAccountingState::Complete))),
    ensures
        booted(row, boot_id, now) == row,
{
}

/// A goal that ran with nothing outstanding is paused at the next epoch, and
/// says that the daemon restarted; without another epoch it fails.
pub proof fn law_boot_pauses_running_goals(row: TaskRowView, boot_id: Seq<char>, now: String)
    requires
        of_an_earlier_daemon(row, boot_id),
        row.task.status == TaskStatus::Running,
        row.goal is Some,
        accounted(row.goal->Some_0),
    ensures
        ({
            let after = booted(row, boot_id, now);
            if row.task.execution_epoch == i64::MAX {
                failed_at_boot(row, after, "goal_epoch_exhausted", i64::MAX as int, now)
            } else {
                &&& after.task == (TaskRecord {
                    status: TaskStatus::Paused,
                    execution_epoch: after.task.execution_epoch,
                    ..row.task
                })
                &&& after.task.execution_epoch == row.task.execution_epoch + 1
                &&& after.error == row.error
                &&& after.continuation == row.continuation
                &&& after.goal == Some(
                    GoalTaskView {
                        pause_reason: Some(GoalPauseReason::DaemonRestart),
                        pause_description: Some(Text::Fixed("daemon restart")),
                        blockers: Seq::<GoalBlocker>::empty(),
                        ..row.goal->Some_0
                    },
                )
            }
        }),
{
}

/// A running or paused goal that has a call outstanding, or whose usage is not
/// fully known, fails, and so does one without its extension. A goal that has
/// ended stays ended, without an outstanding call.
pub proof fn law_boot_fails_unaccounted_goals(row: TaskRowView, boot_id: Seq<char>, now: String)
    requires
        of_an_earlier_daemon(row, boot_id),
    ensures
        ({
            let after = booted(row, boot_id, now);
            &&& !ended(row.task.status) && row.goal is None ==> failed_at_boot(
                row,
                after,
                "goal_control_state_missing",
                epoch_after(row.task.execution_epoch),
                now,
            )
            &&& !ended(row.task.status) && (row.goal matches Some(goal) && !accounted(goal)) ==> failed_at_boot(
                row,
                after,
                "accounting_outcome_unknown",
                epoch_after(row.task.execution_epoch),
                now,
            )
            &&& ended(row.task.status) ==> after == (TaskRowView {
                goal: match row.goal {
                    Some(goal) => Some(fenced(goal)),
                    None => None,
                },
                ..row
            })
        }),
{
}

/// A boot counts exactly the rows whose status it changes, and leaves every row
/// where it is.
pub proof fn law_boot_counts_what_it_changes(
    front: Seq<TaskRowView>,
    row: TaskRowView,
    boot_id: Seq<char>,
    now: String,
)
    ensures
        boot_count(Seq::<TaskRowView>::empty(), boot_id) == 0,
        boot_count(front.push(row), boot_id) == boot_count(front, boot_id) + if booted(row, boot_id, now).task.status
            == row.task.status {
            0nat
        } else {
            1nat
        },
        booted_rows(front.push(row), boot_id, now) == booted_rows(front, boot_id, now).push(booted(row, boot_id, now)),
        booted_rows(Seq::<TaskRowView>::empty(), boot_id, now) == Seq::<TaskRowView>::empty(),
{
    assert(front.push(row).drop_last() =~= front);
    assert(booted_rows(front.push(row), boot_id, now) =~= booted_rows(front, boot_id, now).push(
        booted(row, boot_id, now),
    ));
    assert(booted_rows(Seq::<TaskRowView>::empty(), boot_id, now) =~= Seq::<TaskRowView>::empty());
}

// ---------------------------------------------------------------- migration
/// Normalization leaves alone what is no goal, and of a goal everything but a
/// blank session, its status, its reason and its finish time. A running or
/// paused goal that is left without a session or an objective fails, and says
/// which; a reason and a finish time that were recorded stay.
pub proof fn law_what_normalization_does(row: TaskRowView, now: String)
    ensures
        ({
            let after = normalized(row, now);
            let unbound = row.task.session_id is None || store_blank(row.task.session_id->Some_0@);
            let aimless = !(row.goal matches Some(goal) && !store_blank(goal.objective@));
            let fails = row.task.kind == TaskKind::Goal && !ended(row.task.status) && (unbound || aimless);
            &&& row.task.kind != TaskKind::Goal ==> after == row
            &&& after.goal == row.goal
            &&& after.continuation == row.continuation
            &&& row.task.kind == TaskKind::Goal ==> after.task == (TaskRecord {
                session_id: if unbound {
                    None
                } else {
                    row.task.session_id
                },
                status: if fails {
                    TaskStatus::Failed
                } else {
                    row.task.status
                },
                finished_at: if fails {
                    recorded(row.task.finished_at, now)
                } else {
                    row.task.finished_at
                },
                ..row.task
            })
            &&& after.error == if fails && row.error is None {
                Some(
                    Text::Fixed(
                        if unbound {
                            "legacy_goal_missing_session"
                        } else {
                            "legacy_goal_missing_objective"
                        },
                    ),
                )
            } else {
                row.error
            }
        }),
{
}

/// Normalization takes each row by itself, in its place.
pub proof fn law_normalization_is_row_by_row(rows: Seq<TaskRowView>, now: String, i: int)
    requires
        0 <= i < rows.len(),
    ensures
        normalized_rows(rows, now).len() == rows.len(),
        normalized_rows(rows, now)[i] == normalized(rows[i], now),
{
}

// ---------------------------------------------------------------- goals without a session
/// Unguarded changes are refused for a goal that is bound to a session, and
/// where there is no extension to change; they touch the extension with the id
/// and of it only what they are about.
pub proof fn law_what_unguarded_changes_do(
    rows: Seq<TaskRowView>,
    row: TaskRowView,
    task_id: String,
    token_limit: Option<u64>,
    cost_limit: Option<Usd>,
    pause: Option<GoalPauseView>,
    context: Option<TaskContinuationContext>,
)
    ensures
        ({
            let bound = exists|i: int|
                0 <= i < rows.len() && (#[trigger] rows[i]).task.id@ == task_id@ && rows[i].task.kind == TaskKind::Goal
                    && (rows[i].task.session_id matches Some(session) && !store_blank(session@));
            let extended = exists|i: int|
                0 <= i < rows.len() && ((#[trigger] rows[i]).goal matches Some(goal) && goal.task_id@ == task_id@);
            let whole = exists|i: int|
                0 <= i < rows.len() && (#[trigger] rows[i]).task.id@ == task_id@ && rows[i].task.kind == TaskKind::Goal
                    && rows[i].goal is Some;
            &&& legacy_error(rows, task_id) == (if bound {
                Some(StoreError::SessionBound)
            } else if !extended {
                Some(StoreError::ExtensionMissing { task_id })
            } else {
                None
            })
            &&& legacy_limits_error(rows, task_id, token_limit, cost_limit) == (match limits_error(
                token_limit,
                cost_limit,
            ) {
                Some(error) => Some(error),
                None => legacy_error(rows, task_id),
            })
            &&& continuation_error(rows, task_id) == (if bound {
                Some(StoreError::SessionBound)
            } else if !whole {
                Some(StoreError::NotAGoal { task_id })
            } else {
                None
            })
        }),
        extends(task_id@)(row) == (row.goal matches Some(goal) && goal.task_id@ == task_id@),
        goal_with_id(task_id@)(row) == (row.task.id@ == task_id@ && row.task.kind == TaskKind::Goal && row.goal is Some),
        limited(token_limit, cost_limit)(row) == (TaskRowView {
            goal: match row.goal {
                Some(goal) => Some(
                    GoalTaskView {
                        effective_token_limit: token_limit,
                        effective_cost_limit_usd: cost_limit,
                        ..goal
                    },
                ),
                None => None,
            },
            ..row
        }),
        ({
            let after = repaused(pause)(row);
            &&& after == (TaskRowView { goal: after.goal, ..row })
            &&& after.goal is Some == row.goal is Some
            &&& row.goal matches Some(goal) ==> pause_written(goal, after.goal->Some_0, pause)
        }),
        continued(context)(row) == (TaskRowView { continuation: context, ..row }),
{
    assert(has_goal_row(rows, task_id@) == exists|i: int|
        0 <= i < rows.len() && (#[trigger] rows[i]).task.id@ == task_id@ && rows[i].task.kind == TaskKind::Goal
            && rows[i].goal is Some) by {
        if has_goal_row(rows, task_id@) {
            let i = choose|i: int| #[trigger] super::queries::goal_row(rows, task_id@, i);
            assert(rows[i].goal is Some);
        }
        if exists|i: int|
            0 <= i < rows.len() && (#[trigger] rows[i]).task.id@ == task_id@ && rows[i].task.kind == TaskKind::Goal
                && rows[i].goal is Some {
            let i = choose|i: int|
                0 <= i < rows.len() && (#[trigger] rows[i]).task.id@ == task_id@ && rows[i].task.kind == TaskKind::Goal
                    && rows[i].goal is Some;
            assert(super::queries::goal_row(rows, task_id@, i));
        }
    }
    let bound = exists|i: int|
        0 <= i < rows.len() && (#[trigger] rows[i]).task.id@ == task_id@ && rows[i].task.kind == TaskKind::Goal && (
        rows[i].task.session_id matches Some(session) && !store_blank(session@));
    assert(super::legacy::any_session_bound(rows, task_id@) == bound) by {
        if bound {
            let i = choose|i: int|
                0 <= i < rows.len() && (#[trigger] rows[i]).task.id@ == task_id@ && rows[i].task.kind == TaskKind::Goal
                    && (rows[i].task.session_id matches Some(session) && !store_blank(session@));
            assert(super::legacy::session_bound(rows[i], task_id@));
        }
    }
    let extended = exists|i: int|
        0 <= i < rows.len() && ((#[trigger] rows[i]).goal matches Some(goal) && goal.task_id@ == task_id@);
    assert(super::legacy::any_extension(rows, task_id@) == extended) by {
        if extended {
            let i = choose|i: int|
                0 <= i < rows.len() && ((#[trigger] rows[i]).goal matches Some(goal) && goal.task_id@ == task_id@);
            assert(extends(task_id@)(rows[i]));
        }
    }
}

/// Blank to the tables: no text, or nothing but spaces up to its end or up to a
/// NUL.
pub proof fn law_blank_in_the_tables(s: Seq<char>, k: int)
    requires
        0 <= k <= s.len(),
        forall|i: int| 0 <= i < k ==> s[i] == ' ',
        k < s.len() ==> s[k] != ' ',
    ensures
        store_blank(s) == (k == s.len() || s[k] == '\0'),
{
    lemma_after_spaces(s, 0, k);
}

proof fn lemma_after_spaces(s: Seq<char>, from: int, k: int)
    requires
        0 <= from <= k <= s.len(),
        forall|i: int| 0 <= i < k ==> s[i] == ' ',
        k < s.len() ==> s[k] != ' ',
    ensures
        super::after_spaces(s, from) == k,
    decreases k - from,
{
    if from < k {
        lemma_after_spaces(s, from + 1, k);
    }
}

} // verus!
