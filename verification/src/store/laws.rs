//! What holds of every store, whatever transitions it has been through.
use vstd::prelude::*;
#[allow(unused_imports)]
use vstd::string::*;

use super::boot::{boot_count, boot_fate, booted, booted_rows, left_behind};
use super::legacy::{continuation_error, continued, extends, goal_with_id, legacy_error, legacy_limits_error, repaused};
use super::session::{
    active_at, admissible, admit_outcome, admitted, awaiting, call_outstanding, create_outcome, created, deletable,
    finish_rows, limited, new_goal_row, pausable, paused, replaceable, resumable, resumed, session_limits_rows,
    session_occupant, session_position, settled, vacated, with_id, without,
};
use super::{
    any_row, bound_goal, goal_session, has_id, pending_call, row_valid, transition_outcome, updated, valid,
    TaskRowView,
};
use crate::goal_task::{GoalAccountingState, GoalPauseView, GoalTaskView, GoalTransitionResult, TaskContinuationContext};
use crate::message::Text;
use crate::task::{TaskRecord, TaskStatus};
use crate::usd::Usd;

verus! {

/// A mutation of the store, with everything it is given.
#[allow(inconsistent_fields)]
pub enum Change {
    Create { task: TaskRecord, goal: GoalTaskView },
    Pause { task_id: Seq<char>, session_id: Seq<char>, epoch: i64, pause: GoalPauseView },
    Resume { task_id: Seq<char>, session_id: Seq<char>, epoch: i64, owner_pid: u32, owner_boot_id: String },
    Finish {
        task_id: Seq<char>,
        session_id: Seq<char>,
        epoch: i64,
        status: TaskStatus,
        error: Option<Text>,
        now: String,
    },
    Admit { task_id: Seq<char>, session_id: Seq<char>, epoch: i64, call_id: String },
    Settle {
        task_id: Seq<char>,
        session_id: Seq<char>,
        epoch: i64,
        call_id: Seq<char>,
        state: GoalAccountingState,
    },
    Limits {
        task_id: Seq<char>,
        session_id: Seq<char>,
        epoch: i64,
        token_limit: Option<u64>,
        cost_limit: Option<Usd>,
    },
    Delete { task_id: Seq<char>, session_id: Seq<char>, epoch: i64 },
    Reconcile { boot_id: Seq<char>, now: String },
    LegacyLimits { task_id: String, token_limit: Option<u64>, cost_limit: Option<Usd> },
    LegacyPause { task_id: String, pause: Option<GoalPauseView> },
    Continuation { task_id: String, context: Option<TaskContinuationContext> },
}

/// The rows after a mutation.
pub open spec fn after(rows: Seq<TaskRowView>, change: Change) -> Seq<TaskRowView> {
    match change {
        Change::Create { task, goal } => if create_outcome(rows, task, goal) == Ok::<_, super::error::StoreError>(
            GoalTransitionResult::Applied,
        ) {
            created(rows, task, goal)
        } else {
            rows
        },
        Change::Pause { task_id, session_id, epoch, pause } => updated(
            rows,
            pausable(task_id, session_id, epoch),
            paused(pause),
        ),
        Change::Resume { task_id, session_id, epoch, owner_pid, owner_boot_id } => updated(
            rows,
            resumable(task_id, session_id, epoch),
            resumed(owner_pid, owner_boot_id),
        ),
        Change::Finish { task_id, session_id, epoch, status, error, now } => finish_rows(
            rows,
            task_id,
            session_id,
            epoch,
            status,
            error,
            now,
        ),
        Change::Admit { task_id, session_id, epoch, call_id } => if admit_outcome(
            rows,
            task_id,
            session_id,
            epoch,
            call_id@,
        ) == Ok::<_, super::error::StoreError>(GoalTransitionResult::Applied) {
            updated(rows, admissible(task_id, session_id, epoch), admitted(call_id, epoch))
        } else {
            rows
        },
        Change::Settle { task_id, session_id, epoch, call_id, state } => updated(
            rows,
            awaiting(task_id, session_id, epoch, call_id),
            settled(state),
        ),
        Change::Limits { task_id, session_id, epoch, token_limit, cost_limit } => session_limits_rows(
            rows,
            task_id,
            session_id,
            epoch,
            token_limit,
            cost_limit,
        ),
        Change::Delete { task_id, session_id, epoch } => without(rows, deletable(task_id, session_id, epoch)),
        Change::Reconcile { boot_id, now } => booted_rows(rows, boot_id, now),
        Change::LegacyLimits { task_id, token_limit, cost_limit } => if legacy_limits_error(
            rows,
            task_id,
            token_limit,
            cost_limit,
        ) is None {
            updated(rows, extends(task_id@), limited(token_limit, cost_limit))
        } else {
            rows
        },
        Change::LegacyPause { task_id, pause } => if legacy_error(rows, task_id) is None {
            updated(rows, extends(task_id@), repaused(pause))
        } else {
            rows
        },
        Change::Continuation { task_id, context } => if continuation_error(rows, task_id) is None {
            updated(rows, goal_with_id(task_id@), continued(context))
        } else {
            rows
        },
    }
}

/// How a row may differ from what it was one mutation before: identity,
/// session, ownership context and objective never change; a finished task
/// stays as it finished; epochs only grow, and every change of state takes a
/// new epoch unless the last one is reached.
pub open spec fn evolves(before: TaskRowView, now: TaskRowView) -> bool {
    &&& now.task.id == before.task.id
    &&& now.task.kind == before.task.kind
    &&& now.task.agent == before.task.agent
    &&& now.task.session_id == before.task.session_id
    &&& now.task.originator_route == before.task.originator_route
    &&& now.task.principal_id == before.task.principal_id
    &&& now.task.started_at == before.task.started_at
    &&& now.goal is Some == before.goal is Some
    &&& before.goal is Some ==> now.goal->Some_0.objective == before.goal->Some_0.objective
    &&& before.task.status.terminal() ==> now.task == before.task && now.error == before.error
    &&& now.task.execution_epoch >= before.task.execution_epoch
    &&& now.task.status != before.task.status ==> now.task.execution_epoch > before.task.execution_epoch
        || before.task.execution_epoch == i64::MAX
}

/// A row that is kept where it is by a mutation that neither adds nor removes
/// rows.
proof fn lemma_in_place(rows: Seq<TaskRowView>, change: Change, i: int)
    requires
        !(change is Create),
        !(change is Delete),
        0 <= i < rows.len(),
    ensures
        after(rows, change).len() == rows.len(),
        evolves(rows[i], after(rows, change)[i]),
{
}

/// Every row that is left by `without` was there before.
proof fn lemma_without_subset(rows: Seq<TaskRowView>, guard: spec_fn(TaskRowView) -> bool, j: int) -> (i: int)
    requires
        0 <= j < without(rows, guard).len(),
    ensures
        0 <= i < rows.len(),
        rows[i] == without(rows, guard)[j],
        !guard(rows[i]),
    decreases rows.len(),
{
    reveal(Seq::filter);
    let shorter = without(rows.drop_last(), guard);
    if !guard(rows.last()) && j == shorter.len() {
        rows.len() - 1
    } else {
        assert(without(rows, guard)[j] == shorter[j]);
        lemma_without_subset(rows.drop_last(), guard, j)
    }
}

/// Every row that `guard` does not pick is left.
proof fn lemma_without_keeps(rows: Seq<TaskRowView>, guard: spec_fn(TaskRowView) -> bool, i: int) -> (j: int)
    requires
        0 <= i < rows.len(),
        !guard(rows[i]),
    ensures
        0 <= j < without(rows, guard).len(),
        without(rows, guard)[j] == rows[i],
    decreases rows.len(),
{
    reveal(Seq::filter);
    let shorter = without(rows.drop_last(), guard);
    if i == rows.len() - 1 {
        shorter.len() as int
    } else {
        let j = lemma_without_keeps(rows.drop_last(), guard, i);
        assert(without(rows, guard)[j] == shorter[j]);
        j
    }
}

/// Where a mutated store has a row with an id that the store had before, it is
/// that row, and it has evolved as rows may.
pub proof fn law_rows_evolve(rows: Seq<TaskRowView>, change: Change, i: int, j: int)
    requires
        valid(rows),
        0 <= i < rows.len(),
        0 <= j < after(rows, change).len(),
        rows[i].task.id@ == after(rows, change)[j].task.id@,
    ensures
        evolves(rows[i], after(rows, change)[j]),
{
    match change {
        Change::Create { task, goal } => {
            if create_outcome(rows, task, goal) == Ok::<_, super::error::StoreError>(GoalTransitionResult::Applied) {
                let kept = vacated(rows, task.session_id->Some_0@);
                if j < kept.len() {
                    assert(after(rows, change)[j] == kept[j]);
                    let k = match session_occupant(rows, task.session_id->Some_0@) {
                        Some(row) => lemma_without_subset(rows, with_id(row.task.id@), j),
                        None => j,
                    };
                    assert(rows[k] == kept[j]);
                    assert(k == i);
                } else {
                    assert(after(rows, change)[j].task.id == task.id);
                    assert(has_id(rows, task.id@));
                }
            } else {
                assert(i == j);
            }
        },
        Change::Delete { task_id, session_id, epoch } => {
            let k = lemma_without_subset(rows, deletable(task_id, session_id, epoch), j);
            assert(k == i);
        },
        _ => {
            lemma_in_place(rows, change, j);
            assert(i == j);
        },
    }
}

proof fn lemma_without_valid(rows: Seq<TaskRowView>, guard: spec_fn(TaskRowView) -> bool)
    requires
        valid(rows),
    ensures
        valid(without(rows, guard)),
    decreases rows.len(),
{
    reveal(Seq::filter);
    if rows.len() > 0 {
        let front = rows.drop_last();
        assert(valid(front)) by {
            assert(forall|i: int| 0 <= i < front.len() ==> front[i] == rows[i]);
        }
        lemma_without_valid(front, guard);
        let shorter = without(front, guard);
        if !guard(rows.last()) {
            let longer = without(rows, guard);
            assert(longer == shorter.push(rows.last()));
            assert forall|j: int| 0 <= j < shorter.len() implies {
                &&& (#[trigger] shorter[j]).task.id@ != rows.last().task.id@
                &&& goal_session(shorter[j]) is Some ==> goal_session(shorter[j]) != goal_session(rows.last())
                &&& pending_call(shorter[j]) is Some ==> pending_call(shorter[j]) != pending_call(rows.last())
            } by {
                let i = lemma_without_subset(front, guard, j);
                assert(rows[i] == shorter[j]);
                assert(rows[rows.len() - 1] == rows.last());
            }
        }
    }
}

/// Removing by id leaves no goal in the session that the removed row held.
proof fn lemma_vacated(rows: Seq<TaskRowView>, session_id: Seq<char>)
    requires
        valid(rows),
    ensures
        valid(vacated(rows, session_id)),
        forall|i: int|
            0 <= i < vacated(rows, session_id).len() ==> goal_session(#[trigger] vacated(rows, session_id)[i]) != Some(
                session_id,
            ),
{
    lemma_session_position(rows, session_id, 0);
    match session_occupant(rows, session_id) {
        Some(row) => {
            let at = session_position(rows, session_id, 0);
            lemma_without_valid(rows, with_id(row.task.id@));
            let kept = without(rows, with_id(row.task.id@));
            assert forall|i: int| 0 <= i < kept.len() implies goal_session(#[trigger] kept[i]) != Some(session_id) by {
                let k = lemma_without_subset(rows, with_id(row.task.id@), i);
                assert(k != at);
                assert(rows[k] == kept[i]);
                assert(rows[at] == row);
            }
        },
        None => {},
    }
}

proof fn lemma_session_position(rows: Seq<TaskRowView>, session_id: Seq<char>, from: int)
    requires
        0 <= from <= rows.len(),
    ensures
        from <= session_position(rows, session_id, from) <= rows.len(),
        session_position(rows, session_id, from) < rows.len() ==> goal_session(
            rows[session_position(rows, session_id, from)],
        ) == Some(session_id),
        forall|i: int|
            from <= i < session_position(rows, session_id, from) ==> goal_session(#[trigger] rows[i]) != Some(session_id),
    decreases rows.len() - from,
{
    if from < rows.len() && goal_session(rows[from]) != Some(session_id) {
        lemma_session_position(rows, session_id, from + 1);
    }
}

/// Every mutation keeps the tables' constraints, among them that a session has
/// at most one goal and that a call is outstanding for at most one.
pub proof fn law_tables_stay_valid(rows: Seq<TaskRowView>, change: Change)
    requires
        valid(rows),
    ensures
        valid(after(rows, change)),
{
    match change {
        Change::Create { task, goal } => {
            lemma_creation_valid(rows, task, goal);
        },
        Change::Delete { task_id, session_id, epoch } => {
            lemma_without_valid(rows, deletable(task_id, session_id, epoch));
        },
        Change::Admit { task_id, session_id, epoch, call_id } => {
            lemma_admission_valid(rows, task_id, session_id, epoch, call_id);
        },
        _ => {
            lemma_identities_kept(rows, change);
            let next = after(rows, change);
            assert forall|i: int| 0 <= i < next.len() implies row_valid(#[trigger] next[i]) by {
                lemma_row_kept_valid(rows, change, i);
            }
            assert forall|i: int, j: int|
                0 <= i < j < next.len() && pending_call(#[trigger] next[i]) is Some implies pending_call(next[i])
                != pending_call(#[trigger] next[j]) by {
                lemma_row_kept_valid(rows, change, i);
                lemma_row_kept_valid(rows, change, j);
                assert(pending_call(rows[i]) != pending_call(rows[j]));
            }
        },
    }
}

#[verifier::spinoff_prover]
proof fn lemma_row_kept_valid(rows: Seq<TaskRowView>, change: Change, i: int)
    requires
        valid(rows),
        !(change is Create),
        !(change is Delete),
        !(change is Admit),
        0 <= i < rows.len(),
    ensures
        row_valid(after(rows, change)[i]),
        pending_call(after(rows, change)[i]) is Some ==> pending_call(after(rows, change)[i]) == pending_call(rows[i]),
{
    assert(row_valid(rows[i]));
}

#[verifier::spinoff_prover]
proof fn lemma_admission_valid(
    rows: Seq<TaskRowView>,
    task_id: Seq<char>,
    session_id: Seq<char>,
    epoch: i64,
    call_id: String,
)
    requires
        valid(rows),
    ensures
        valid(after(rows, Change::Admit { task_id, session_id, epoch, call_id })),
{
    let change = Change::Admit { task_id, session_id, epoch, call_id };
    let next = after(rows, change);
    if admit_outcome(rows, task_id, session_id, epoch, call_id@) == Ok::<_, super::error::StoreError>(
        GoalTransitionResult::Applied,
    ) {
        assert(!call_outstanding(rows, call_id@));
        assert forall|i: int, j: int|
            0 <= i < j < next.len() && pending_call(#[trigger] next[i]) is Some implies pending_call(next[i])
            != pending_call(#[trigger] next[j]) by {
            assert(rows[i].task.id@ != rows[j].task.id@);
            assert(pending_call(rows[i]) != Some(call_id@));
            assert(pending_call(rows[j]) != Some(call_id@));
        }
        assert forall|i: int| 0 <= i < next.len() implies row_valid(#[trigger] next[i]) by {
            assert(row_valid(rows[i]));
        }
        lemma_identities_kept(rows, change);
    }
}

#[verifier::spinoff_prover]
proof fn lemma_creation_valid(rows: Seq<TaskRowView>, task: TaskRecord, goal: GoalTaskView)
    requires
        valid(rows),
    ensures
        valid(after(rows, Change::Create { task, goal })),
{
    let next = after(rows, Change::Create { task, goal });
    if create_outcome(rows, task, goal) == Ok::<_, super::error::StoreError>(GoalTransitionResult::Applied) {
        let session = task.session_id->Some_0@;
        lemma_vacated(rows, session);
        let kept = vacated(rows, session);
        let row = new_goal_row(task, goal);
        assert(next == kept.push(row));
        assert forall|j: int| 0 <= j < kept.len() implies (#[trigger] kept[j]).task.id@ != task.id@ by {
            let k = match session_occupant(rows, session) {
                Some(occupant) => lemma_without_subset(rows, with_id(occupant.task.id@), j),
                None => j,
            };
            assert(rows[k] == kept[j]);
        }
        assert(row_valid(row));
        assert(pending_call(row) is None);
        assert(goal_session(row) == Some(session));
    }
}

proof fn lemma_identities_kept(rows: Seq<TaskRowView>, change: Change)
    requires
        valid(rows),
        !(change is Create),
        !(change is Delete),
    ensures
        after(rows, change).len() == rows.len(),
        forall|i: int, j: int|
            0 <= i < j < rows.len() ==> (#[trigger] after(rows, change)[i]).task.id@ != (#[trigger] after(
                rows,
                change,
            )[j]).task.id@,
        forall|i: int, j: int|
            0 <= i < j < rows.len() && goal_session(#[trigger] after(rows, change)[i]) is Some ==> goal_session(
                after(rows, change)[i],
            ) != goal_session(#[trigger] after(rows, change)[j]),
{
    let next = after(rows, change);
    assert forall|i: int| 0 <= i < rows.len() implies (#[trigger] next[i]).task.id == rows[i].task.id && goal_session(
        next[i],
    ) == goal_session(rows[i]) by {
        lemma_in_place(rows, change, i);
    }
    assert(next.len() == rows.len());
    assert forall|i: int, j: int| 0 <= i < j < rows.len() implies (#[trigger] next[i]).task.id@ != (#[trigger] next[j]).task.id@ by {
        assert(rows[i].task.id@ != rows[j].task.id@);
    }
    assert forall|i: int, j: int|
        0 <= i < j < rows.len() && goal_session(#[trigger] next[i]) is Some implies goal_session(next[i])
        != goal_session(#[trigger] next[j]) by {
        assert(goal_session(rows[i]) != goal_session(rows[j]));
    }
}

/// A guarded transition that does not apply leaves the store as it was.
pub proof fn law_refusal_changes_nothing(
    rows: Seq<TaskRowView>,
    guard: spec_fn(TaskRowView) -> bool,
    step: spec_fn(TaskRowView) -> TaskRowView,
    task_id: Seq<char>,
)
    requires
        !(transition_outcome(rows, guard, task_id) is Applied),
    ensures
        updated(rows, guard, step) == rows,
{
    assert(updated(rows, guard, step) =~= rows);
}

/// A pause, a resume or an end that was applied at an epoch cannot be applied
/// at that epoch again, nor can any other of them: the epoch is used up.
pub proof fn law_epoch_is_used_once(
    rows: Seq<TaskRowView>,
    change: Change,
    task_id: Seq<char>,
    session_id: Seq<char>,
    epoch: i64,
)
    requires
        valid(rows),
        epoch < i64::MAX,
        match change {
            Change::Pause { task_id: t, session_id: s, epoch: e, pause: _ } => t == task_id && s == session_id && e == epoch
                && any_row(rows, pausable(t, s, e)),
            Change::Resume { task_id: t, session_id: s, epoch: e, owner_pid: _, owner_boot_id: _ } => t == task_id && s
                == session_id && e == epoch && any_row(rows, resumable(t, s, e)),
            Change::Finish { task_id: t, session_id: s, epoch: e, status, error: _, now: _ } => t == task_id && s
                == session_id && e == epoch && status.terminal() && any_row(rows, active_at(t, s, e)),
            _ => false,
        },
    ensures
        transition_outcome(after(rows, change), pausable(task_id, session_id, epoch), task_id) is Stale,
        transition_outcome(after(rows, change), resumable(task_id, session_id, epoch), task_id) is Stale,
        transition_outcome(after(rows, change), active_at(task_id, session_id, epoch), task_id) is Stale,
{
    let next = after(rows, change);
    let hit = match change {
        Change::Pause { task_id: t, session_id: s, epoch: e, pause: _ } => choose|i: int|
            0 <= i < rows.len() && pausable(t, s, e)(#[trigger] rows[i]),
        Change::Resume { task_id: t, session_id: s, epoch: e, owner_pid: _, owner_boot_id: _ } => choose|i: int|
            0 <= i < rows.len() && resumable(t, s, e)(#[trigger] rows[i]),
        _ => choose|i: int| 0 <= i < rows.len() && active_at(task_id, session_id, epoch)(#[trigger] rows[i]),
    };
    assert(bound_goal(rows[hit], task_id, session_id));
    assert(next[hit].task.id@ == task_id);
    assert(has_id(next, task_id));
    assert forall|i: int| 0 <= i < next.len() && bound_goal(#[trigger] next[i], task_id, session_id) implies next[i].task.execution_epoch
        != epoch by {
        lemma_in_place(rows, change, i);
        assert(i == hit) by {
            assert(rows[i].task.id@ == task_id);
        }
    }
}

/// Settling a call as fully known right after it was admitted gives the store
/// back as it was.
pub proof fn law_settle_undoes_admit(
    rows: Seq<TaskRowView>,
    task_id: Seq<char>,
    session_id: Seq<char>,
    epoch: i64,
    call_id: String,
)
    requires
        admit_outcome(rows, task_id, session_id, epoch, call_id@) == Ok::<_, super::error::StoreError>(
            GoalTransitionResult::Applied,
        ),
    ensures
        ({
            let open = after(rows, Change::Admit { task_id, session_id, epoch, call_id });
            &&& transition_outcome(open, awaiting(task_id, session_id, epoch, call_id@), task_id) is Applied
            &&& updated(
                open,
                awaiting(task_id, session_id, epoch, call_id@),
                settled(GoalAccountingState::Complete),
            ) == rows
        }),
{
    let open = after(rows, Change::Admit { task_id, session_id, epoch, call_id });
    let guard = awaiting(task_id, session_id, epoch, call_id@);
    let hit = choose|i: int| 0 <= i < rows.len() && admissible(task_id, session_id, epoch)(#[trigger] rows[i]);
    assert(guard(open[hit]));
    let back = updated(open, guard, settled(GoalAccountingState::Complete));
    assert forall|i: int| 0 <= i < rows.len() implies back[i] == rows[i] by {
        if admissible(task_id, session_id, epoch)(rows[i]) {
            assert(back[i].goal->Some_0 =~= rows[i].goal->Some_0);
            assert(back[i] =~= rows[i]);
        } else {
            assert(open[i] == rows[i]);
            assert(pending_call(rows[i]) != Some(call_id@));
        }
    }
    assert(back =~= rows);
}

/// While a call is outstanding, no other call is admitted for its goal, the
/// goal cannot be resumed, replaced or deleted.
pub proof fn law_outstanding_call_fences(
    rows: Seq<TaskRowView>,
    i: int,
    task_id: Seq<char>,
    session_id: Seq<char>,
    epoch: i64,
)
    requires
        0 <= i < rows.len(),
        pending_call(rows[i]) is Some,
    ensures
        !admissible(task_id, session_id, epoch)(rows[i]),
        !resumable(task_id, session_id, epoch)(rows[i]),
        !deletable(task_id, session_id, epoch)(rows[i]),
        !replaceable(rows[i]),
{
}

/// The session of a goal that was created gives that goal back, at its first
/// epoch.
pub proof fn law_created_goal_is_current(rows: Seq<TaskRowView>, task: TaskRecord, goal: GoalTaskView)
    requires
        valid(rows),
        create_outcome(rows, task, goal) == Ok::<_, super::error::StoreError>(GoalTransitionResult::Applied),
    ensures
        session_occupant(created(rows, task, goal), task.session_id->Some_0@) == Some(new_goal_row(task, goal)),
{
    let session = task.session_id->Some_0@;
    lemma_vacated(rows, session);
    let kept = vacated(rows, session);
    let next = created(rows, task, goal);
    lemma_session_position(next, session, 0);
    let at = session_position(next, session, 0);
    assert(next[next.len() - 1] == new_goal_row(task, goal));
    if at < next.len() - 1 {
        assert(next[at] == kept[at]);
    }
}

/// An active goal keeps its session: no other goal can start there.
pub proof fn law_active_goal_keeps_session(rows: Seq<TaskRowView>, i: int, task: TaskRecord, goal: GoalTaskView)
    requires
        valid(rows),
        0 <= i < rows.len(),
        rows[i].task.status.active(),
        task.session_id is Some,
        goal_session(rows[i]) == Some(task.session_id->Some_0@),
    ensures
        create_outcome(rows, task, goal) != Ok::<_, super::error::StoreError>(GoalTransitionResult::Applied),
{
    let session = task.session_id->Some_0@;
    lemma_session_position(rows, session, 0);
    let at = session_position(rows, session, 0);
    if at != i {
        assert(goal_session(rows[at]) != goal_session(rows[i])) by {
            if at < i {
                assert(goal_session(rows[at]) != goal_session(rows[i]));
            }
        }
    }
}

/// After a boot no goal of an earlier daemon runs, none has a call
/// outstanding, and a second pass finds nothing left to do.
pub proof fn law_boot_fences_everything(rows: Seq<TaskRowView>, boot_id: Seq<char>, now: String, later: String)
    ensures
        forall|i: int|
            0 <= i < rows.len() && left_behind(#[trigger] booted_rows(rows, boot_id, now)[i], boot_id) ==> {
                &&& !(booted_rows(rows, boot_id, now)[i].task.status is Running)
                &&& pending_call(booted_rows(rows, boot_id, now)[i]) is None
            },
        booted_rows(booted_rows(rows, boot_id, now), boot_id, later) == booted_rows(rows, boot_id, now),
        boot_count(booted_rows(rows, boot_id, now), boot_id) == 0,
    decreases rows.len(),
{
    let once = booted_rows(rows, boot_id, now);
    let twice = booted_rows(once, boot_id, later);
    assert forall|i: int| 0 <= i < rows.len() implies #[trigger] twice[i] == once[i] && boot_fate(once[i], boot_id)
        is Kept by {
        if left_behind(rows[i], boot_id) {
            assert(once[i] == booted(rows[i], boot_id, now));
            if once[i].goal is Some {
                assert(twice[i].goal->Some_0 =~= once[i].goal->Some_0);
            }
            assert(twice[i] =~= once[i]);
        }
    }
    assert(twice =~= once);
    lemma_boot_count_zero(once, boot_id);
}

proof fn lemma_boot_count_zero(rows: Seq<TaskRowView>, boot_id: Seq<char>)
    requires
        forall|i: int| 0 <= i < rows.len() ==> boot_fate(#[trigger] rows[i], boot_id) is Kept,
    ensures
        boot_count(rows, boot_id) == 0,
    decreases rows.len(),
{
    if rows.len() > 0 {
        lemma_boot_count_zero(rows.drop_last(), boot_id);
    }
}

/// A goal that a boot paused can be resumed at the epoch that the boot gave
/// it, as long as an epoch is left.
pub proof fn law_boot_pause_is_resumable(row: TaskRowView, boot_id: Seq<char>, now: String)
    requires
        boot_fate(row, boot_id) is Paused,
        row.task.execution_epoch < i64::MAX - 1,
    ensures
        resumable(row.task.id@, row.task.session_id->Some_0@, (row.task.execution_epoch + 1) as i64)(
            booted(row, boot_id, now),
        ),
{
}

} // verus!
