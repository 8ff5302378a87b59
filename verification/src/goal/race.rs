//! Starts of goals against one store, one after the other or at once.
use vstd::prelude::*;
#[allow(unused_imports)]
use vstd::string::*;

use super::budget::{initial_usage, tracking_missing, CostTracking, GoalUsageTotals, TrackerState};
use super::context::{GoalAdmission, GoalAdmissionContext};
use super::flow::{AskedView, GoalReply, GoalRequest, StepView};
use super::lifecycle::{
    context_conflict, initial_pause, plain_record, start_steps, started_record, started_task, GoalIdentity,
};
use super::visibility::{about, latest_active};
use crate::error::failure;
use crate::goal_task::GoalTaskView;
use crate::message::{label, spelled_out};
use crate::store::context::{context_taken, holds_context, insert_error, inserted_row, same_context};
use crate::store::error::{error_text, StoreError};
use crate::store::limits::limits_error;
use crate::store::queries::{active_for, latest_at, none_active};
use crate::store::{has_id, TaskRowView};
use crate::task::{TaskRecord, TaskStatus};
use crate::text::{contains_text, occurs_at, opt_view};
use crate::usd::Usd;

verus! {

/// A start of a goal.
pub struct GoalStart {
    pub ctx: GoalAdmissionContext,
    pub objective: String,
    pub token_limit: Option<u64>,
    pub cost_limit: Option<Usd>,
    pub configured: bool,
    pub identity: GoalIdentity,
}

/// What the ledger and the tracking of costs say.
pub struct Accounting {
    pub ledger: Option<TrackerState>,
    pub tracking: Option<CostTracking>,
}

/// The rows of the store, and the replies that two starts have had.
pub struct Race {
    pub rows: Seq<TaskRowView>,
    pub first: Seq<GoalReply>,
    pub second: Seq<GoalReply>,
}

impl GoalStart {
    /// What the start does next.
    pub open spec fn step(self, replies: Seq<GoalReply>) -> StepView<GoalAdmission> {
        start_steps(
            self.ctx,
            self.objective,
            self.token_limit,
            self.cost_limit,
            self.configured,
            self.identity,
            replies,
            0,
        )
    }

    /// The usage with which the goal starts.
    pub open spec fn usage(self, accounting: Accounting) -> Option<GoalUsageTotals> {
        initial_usage(self.configured, accounting.ledger)
    }

    /// A cost limit, if there is one, can be enforced.
    pub open spec fn enforceable(self, accounting: Accounting) -> bool {
        self.configured ==> !tracking_missing(
            accounting.tracking,
            self.cost_limit,
            Some(self.usage(accounting) is Some),
        )
    }

    /// Limits that can be stored, and a cost limit that can be enforced.
    pub open spec fn affordable(self, accounting: Accounting) -> bool {
        limits_error(self.token_limit, self.cost_limit) is None && self.enforceable(accounting)
    }

    /// An active goal is found in the context of the start.
    pub open spec fn finds_active(self, rows: Seq<TaskRowView>) -> bool {
        !none_active(
            rows,
            self.ctx.agent_alias@,
            opt_view(self.ctx.originator_route),
            opt_view(self.ctx.principal_id),
        )
    }
}

/// Two starts in one context, of different goals.
pub open spec fn rivals(one: GoalStart, other: GoalStart) -> bool {
    &&& one.ctx.agent_alias@ == other.ctx.agent_alias@
    &&& opt_view(one.ctx.originator_route) == opt_view(other.ctx.originator_route)
    &&& opt_view(one.ctx.principal_id) == opt_view(other.ctx.principal_id)
    &&& one.identity.task_id@ != other.identity.task_id@
}

/// The reply to a request of a start, and the rows afterwards: the ledger and
/// the tracking say what they say, the store looks up and inserts.
pub open spec fn served(
    accounting: Accounting,
    rows: Seq<TaskRowView>,
    request: AskedView,
    reply: GoalReply,
    after: Seq<TaskRowView>,
) -> bool {
    match request {
        GoalRequest::ReadLedger => reply == GoalReply::Ledger(accounting.ledger) && after == rows,
        GoalRequest::ReadTracking => reply == GoalReply::Tracking(accounting.tracking) && after == rows,
        GoalRequest::LatestActive { agent, route, principal } => after == rows && match reply {
            GoalReply::Task(Some(task)) => exists|i: int|
                #[trigger] latest_at(rows, agent@, opt_view(route), opt_view(principal), i) && task == rows[i].task,
            GoalReply::Task(None) => none_active(rows, agent@, opt_view(route), opt_view(principal)),
            _ => false,
        },
        GoalRequest::Create { task, goal, continuation } => match insert_error(rows, task, goal) {
            None => reply == GoalReply::Done && after == rows.push(inserted_row(task, goal, continuation)),
            Some(error) => reply == GoalReply::Failed(failure(error_text(error))) && after == rows,
        },
        _ => false,
    }
}

/// A start has its next request served.
pub open spec fn moves(
    start: GoalStart,
    accounting: Accounting,
    rows: Seq<TaskRowView>,
    replies: Seq<GoalReply>,
    after: Seq<TaskRowView>,
    more: Seq<GoalReply>,
) -> bool {
    &&& start.step(replies) matches StepView::Ask(request)
    &&& more.len() == replies.len() + 1
    &&& more == replies.push(more.last())
    &&& served(accounting, rows, request, more.last(), after)
}

/// One of two starts has its next request served.
pub open spec fn race_moves(one: GoalStart, other: GoalStart, accounting: Accounting, now: Race, next: Race) -> bool {
    ||| moves(one, accounting, now.rows, now.first, next.rows, next.first) && next.second == now.second
    ||| moves(other, accounting, now.rows, now.second, next.rows, next.second) && next.first == now.first
}

/// A course that two starts may take, from the beginning, in any interleaving.
pub open spec fn race(one: GoalStart, other: GoalStart, accounting: Accounting, course: Seq<Race>) -> bool {
    &&& course.len() > 0
    &&& course[0].first == Seq::<GoalReply>::empty()
    &&& course[0].second == Seq::<GoalReply>::empty()
    &&& forall|k: int|
        0 <= k < course.len() - 1 ==> race_moves(one, other, accounting, #[trigger] course[k], course[k + 1])
}

/// The start was told that a goal is active in its context: it saw the goal, or
/// its insertion met it.
pub open spec fn told_active(step: StepView<GoalAdmission>) -> bool {
    step matches StepView::Fail(error) && ({
        ||| error == failure(label("goal-command-error-active-goal-conflict"))
        ||| exists|id: String| error == failure(#[trigger] about("goal-command-error-active-goal-exists", id))
    })
}

// ---------------------------------------------------------------- phases
/// How many replies come before the lookup.
spec fn preliminaries(start: GoalStart) -> int {
    if !start.configured {
        0
    } else if start.cost_limit is None {
        1
    } else {
        2
    }
}

/// The replies so far are ones that the start may have had.
spec fn on_course(start: GoalStart, accounting: Accounting, replies: Seq<GoalReply>) -> bool {
    let k = preliminaries(start);
    &&& replies.len() <= k + 2
    &&& k >= 1 && replies.len() > 0 ==> replies[0] == GoalReply::Ledger(accounting.ledger)
    &&& k == 2 && replies.len() > 1 ==> replies[1] == GoalReply::Tracking(accounting.tracking)
    &&& replies.len() > k ==> replies[k] is Task
    &&& replies.len() == k + 2 ==> replies[k] == GoalReply::Task(None) && (replies[k + 1] == GoalReply::Done
        || replies[k + 1] == GoalReply::Failed(failure(error_text(StoreError::ContextTaken))))
}

spec fn won(start: GoalStart, replies: Seq<GoalReply>) -> bool {
    replies.len() == preliminaries(start) + 2 && replies[preliminaries(start) + 1] == GoalReply::Done
}

spec fn lost(start: GoalStart, replies: Seq<GoalReply>) -> bool {
    let k = preliminaries(start);
    (replies.len() == k + 1 && replies[k] != GoalReply::Task(None)) || (replies.len() == k + 2 && replies[k + 1]
        != GoalReply::Done)
}

proof fn lemma_conflict()
    ensures
        context_conflict(failure(error_text(StoreError::ContextTaken))),
{
    let words = "UNIQUE constraint failed: index 'idx_tasks_active_goal_context'"@;
    let name = "idx_tasks_active_goal_context"@;
    reveal_strlit("UNIQUE constraint failed: index 'idx_tasks_active_goal_context'");
    reveal_strlit("idx_tasks_active_goal_context");
    assert(words.subrange(33, 33int + name.len()) =~= name);
    assert(occurs_at(words, name, 33));
    assert(contains_text(words, name));
    assert(spelled_out(error_text(StoreError::ContextTaken)) == Some(words));
}

/// The row that a start inserts.
spec fn entry(start: GoalStart, accounting: Accounting) -> (TaskRecord, GoalTaskView) {
    let goal = plain_record(start.identity.task_id, start.objective, start.token_limit, start.cost_limit);
    let runs = initial_pause(goal, start.configured, start.usage(accounting)) is None;
    (
        started_task(
            start.ctx,
            start.identity,
            if runs {
                TaskStatus::Running
            } else {
                TaskStatus::Paused
            },
        ),
        started_record(
            start.identity.task_id,
            start.objective,
            start.token_limit,
            start.cost_limit,
            start.configured,
            start.usage(accounting),
        ),
    )
}

/// What a start does next, phase by phase.
#[verifier::spinoff_prover]
proof fn lemma_phases(start: GoalStart, accounting: Accounting, replies: Seq<GoalReply>)
    requires
        start.enforceable(accounting),
        on_course(start, accounting, replies),
    ensures
        ({
            let k = preliminaries(start);
            let step = start.step(replies);
            &&& won(start, replies) ==> step is Ready
            &&& lost(start, replies) ==> told_active(step)
            &&& replies.len() < k ==> step == StepView::<GoalAdmission>::Ask(
                if replies.len() == 0 {
                    GoalRequest::ReadLedger
                } else {
                    GoalRequest::ReadTracking
                },
            )
            &&& replies.len() == k ==> step == StepView::<GoalAdmission>::Ask(latest_active(start.ctx))
            &&& replies.len() == k + 1 && !lost(start, replies) ==> step == StepView::<GoalAdmission>::Ask(
                GoalRequest::Create {
                    task: entry(start, accounting).0,
                    goal: entry(start, accounting).1,
                    continuation: start.ctx.continuation_context,
                },
            )
        }),
{
    lemma_conflict();
    let k = preliminaries(start);
    if replies.len() == k + 1 && lost(start, replies) {
        let task = replies[k]->Task_0->Some_0;
        assert(start.step(replies) == StepView::<GoalAdmission>::Fail(
            failure(about("goal-command-error-active-goal-exists", task.id)),
        ));
    }
}

/// What holds of a race at any time: an active goal is in the context exactly
/// where a start has won, at most one has, and none has lost to nothing.
spec fn fair(one: GoalStart, other: GoalStart, accounting: Accounting, at: Race) -> bool {
    let taken = won(one, at.first) || won(other, at.second);
    &&& on_course(one, accounting, at.first)
    &&& on_course(other, accounting, at.second)
    &&& one.finds_active(at.rows) == taken
    &&& other.finds_active(at.rows) == taken
    &&& context_taken(at.rows, entry(one, accounting).0) == taken
    &&& context_taken(at.rows, entry(other, accounting).0) == taken
    &&& has_id(at.rows, one.identity.task_id@) == won(one, at.first)
    &&& has_id(at.rows, other.identity.task_id@) == won(other, at.second)
    &&& !(won(one, at.first) && won(other, at.second))
    &&& lost(one, at.first) || lost(other, at.second) ==> taken
}

/// Inserting the goal of one start takes the context of both.
#[verifier::spinoff_prover]
proof fn lemma_insertion(one: GoalStart, other: GoalStart, accounting: Accounting, rows: Seq<TaskRowView>)
    requires
        rivals(one, other),
    ensures
        ({
            let (task, goal) = entry(one, accounting);
            let after = rows.push(inserted_row(task, goal, one.ctx.continuation_context));
            &&& one.finds_active(after)
            &&& other.finds_active(after)
            &&& context_taken(after, task)
            &&& context_taken(after, entry(other, accounting).0)
            &&& has_id(after, one.identity.task_id@)
            &&& has_id(after, other.identity.task_id@) == has_id(rows, other.identity.task_id@)
        }),
{
    let (task, goal) = entry(one, accounting);
    let row = inserted_row(task, goal, one.ctx.continuation_context);
    let after = rows.push(row);
    let at = rows.len() as int;
    assert(after[at] == row);
    assert(active_for(
        after[at],
        one.ctx.agent_alias@,
        opt_view(one.ctx.originator_route),
        opt_view(one.ctx.principal_id),
    ));
    assert(holds_context(after[at].task));
    assert(same_context(after[at].task, task));
    assert(same_context(after[at].task, entry(other, accounting).0));
    assert(after[at].task.id@ == one.identity.task_id@);
    if has_id(after, other.identity.task_id@) {
        let i = choose|i: int| 0 <= i < after.len() && (#[trigger] after[i]).task.id@ == other.identity.task_id@;
        assert(rows[i].task.id@ == other.identity.task_id@);
    }
    if has_id(rows, other.identity.task_id@) {
        let i = choose|i: int| 0 <= i < rows.len() && (#[trigger] rows[i]).task.id@ == other.identity.task_id@;
        assert(after[i].task.id@ == other.identity.task_id@);
    }
}

/// A move of either start keeps the race fair.
#[verifier::spinoff_prover]
proof fn lemma_move(
    one: GoalStart,
    other: GoalStart,
    accounting: Accounting,
    rows: Seq<TaskRowView>,
    first: Seq<GoalReply>,
    second: Seq<GoalReply>,
    after: Seq<TaskRowView>,
    more: Seq<GoalReply>,
)
    requires
        rivals(one, other),
        one.affordable(accounting),
        fair(one, other, accounting, (Race { rows, first, second })),
        moves(one, accounting, rows, first, after, more),
    ensures
        fair(one, other, accounting, (Race { rows: after, first: more, second })),
{
    lemma_phases(one, accounting, first);
    let k = preliminaries(one);
    let reply = more.last();
    assert(forall|i: int| 0 <= i < first.len() ==> more[i] == first[i]);
    assert(more[first.len() as int] == reply);
    if first.len() == k + 1 {
        let (task, goal) = entry(one, accounting);
        assert(limits_error(goal.effective_token_limit, goal.effective_cost_limit_usd) is None);
        lemma_insertion(one, other, accounting, rows);
    } else if first.len() == k {
        if reply is Task && reply->Task_0 is Some {
            let i = choose|i: int|
                #[trigger] latest_at(
                    rows,
                    one.ctx.agent_alias@,
                    opt_view(one.ctx.originator_route),
                    opt_view(one.ctx.principal_id),
                    i,
                ) && reply->Task_0->Some_0 == rows[i].task;
            assert(one.finds_active(rows));
        }
    }
}

/// The same race with its starts exchanged.
proof fn lemma_exchange(one: GoalStart, other: GoalStart, accounting: Accounting, at: Race)
    requires
        fair(one, other, accounting, at),
    ensures
        fair(other, one, accounting, (Race { rows: at.rows, first: at.second, second: at.first })),
{
}

proof fn lemma_race_is_fair(one: GoalStart, other: GoalStart, accounting: Accounting, course: Seq<Race>, k: int)
    requires
        rivals(one, other),
        one.affordable(accounting),
        other.affordable(accounting),
        race(one, other, accounting, course),
        fair(one, other, accounting, course[0]),
        0 <= k < course.len(),
    ensures
        fair(one, other, accounting, course[k]),
    decreases k,
{
    if k > 0 {
        lemma_race_is_fair(one, other, accounting, course, k - 1);
        let now = course[k - 1];
        let next = course[k];
        assert(race_moves(one, other, accounting, course[k - 1], course[k - 1 + 1]));
        if moves(one, accounting, now.rows, now.first, next.rows, next.first) && next.second == now.second {
            lemma_move(one, other, accounting, now.rows, now.first, now.second, next.rows, next.first);
        } else {
            lemma_exchange(one, other, accounting, now);
            lemma_move(other, one, accounting, now.rows, now.second, now.first, next.rows, next.second);
            lemma_exchange(
                other,
                one,
                accounting,
                (Race { rows: next.rows, first: next.second, second: next.first }),
            );
        }
    }
}

// ---------------------------------------------------------------- laws
/// Of two starts in one free context exactly one succeeds and the other is told
/// that a goal is active, in whichever order the store serves their requests.
pub proof fn law_one_of_two_starts_succeeds(
    one: GoalStart,
    other: GoalStart,
    accounting: Accounting,
    course: Seq<Race>,
)
    requires
        rivals(one, other),
        one.affordable(accounting),
        other.affordable(accounting),
        race(one, other, accounting, course),
        !one.finds_active(course[0].rows),
        !context_taken(course[0].rows, started_task(one.ctx, one.identity, TaskStatus::Running)),
        !has_id(course[0].rows, one.identity.task_id@),
        !has_id(course[0].rows, other.identity.task_id@),
        !(one.step(course.last().first) is Ask),
        !(other.step(course.last().second) is Ask),
    ensures
        ({
            let first = one.step(course.last().first);
            let second = other.step(course.last().second);
            ||| first is Ready && told_active(second)
            ||| second is Ready && told_active(first)
        }),
{
    let begin = course[0];
    assert(same_context(
        started_task(one.ctx, one.identity, TaskStatus::Running),
        entry(other, accounting).0,
    ));
    assert forall|task: TaskRecord|
        same_context(started_task(one.ctx, one.identity, TaskStatus::Running), task) implies !#[trigger] context_taken(
        begin.rows,
        task,
    ) by {
        if context_taken(begin.rows, task) {
            let i = choose|i: int|
                0 <= i < begin.rows.len() && holds_context((#[trigger] begin.rows[i]).task) && same_context(
                    begin.rows[i].task,
                    task,
                );
            assert(same_context(
                begin.rows[i].task,
                started_task(one.ctx, one.identity, TaskStatus::Running),
            ));
        }
    }
    assert(fair(one, other, accounting, begin));
    lemma_race_is_fair(one, other, accounting, course, course.len() - 1);
    lemma_phases(one, accounting, course.last().first);
    lemma_phases(other, accounting, course.last().second);
}

/// A course that a start takes while nobody else does anything.
pub open spec fn course_alone(
    start: GoalStart,
    accounting: Accounting,
    course: Seq<(Seq<TaskRowView>, Seq<GoalReply>)>,
) -> bool {
    &&& course.len() > 0
    &&& course[0].1 == Seq::<GoalReply>::empty()
    &&& forall|k: int|
        0 <= k < course.len() - 1 ==> moves(
            start,
            accounting,
            (#[trigger] course[k]).0,
            course[k].1,
            course[k + 1].0,
            course[k + 1].1,
        )
}

/// The goal of a start is there, and running or paused.
pub open spec fn still_active(start: GoalStart, row: TaskRowView) -> bool {
    &&& row.task.id@ == start.identity.task_id@
    &&& row.task.kind is Goal
    &&& row.task.status.active()
    &&& row.task.agent@ == start.ctx.agent_alias@
    &&& opt_view(row.task.originator_route) == opt_view(start.ctx.originator_route)
    &&& opt_view(row.task.principal_id) == opt_view(start.ctx.principal_id)
}

proof fn lemma_refusal(
    later: GoalStart,
    accounting: Accounting,
    course: Seq<(Seq<TaskRowView>, Seq<GoalReply>)>,
    k: int,
)
    requires
        later.enforceable(accounting),
        course_alone(later, accounting, course),
        later.finds_active(course[0].0),
        0 <= k < course.len(),
    ensures
        course[k].0 == course[0].0,
        on_course(later, accounting, course[k].1),
        course[k].1.len() <= preliminaries(later) + 1,
        course[k].1.len() == preliminaries(later) + 1 ==> lost(later, course[k].1),
    decreases k,
{
    if k > 0 {
        lemma_refusal(later, accounting, course, k - 1);
        let replies = course[k - 1].1;
        let more = course[k].1;
        assert(moves(later, accounting, course[k - 1].0, replies, course[k - 1 + 1].0, course[k - 1 + 1].1));
        lemma_phases(later, accounting, replies);
        assert(forall|i: int| 0 <= i < replies.len() ==> more[i] == replies[i]);
        assert(more[replies.len() as int] == more.last());
    }
}

/// While the goal of a start is running or paused, a later start in its context
/// is told that a goal is active, and inserts nothing.
pub proof fn law_later_start_is_refused(
    earlier: GoalStart,
    later: GoalStart,
    accounting: Accounting,
    course: Seq<(Seq<TaskRowView>, Seq<GoalReply>)>,
    i: int,
)
    requires
        rivals(earlier, later),
        later.enforceable(accounting),
        course_alone(later, accounting, course),
        0 <= i < course[0].0.len(),
        still_active(earlier, course[0].0[i]),
        !(later.step(course.last().1) is Ask),
    ensures
        told_active(later.step(course.last().1)),
        course.last().0 == course[0].0,
{
    assert(active_for(
        course[0].0[i],
        later.ctx.agent_alias@,
        opt_view(later.ctx.originator_route),
        opt_view(later.ctx.principal_id),
    ));
    lemma_refusal(later, accounting, course, course.len() - 1);
    lemma_phases(later, accounting, course.last().1);
}

/// A start that succeeds leaves its goal in the store, running or paused.
pub proof fn law_started_goal_is_active(
    start: GoalStart,
    accounting: Accounting,
    course: Seq<(Seq<TaskRowView>, Seq<GoalReply>)>,
)
    requires
        start.enforceable(accounting),
        course_alone(start, accounting, course),
        start.step(course.last().1) is Ready,
    ensures
        course.last().0.len() == course[0].0.len() + 1,
        course.last().0.drop_last() == course[0].0,
        still_active(start, course.last().0.last()),
{
    lemma_insertion_alone(start, accounting, course, course.len() - 1);
    lemma_phases(start, accounting, course.last().1);
}

proof fn lemma_insertion_alone(
    start: GoalStart,
    accounting: Accounting,
    course: Seq<(Seq<TaskRowView>, Seq<GoalReply>)>,
    k: int,
)
    requires
        start.enforceable(accounting),
        course_alone(start, accounting, course),
        0 <= k < course.len(),
    ensures
        ({
            let rows = course[k].0;
            let replies = course[k].1;
            &&& won(start, replies) ==> {
                &&& on_course(start, accounting, replies)
                &&& rows.len() == course[0].0.len() + 1
                &&& rows.drop_last() == course[0].0
                &&& still_active(start, rows.last())
            }
            &&& !won(start, replies) ==> {
                &&& rows == course[0].0
                &&& on_course(start, accounting, replies) || start.step(replies) is Fail
            }
        }),
    decreases k,
{
    if k > 0 {
        lemma_insertion_alone(start, accounting, course, k - 1);
        let rows = course[k - 1].0;
        let replies = course[k - 1].1;
        let more = course[k].1;
        assert(moves(start, accounting, rows, replies, course[k - 1 + 1].0, course[k - 1 + 1].1));
        lemma_phases(start, accounting, replies);
        assert(forall|i: int| 0 <= i < replies.len() ==> more[i] == replies[i]);
        assert(more[replies.len() as int] == more.last());
        if replies.len() == preliminaries(start) + 1 {
            let (task, goal) = entry(start, accounting);
            let row = inserted_row(task, goal, start.ctx.continuation_context);
            assert(rows.push(row).drop_last() =~= rows);
        }
    }
}

} // verus!
