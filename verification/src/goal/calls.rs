//! What callers can rely on: which steps each call takes, and what the calls
//! on a live turn, on a ledger and on a command's text come to.
use vstd::prelude::*;
#[allow(unused_imports)]
use vstd::string::*;

use super::admission::{admit_goal_command, admit_steps, effective_agent};

use super::binding::{
    bind_current_goal_task, current_goal_start_tool_batch_requested, current_goal_task_binding_is_reserved,
    current_goal_turn_evaluation_marker, current_goal_turn_evaluation_requested,
    ensure_current_goal_task_binding_available, mark_current_goal_turn_for_evaluation,
    reserve_current_goal_task_binding, scope_goal_start_tool_batch, GoalRuntimeScope, GoalTaskBindingReservation,
    TurnMarkers,
};
use super::budget::{
    amount_digits, budget_summary, goal_recovery_status_message, goal_usage_ledger_is_healthy,
    goal_usage_totals_from_tracker, GoalUsageTotals, LedgerReading,
};
use super::command::{fault_text, CommandError, GoalCommand};
use super::context::{CommandSurface, GoalAdmission, GoalAdmissionContext, GoalTurnEvaluation};
use super::evaluation::{
    accounting_failure_steps, admit_goal_autonomous_turn, autonomous_steps, evaluate_goal_turn_with_verifier,
    evaluate_steps, human_gate_steps, interruption_steps, pause_current_goal_for_human_gate,
    pause_goal_for_accounting_failure, pause_running_goal_for_interruption,
};
use super::flow::{
    applied_reply, asked_view, continuation_reply, done_reply, goal_reply, seen, task_reply, usage_reply, Asked, AskedView,
    GoalReply, GoalRequest, LedgerAccess, Step, StepView,
};
use super::lifecycle::GoalIdentity;

use super::policy::{
    allowed, goal_channel_binding_is_allowed, goal_control_binding_is_allowed, goal_ids_revoked_by_config, listed_owner,
    ActiveGoalControlBinding, AgentPolicy, EnabledChannel, GoalPolicy,
};

use crate::error::GoalError;
use crate::goal_task::{GoalBlockerKind, GoalTaskRecord, GoalTaskView, TaskContinuationContext};
use crate::message::{Args, Text};
use crate::payload::Json;
use crate::task::TaskRecord;
use crate::text::blank;
use crate::usd::Usd;

verus! {

// ---------------------------------------------------------------- steps
/// A step says what it asks for, why it failed, or its result and how many
/// replies that took; nothing of it is lost.
pub proof fn law_steps_say_what_they_hold<T>(step: Step<T>)
    ensures
        match step {
            Step::Ask(request) => seen(step) == StepView::<T>::Ask(asked_view(request)),
            Step::Fail(error) => seen(step) == StepView::<T>::Fail(error),
            Step::Ready(value, next) => seen(step) == StepView::<T>::Ready(value, next),
        },
{
}

/// Two requests that say the same ask for the same kind of thing, of the same
/// task, with the same particulars.
pub proof fn law_requests_say_what_they_ask_for(a: Asked, b: Asked)
    requires
        asked_view(a) == asked_view(b),
    ensures
        match a {
            GoalRequest::PauseIfStatus { task_id, expected, pause } => b matches GoalRequest::PauseIfStatus {
                task_id: other_id,
                expected: other,
                pause: other_pause,
            } && task_id == other_id && expected == other && pause@ == other_pause@,
            GoalRequest::Create { task, goal, continuation } => b matches GoalRequest::Create {
                task: other_task,
                goal: other_goal,
                continuation: other,
            } && task == other_task && goal@ == other_goal@ && continuation == other,
            GoalRequest::Verify { agent, context, goal, summary } => b matches GoalRequest::Verify {
                agent: other_agent,
                context: other_context,
                goal: other_goal,
                summary: other,
            } && agent == other_agent && context == other_context && goal@ == other_goal@ && summary == other,
            _ => a == b,
        },
{
}

/// A turn is evaluated by the steps of an evaluation, and one that people or
/// the daemon hold up is paused by the steps of its kind.
pub proof fn law_turns_take_their_steps(
    ctx: &GoalAdmissionContext,
    control_plane: bool,
    verifier_enabled: bool,
    summary: &String,
    kind: GoalBlockerKind,
    message: &String,
    payload: &Option<Json>,
    task_id: &String,
    cause: Option<super::budget::GoalBudgetUnavailableCause>,
    replies: &Vec<GoalReply>,
    evaluated: Step<Option<GoalTurnEvaluation>>,
    held: Step<GoalAdmission>,
    interrupted: Step<()>,
    unaccounted: Step<()>,
    let_through: Step<Option<GoalAdmission>>,
)
    requires
        call_ensures(
            evaluate_goal_turn_with_verifier,
            (ctx, control_plane, verifier_enabled, summary, replies),
            evaluated,
        ),
        call_ensures(pause_current_goal_for_human_gate, (ctx, control_plane, kind, message, payload, replies), held),
        call_ensures(pause_running_goal_for_interruption, (task_id, control_plane, replies), interrupted),
        call_ensures(pause_goal_for_accounting_failure, (task_id, cause, control_plane, replies), unaccounted),
        call_ensures(admit_goal_autonomous_turn, (ctx, control_plane, replies), let_through),
    ensures
        seen(evaluated) == evaluate_steps(*ctx, control_plane, verifier_enabled, *summary, replies@),
        seen(held) == human_gate_steps(*ctx, control_plane, kind, *message, *payload, replies@),
        seen(interrupted) == interruption_steps(*task_id, control_plane, replies@),
        seen(unaccounted) == accounting_failure_steps(*task_id, cause, control_plane, replies@),
        seen(let_through) == autonomous_steps(*ctx, control_plane, replies@),
{
}

/// A command is admitted under the live configuration where there is one, and
/// under the fallback otherwise.
pub proof fn law_command_takes_its_steps(
    ctx: &GoalAdmissionContext,
    command: &GoalCommand,
    live: &Option<GoalPolicy>,
    fallback: &GoalPolicy,
    fallback_agent: Option<&AgentPolicy>,
    channel_owned: bool,
    control_plane: bool,
    in_scope: bool,
    reserved: bool,
    identity: &GoalIdentity,
    replies: &Vec<GoalReply>,
    r: Step<GoalAdmission>,
)
    requires
        call_ensures(
            admit_goal_command,
            (
                ctx,
                command,
                live,
                fallback,
                fallback_agent,
                channel_owned,
                control_plane,
                in_scope,
                reserved,
                identity,
                replies,
            ),
            r,
        ),
    ensures
        ({
            let handed = match fallback_agent {
                Some(agent) => Some(*agent),
                None => None,
            };
            let agent = effective_agent(*live, *fallback, handed, ctx.agent_alias@);
            let policy = if live is Some {
                live->Some_0
            } else {
                *fallback
            };
            seen(r) == admit_steps(
                *ctx,
                *command,
                policy,
                agent,
                channel_owned,
                control_plane,
                in_scope,
                reserved,
                *identity,
                replies@,
            )
        }),
{
}

// ---------------------------------------------------------------- texts
/// A fault is told in its words, and has no other cause.
pub proof fn law_fault_is_told(fault: CommandError, r: GoalError)
    requires
        call_ensures(CommandError::into_error, (fault,), r),
    ensures
        r == (GoalError { text: fault_text(fault), cause: None }),
{
}

// ---------------------------------------------------------------- ledgers
/// What is known of a goal's usage is what a ledger that can be relied on says.
pub proof fn law_usage_is_what_the_ledger_says(
    reading: Option<LedgerReading>,
    writable: bool,
    storage_ready: bool,
    readable: bool,
    usage: Option<GoalUsageTotals>,
    healthy: bool,
)
    requires
        call_ensures(goal_usage_totals_from_tracker, (reading, writable), usage),
        call_ensures(goal_usage_ledger_is_healthy, (storage_ready, readable), healthy),
    ensures
        healthy <==> storage_ready && readable,
        usage is Some <==> (reading matches Some(ledger) && ledger.totals is Some && (writable
            ==> ledger.storage_ready)),
        usage matches Some(usage) ==> {
            let ledger = reading->Some_0;
            &&& (usage.total_tokens, usage.cost_usd, usage.cost_pricing_available, usage.usage_available)
                == ledger.totals->Some_0
            &&& usage.cost_tracking_available == ledger.enabled
        },
{
}

/// A small amount that four decimals would show as nothing is shown by its
/// exponent; every other amount is shown by four decimals.
pub proof fn law_small_amounts_are_shown(value: Usd, four_decimals: String, exponent_form: String, r: String)
    requires
        call_ensures(amount_digits, (value, four_decimals, exponent_form), r),
    ensures
        r == four_decimals || r == exponent_form,
        value.positive() && four_decimals@ == "0.0000"@ ==> r == exponent_form,
        !value.positive() || four_decimals@ != "0.0000"@ ==> r == four_decimals,
{
}

/// A recovered goal is told of by its id, its objective and its budget.
pub proof fn law_recovered_goal_is_told_of(goal: &GoalTaskRecord, usage: Option<GoalUsageTotals>, r: Text)
    requires
        call_ensures(goal_recovery_status_message, (goal, usage), r),
    ensures
        r == Text::Message(
            "goal-command-recovered",
            Box::new(
                Args::Arg(
                    "task_id",
                    Text::Plain(goal.task_id),
                    Box::new(
                        Args::Arg(
                            "objective",
                            Text::Plain(goal.objective),
                            Box::new(Args::Arg("budget", budget_summary(goal@, usage), Box::new(Args::End))),
                        ),
                    ),
                ),
            ),
        ),
{
}

/// The goals that are revoked are exactly those that may not run on.
pub proof fn law_revoked_goals_are_those_not_allowed(
    bindings: &Vec<ActiveGoalControlBinding>,
    policy: &GoalPolicy,
    r: Vec<String>,
    i: int,
    k: int,
    on: bool,
)
    requires
        call_ensures(goal_ids_revoked_by_config, (bindings, policy), r),
        0 <= i < bindings@.len(),
        0 <= k < r@.len(),
        call_ensures(goal_control_binding_is_allowed, (&bindings@[i], policy), on),
    ensures
        on == allowed(bindings@[i], *policy),
        !on ==> r@.contains(bindings@[i].task_id),
        exists|j: int|
            0 <= j < bindings@.len() && !allowed(#[trigger] bindings@[j], *policy) && bindings@[j].task_id == r@[k],
{
    lemma_revoked(bindings@, *policy);
    assert(r@.contains(r@[k]));
}

proof fn lemma_revoked(bindings: Seq<ActiveGoalControlBinding>, policy: GoalPolicy)
    ensures
        ({
            let ids = super::policy::revoked_ids(bindings, policy);
            &&& forall|i: int|
                0 <= i < bindings.len() && !allowed(#[trigger] bindings[i], policy) ==> ids.contains(
                    bindings[i].task_id,
                )
            &&& forall|id: String| #[trigger]
                ids.contains(id) ==> exists|j: int|
                    0 <= j < bindings.len() && !allowed(#[trigger] bindings[j], policy) && bindings[j].task_id == id
        }),
    decreases bindings.len(),
{
    if bindings.len() > 0 {
        let front = bindings.drop_last();
        let last = bindings.last();
        lemma_revoked(front, policy);
        assert(bindings =~= front.push(last));
        super::rules::law_which_goals_are_revoked(front, last, policy);
        let before = super::policy::revoked_ids(front, policy);
        let ids = super::policy::revoked_ids(bindings, policy);
        assert forall|i: int| 0 <= i < bindings.len() && !allowed(#[trigger] bindings[i], policy) implies ids.contains(
            bindings[i].task_id,
        ) by {
            if i < front.len() {
                assert(before.contains(front[i].task_id));
                let k = choose|k: int| 0 <= k < before.len() && before[k] == front[i].task_id;
                assert(ids[k] == front[i].task_id);
            } else {
                assert(ids[before.len() as int] == last.task_id);
            }
        }
        assert forall|id: String| #[trigger] ids.contains(id) implies exists|j: int|
            0 <= j < bindings.len() && !allowed(#[trigger] bindings[j], policy) && bindings[j].task_id == id by {
            let k = choose|k: int| 0 <= k < ids.len() && ids[k] == id;
            if k < before.len() {
                assert(before[k] == id);
                assert(before.contains(id));
                let j = choose|j: int|
                    0 <= j < front.len() && !allowed(#[trigger] front[j], policy) && front[j].task_id == id;
                assert(bindings[j] == front[j]);
            } else {
                assert(bindings[front.len() as int] == last);
            }
        }
    }
}

// ---------------------------------------------------------------- live turns
/// A live turn is bound to a goal that it is not kept from, and stays bound to
/// the one that it has; nothing but the goal of its context changes.
pub proof fn law_turn_is_bound(scope: &mut Option<GoalRuntimeScope>, task_id: &str, r: bool)
    requires
        call_ensures(bind_current_goal_task, (scope, task_id), r),
    ensures
        *old(scope) is None ==> !r && *final(scope) is None,
        *old(scope) matches Some(before) ==> {
            &&& *final(scope) is Some
            &&& {
                let after = final(scope)->Some_0;
                let context = before.admission_binding.context;
                &&& r <==> !blank(task_id@) && !before.admission_binding.reserved_for_admission && (
                context matches Some(context) && (context.goal_task_id is None || context.goal_task_id->Some_0@
                    == task_id@))
                &&& !r ==> after == before
                &&& r ==> {
                    &&& after.admission_binding.context is Some
                    &&& after.admission_binding.context->Some_0.goal_task_id matches Some(id) && id@ == task_id@
                    &&& after.admission_binding.context->Some_0 == (GoalAdmissionContext {
                        goal_task_id: after.admission_binding.context->Some_0.goal_task_id,
                        ..context->Some_0
                    })
                    &&& after.admission_binding.reserved_for_admission
                        == before.admission_binding.reserved_for_admission
                    &&& after.turn_evaluation_requested == before.turn_evaluation_requested
                }
            }
        },
{
}

/// A binding is free exactly where it can be reserved; a reservation is held
/// then, and nothing else of the turn changes.
pub proof fn law_binding_is_reserved(
    scope: &mut Option<GoalRuntimeScope>,
    free: Result<(), GoalError>,
    r: Result<GoalTaskBindingReservation, GoalError>,
    held: bool,
    now_held: bool,
)
    requires
        call_ensures(ensure_current_goal_task_binding_available, (old(scope),), free),
        call_ensures(current_goal_task_binding_is_reserved, (old(scope),), held),
        call_ensures(reserve_current_goal_task_binding, (scope,), r),
        call_ensures(current_goal_task_binding_is_reserved, (final(scope),), now_held),
    ensures
        held <==> (*old(scope) matches Some(scope) && scope.admission_binding.reserved_for_admission),
        free is Ok <==> r is Ok,
        free is Ok <==> (*old(scope) matches Some(scope) && !held && (
        scope.admission_binding.context matches Some(context) && context.goal_task_id is None)),
        r is Err ==> *final(scope) == *old(scope) && now_held == held,
        r matches Ok(reservation) ==> {
            &&& reservation.active
            &&& now_held
            &&& final(scope)->Some_0.admission_binding.context == old(scope)->Some_0.admission_binding.context
            &&& final(scope)->Some_0.turn_evaluation_requested == old(scope)->Some_0.turn_evaluation_requested
        },
        (*old(scope) matches Some(scope) ==> scope.admission_binding.context is None) ==> free == Err::<(), GoalError>(
            GoalError { text: Text::Fixed("goal admission context unavailable"), cause: None },
        ),
        free is Err && (*old(scope) matches Some(scope) && scope.admission_binding.context is Some) ==> free == Err::<
            (),
            GoalError,
        >(GoalError { text: Text::Fixed("goal admission already has an exact live task binding"), cause: None }),
{
}

/// A reservation that is given up frees the binding, once; one that is bound
/// leads to its goal and frees the binding too.
pub proof fn law_reservation_ends(
    released: &mut GoalTaskBindingReservation,
    free: &mut GoalRuntimeScope,
    bound: &mut GoalTaskBindingReservation,
    scope: &mut GoalRuntimeScope,
    task_id: String,
    r: bool,
)
    requires
        call_ensures(GoalTaskBindingReservation::release, (released, free), ()),
        call_ensures(GoalTaskBindingReservation::bind, (bound, scope, task_id), r),
    ensures
        !final(released).active,
        !old(released).active ==> *final(free) == *old(free),
        old(released).active ==> !final(free).admission_binding.reserved_for_admission
            && final(free).admission_binding.context == old(free).admission_binding.context
            && final(free).turn_evaluation_requested == old(free).turn_evaluation_requested,
        !old(bound).active || task_id@.len() == 0 ==> !r && *final(scope) == *old(scope) && final(bound).active
            == old(bound).active,
        old(bound).active && task_id@.len() > 0 ==> {
            let context = old(scope).admission_binding.context;
            &&& !final(bound).active
            &&& !final(scope).admission_binding.reserved_for_admission
            &&& final(scope).turn_evaluation_requested == old(scope).turn_evaluation_requested
            &&& r <==> old(scope).admission_binding.reserved_for_admission && (context matches Some(context)
                && context.goal_task_id is None)
            &&& r ==> final(scope).admission_binding.context == Some(
                GoalAdmissionContext { goal_task_id: Some(task_id), ..context->Some_0 },
            )
            &&& !r ==> final(scope).admission_binding.context == context
        },
{
}

/// A turn that was marked is to be evaluated if anyone listens, and so is every
/// turn with its marker; a new marker asks for nothing and changes no other.
pub proof fn law_turn_is_marked(
    scope: &Option<GoalRuntimeScope>,
    other: &Option<GoalRuntimeScope>,
    markers: &mut TurnMarkers,
    more: &mut TurnMarkers,
    marker: Option<usize>,
    theirs: Option<usize>,
    wanted: bool,
    before: bool,
    after: bool,
    added: usize,
)
    requires
        call_ensures(current_goal_turn_evaluation_marker, (scope,), marker),
        call_ensures(current_goal_turn_evaluation_marker, (other,), theirs),
        call_ensures(mark_current_goal_turn_for_evaluation, (scope, markers), ()),
        call_ensures(current_goal_turn_evaluation_requested, (scope, final(markers)), wanted),
        call_ensures(current_goal_turn_evaluation_requested, (other, old(markers)), before),
        call_ensures(current_goal_turn_evaluation_requested, (other, final(markers)), after),
        call_ensures(TurnMarkers::add_marker, (more,), added),
    ensures
        marker == (match *scope {
            Some(scope) => scope.turn_evaluation_requested,
            None => None,
        }),
        wanted <==> (marker matches Some(marker) && marker < old(markers).requested@.len()),
        theirs == marker ==> after == wanted,
        theirs != marker ==> after == before,
        before ==> after,
        final(markers).requested@.len() == old(markers).requested@.len(),
        added == old(more).requested@.len(),
        final(more).requested@ == old(more).requested@.push(false),
{
}

/// A batch that admits a goal, or that is inside one that does, is known as
/// one; without a batch there is nothing to know.
pub proof fn law_batch_is_known(outer: Option<bool>, admits: bool, inner: Option<bool>, asked: bool)
    requires
        call_ensures(scope_goal_start_tool_batch, (outer, admits), inner),
        call_ensures(current_goal_start_tool_batch_requested, (inner,), asked),
    ensures
        inner is Some,
        asked <==> admits || outer == Some(true),
        inner == Some(asked),
{
}

/// A scope is made of what it is given, with nothing reserved; a scope with
/// another context or another marker keeps the rest.
pub proof fn law_scope_holds_what_it_is_given(
    context: Option<GoalAdmissionContext>,
    marker: Option<usize>,
    scope: GoalRuntimeScope,
    made: GoalRuntimeScope,
    moved: GoalRuntimeScope,
    listened: GoalRuntimeScope,
)
    requires
        call_ensures(GoalRuntimeScope::new, (context, marker), made),
        call_ensures(GoalRuntimeScope::with_admission_context, (scope, context), moved),
        call_ensures(GoalRuntimeScope::with_turn_evaluation_marker, (scope, marker), listened),
    ensures
        made.admission_binding.context == context,
        !made.admission_binding.reserved_for_admission,
        made.turn_evaluation_requested == marker,
        moved.admission_binding.context == context,
        !moved.admission_binding.reserved_for_admission,
        moved.turn_evaluation_requested == scope.turn_evaluation_requested,
        listened.admission_binding == scope.admission_binding,
        listened.turn_evaluation_requested == marker,
{
}

/// A new context is of its agent, on a channel, and says nothing else; each
/// part that is given to it afterwards is its own and changes no other.
pub proof fn law_context_holds_what_it_is_given(
    agent: String,
    made: GoalAdmissionContext,
    ctx: GoalAdmissionContext,
    surface: CommandSurface,
    text: Option<String>,
    other: Option<String>,
    place: Option<TaskContinuationContext>,
    on_surface: GoalAdmissionContext,
    typed: GoalAdmissionContext,
    routed: GoalAdmissionContext,
    owned: GoalAdmissionContext,
    known: GoalAdmissionContext,
    bound: GoalAdmissionContext,
    placed: GoalAdmissionContext,
)
    requires
        call_ensures(GoalAdmissionContext::new, (agent,), made),
        call_ensures(GoalAdmissionContext::with_command_surface, (ctx, surface), on_surface),
        call_ensures(GoalAdmissionContext::with_channel_type, (ctx, text), typed),
        call_ensures(GoalAdmissionContext::with_originator_route, (ctx, text), routed),
        call_ensures(GoalAdmissionContext::with_principal_id, (ctx, text), owned),
        call_ensures(GoalAdmissionContext::with_legacy_identity, (ctx, text, other), known),
        call_ensures(GoalAdmissionContext::with_goal_task_id, (ctx, text), bound),
        call_ensures(GoalAdmissionContext::with_continuation_context, (ctx, place), placed),
    ensures
        made.agent_alias == agent && made.command_surface is Channel && made.channel_type is None
            && made.originator_route is None && made.principal_id is None && made.legacy_originator_route is None
            && made.legacy_principal_id is None && made.goal_task_id is None && made.continuation_context is None,
        on_surface == (GoalAdmissionContext { command_surface: surface, ..ctx }),
        typed == (GoalAdmissionContext { channel_type: text, ..ctx }),
        routed == (GoalAdmissionContext { originator_route: text, ..ctx }),
        owned == (GoalAdmissionContext { principal_id: text, ..ctx }),
        known == (GoalAdmissionContext { legacy_originator_route: text, legacy_principal_id: other, ..ctx }),
        bound == (GoalAdmissionContext { goal_task_id: text, ..ctx }),
        placed == (GoalAdmissionContext { continuation_context: place, ..ctx }),
{
}

// ---------------------------------------------------------------- replies
/// A reply that was given is waited for no longer and is taken as it is; where
/// there is none yet the request is made; a store that failed, or another
/// reply, is a failure, and says in which context.
pub proof fn law_replies_are_taken(
    request: AskedView,
    context: Text,
    replies: Seq<GoalReply>,
    from: usize,
    task_id: String,
    access: LedgerAccess,
)
    requires
        from < usize::MAX,
    ensures
        from >= replies.len() ==> {
            &&& task_reply(request, Some(context), replies, from) == StepView::<Option<TaskRecord>>::Ask(request)
            &&& goal_reply(request, Some(context), replies, from) == StepView::<Option<GoalTaskView>>::Ask(request)
            &&& continuation_reply(request, replies, from) == StepView::<Option<TaskContinuationContext>>::Ask(request)
            &&& applied_reply(request, Some(context), replies, from) == StepView::<bool>::Ask(request)
            &&& done_reply(request, Some(context), replies, from) == StepView::<()>::Ask(request)
            &&& usage_reply(task_id, access, replies, from) == StepView::<Option<GoalUsageTotals>>::Ask(
                GoalRequest::ReadUsage { task_id, access },
            )
        },
        from < replies.len() ==> {
            let next = (from + 1) as usize;
            match replies[from as int] {
                GoalReply::Task(task) => task_reply(request, Some(context), replies, from) == StepView::Ready(task, next),
                GoalReply::Goal(None) => goal_reply(request, Some(context), replies, from) == StepView::Ready(
                    None::<GoalTaskView>,
                    next,
                ),
                GoalReply::Goal(Some(goal)) => goal_reply(request, Some(context), replies, from) == StepView::Ready(
                    Some(goal@),
                    next,
                ),
                GoalReply::Continuation(place) => continuation_reply(request, replies, from) == StepView::Ready(
                    place,
                    next,
                ),
                GoalReply::Applied(applied) => applied_reply(request, Some(context), replies, from) == StepView::Ready(
                    applied,
                    next,
                ),
                GoalReply::Done => done_reply(request, Some(context), replies, from) == StepView::Ready((), next),
                GoalReply::Usage(usage) => usage_reply(task_id, access, replies, from) == StepView::Ready(usage, next),
                GoalReply::Failed(error) => {
                    let told = GoalError { text: context, cause: Some(Box::new(error)) };
                    &&& task_reply(request, Some(context), replies, from) == StepView::<Option<TaskRecord>>::Fail(told)
                    &&& goal_reply(request, Some(context), replies, from) == StepView::<Option<GoalTaskView>>::Fail(told)
                    &&& continuation_reply(request, replies, from) == StepView::<Option<TaskContinuationContext>>::Fail(
                        error,
                    )
                    &&& applied_reply(request, Some(context), replies, from) == StepView::<bool>::Fail(told)
                    &&& done_reply(request, Some(context), replies, from) == StepView::<()>::Fail(told)
                    &&& task_reply(request, None, replies, from) == StepView::<Option<TaskRecord>>::Fail(error)
                    &&& usage_reply(task_id, access, replies, from) is Fail
                },
                _ => task_reply(request, Some(context), replies, from) is Fail,
            }
        },
{
}

/// A channel may carry on a goal of the agent that the last entry for it names,
/// and of no other.
pub proof fn law_channel_is_of_its_agent(
    agent: &str,
    channel_type: &str,
    context: &TaskContinuationContext,
    front: Seq<EnabledChannel>,
    last: EnabledChannel,
    enabled: &Vec<EnabledChannel>,
    r: bool,
)
    requires
        call_ensures(goal_channel_binding_is_allowed, (agent, channel_type, context, enabled), r),
        enabled@ == front.push(last),
    ensures
        context.channel_alias is None ==> !r,
        context.channel_alias matches Some(alias) ==> {
            let wanted = channel_type@ + seq!['.'] + alias@;
            if last.reference@ == wanted {
                r <==> last.owner@ == agent@
            } else {
                r <==> listed_owner(front, wanted) == Some(agent@)
            }
        },
        listed_owner(Seq::<EnabledChannel>::empty(), agent@) is None,
{
    reveal_strlit(".");
    assert("."@ =~= seq!['.']);
    assert(front.push(last).drop_last() =~= front);
}

} // verus!
