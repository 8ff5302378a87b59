//! What callers can rely on: how a command reaches the controller and its
//! execution, which settings and identities are made, and what is said.
use vstd::prelude::*;
#[allow(unused_imports)]
use vstd::string::*;

use super::controller::{
    answer, answer_view, read_request, transition, AdmittedCommand, GoalController, GoalTicket, NewSessionGoal,
    Progress, RegistryReply, RegistryRequest,
};
use super::host::{
    GoalExecutionHost, GoalExecutionRequest, GoalRetainedTranscript, GoalRuntime, GoalRuntimeSubmission, GoalSubmission,
    HostStep,
};
use super::identity::fixed_failure;
use super::prompt::{
    directive_text, goal_parent_directive, goal_parent_execution_request, goal_parent_system_message,
    goal_verifier_messages, paused_request_of, verifier_question, ChatMessage, GoalParentTurn,
    GoalPausedRequest, GoalVerifierTurn, VERIFIER_RULES,
};
use super::session::{
    ingress_error, matrix_key_error, scope_error, zero_code_key_error, GoalExecutionScope, GoalIngressContext,
    GoalIngressPrincipal, GoalSessionKey, GoalSessionLease,
};
use super::settings::{goal_command_kind, settings_error, GoalBudgetLimits, GoalHostSettings, SessionGoalCommand};
use super::status::{GoalResponse, ResponseView, Shown};
use super::terminal::{durable_terminal_record, first_line, further_lines, split_durable_terminal_record, terminal_record};
use crate::error::GoalError;
use crate::goal_task::{GoalBlockerKind, GoalTaskRecord, GoalTransitionResult};
use crate::message::{items_spelled_out, spelled_out, Text, Texts};
use crate::task::TaskRecord;
use crate::text::{opt_view, trimmed};

verus! {

// ---------------------------------------------------------------- controller
/// A command is answered by the same steps whether or not its caller wants to
/// know what the goal was waiting for; the answer is the same too.
pub proof fn law_submission_is_answered(
    controller: &GoalController,
    settings: &GoalHostSettings,
    submission: &AdmittedCommand,
    ticket: &GoalTicket,
    replies: &Vec<RegistryReply>,
    r: Progress<GoalResponse>,
    with_request: Progress<(GoalResponse, Option<GoalPausedRequest>)>,
)
    requires
        call_ensures(GoalController::submit, (controller, settings, submission, ticket, replies), r),
        call_ensures(
            GoalController::submit_with_resume_context,
            (controller, settings, submission, ticket, replies),
            with_request,
        ),
    ensures
        answer_view(with_request) == answer(*settings, *submission, *ticket, replies@),
        match with_request {
            Progress::Ask(request) => r == Progress::<GoalResponse>::Ask(request),
            Progress::Fail(error) => r == Progress::<GoalResponse>::Fail(error),
            Progress::Ready(answered, next) => r matches Progress::Ready(response, used) && response@ == answered.0@
                && used == next,
        },
{
}

/// A reply of the registry is taken as it is, and the request is made where
/// there is none yet; a registry that failed is passed on, and any other reply
/// is a failure.
pub proof fn law_registry_replies_are_taken(
    request: RegistryRequest,
    task_id: String,
    replies: Seq<RegistryReply>,
    from: usize,
)
    requires
        from < usize::MAX,
    ensures
        from >= replies.len() ==> transition(request, replies, from) == Progress::<GoalTransitionResult>::Ask(request)
            && read_request(task_id, replies, from) == Progress::<Option<(GoalBlockerKind, Seq<char>)>>::Ask(
            RegistryRequest::Extension { task_id },
        ),
        from < replies.len() ==> {
            let made = transition(request, replies, from);
            let read = read_request(task_id, replies, from);
            match replies[from as int] {
                RegistryReply::Transition(result) => made == Progress::Ready(result, (from + 1) as usize) && read is Fail,
                RegistryReply::Extension(None) => made is Fail && read == Progress::Ready(
                    None::<(GoalBlockerKind, Seq<char>)>,
                    (from + 1) as usize,
                ),
                RegistryReply::Extension(Some(goal)) => made is Fail && read == Progress::Ready(
                    paused_request_of(goal.blockers@),
                    (from + 1) as usize,
                ),
                RegistryReply::Failed(error) => made == Progress::<GoalTransitionResult>::Fail(error) && read
                    == Progress::<Option<(GoalBlockerKind, Seq<char>)>>::Fail(error),
                _ => made is Fail && read is Fail,
            }
        },
{
}

/// An answer is known by its kind and by the state that it shows.
pub proof fn law_answers_are_told_apart(a: GoalResponse, b: GoalResponse)
    ensures
        a@ == b@ ==> match a {
            GoalResponse::Help => b is Help,
            GoalResponse::Disabled => b is Disabled,
            GoalResponse::Started(shown) => b matches GoalResponse::Started(other) && shown@ == other@,
            GoalResponse::Status(shown) => b matches GoalResponse::Status(other) && shown@ == other@,
            GoalResponse::Budget(shown) => b matches GoalResponse::Budget(other) && shown@ == other@,
            GoalResponse::BudgetUpdated(shown) => b matches GoalResponse::BudgetUpdated(other) && shown@ == other@,
            GoalResponse::Paused(shown) => b matches GoalResponse::Paused(other) && shown@ == other@,
            GoalResponse::AlreadyPaused(shown) => b matches GoalResponse::AlreadyPaused(other) && shown@ == other@,
            GoalResponse::Resumed(shown) => b matches GoalResponse::Resumed(other) && shown@ == other@,
            GoalResponse::Cancelled(shown) => b matches GoalResponse::Cancelled(other) && shown@ == other@,
            GoalResponse::AlreadyCancelled(shown) => b matches GoalResponse::AlreadyCancelled(other) && shown@
                == other@,
            GoalResponse::NoCurrentGoal => b is NoCurrentGoal,
            GoalResponse::AlreadyActive => b is AlreadyActive,
            GoalResponse::ResponseRequiresPause => b is ResponseRequiresPause,
            GoalResponse::Terminal(shown) => b matches GoalResponse::Terminal(other) && shown@ == other@,
            GoalResponse::Stale => b is Stale,
        },
        a matches GoalResponse::Started(shown) ==> a@ == ResponseView::Shown(Shown::Started, shown@),
        a matches GoalResponse::Resumed(shown) ==> a@ == ResponseView::Shown(Shown::Resumed, shown@),
        a matches GoalResponse::Paused(shown) ==> a@ == ResponseView::Shown(Shown::Paused, shown@),
        a matches GoalResponse::Cancelled(shown) ==> a@ == ResponseView::Shown(Shown::Cancelled, shown@),
        a matches GoalResponse::Terminal(shown) ==> a@ == ResponseView::Shown(Shown::Terminal, shown@),
{
}

/// A resident supervisor is let go after a pause, a cancellation or an end, and
/// after nothing else.
pub proof fn law_when_a_supervisor_is_let_go(response: &GoalResponse, r: bool)
    requires
        call_ensures(GoalResponse::retires_resident_supervisor, (response,), r),
    ensures
        r <==> response is Paused || response is Cancelled || response is Terminal,
{
}

// ---------------------------------------------------------------- host
/// A command that needs no session is done at once, without one; any other is
/// bound to its session unless it is refused, with its own speaker, driver and
/// words.
pub proof fn law_command_is_bound<D, G>(
    host: &GoalExecutionHost,
    settings: &GoalHostSettings,
    ingress: GoalIngressContext,
    driver: D,
    driver_key: &GoalSessionKey,
    command: SessionGoalCommand,
    refusal: Option<String>,
    r: HostStep<D, G>,
)
    requires
        call_ensures(
            GoalExecutionHost::submit::<D, G>,
            (host, settings, ingress, driver, driver_key, command, refusal),
            r,
        ),
    ensures
        command is Help || !settings.on() ==> (r matches HostStep::Done(done) && done.ingress == ingress && done.command
            == command && done.bound is None),
        !(command is Help) && settings.on() ==> {
            if driver_key.words() != ingress.key().words() {
                r == HostStep::<D, G>::Fail(fixed_failure("Goal session driver does not match trusted ingress"))
            } else if refusal is Some && (command matches SessionGoalCommand::Resume { response } && response is Some) {
                r == HostStep::<D, G>::Fail(GoalError { text: Text::Plain(refusal->Some_0), cause: None })
            } else {
                r == HostStep::<D, G>::Bind(ingress, driver, command)
            }
        },
{
}

/// A lease is accepted for the session of the speaker and for no other, at
/// admission and at execution.
pub proof fn law_lease_is_of_the_session<D, G>(
    host: &GoalExecutionHost,
    ingress: GoalIngressContext,
    driver: D,
    command: SessionGoalCommand,
    lease: GoalSessionLease<G>,
    bound: Result<GoalSubmission<D, G>, GoalError>,
    confirmed: Result<(), GoalError>,
)
    requires
        call_ensures(GoalExecutionHost::bound::<D, G>, (host, ingress, driver, command, lease), bound),
        call_ensures(
            GoalExecutionHost::confirm_execution,
            (host, &ingress, &lease.binding.session_key),
            confirmed,
        ),
    ensures
        bound is Ok <==> lease.binding.session_key.words() == ingress.key().words(),
        confirmed is Ok <==> bound is Ok,
        bound matches Ok(submission) ==> submission.ingress == ingress && submission.command == command && (
        submission.bound matches Some(session) && session.driver == driver && session.lease == lease),
        bound matches Err(error) ==> error == fixed_failure("Goal session binding does not match trusted ingress"),
        confirmed matches Err(error) ==> error == fixed_failure(
            "Goal execution lease session key does not match trusted ingress",
        ),
{
}

/// Only a started or resumed goal is executed: at its own epoch, in the session
/// of the speaker, from the start or from where it was resumed, with the
/// response and the request that go with it. Any other answer hands the lease
/// back.
pub proof fn law_answer_leads_to_its_execution<D, G>(
    runtime: &GoalRuntime,
    submission: GoalSubmission<D, G>,
    response: GoalResponse,
    paused_request: Option<GoalPausedRequest>,
    r: Result<GoalRuntimeSubmission<D, G>, GoalError>,
)
    requires
        call_ensures(GoalRuntime::submit::<D, G>, (runtime, submission, response, paused_request), r),
    ensures
        r matches Ok(outcome) ==> outcome.response == response,
        !(response is Started) && !(response is Resumed) ==> (r matches Ok(outcome) && outcome.execution is None
            && outcome.lease == (match submission.bound {
            Some(session) => Some(session.lease),
            None => None,
        })),
        response is Started || response is Resumed ==> {
            let state = if response is Started {
                response->Started_0
            } else {
                response->Resumed_0
            };
            match scope_error(state.task_id@, submission.ingress.key().id(), state.execution_epoch) {
                Some(error) => r == Err::<GoalRuntimeSubmission<D, G>, GoalError>(error),
                None => r is Ok && r->Ok_0.lease is None && r->Ok_0.execution is Some && {
                    let execution = r->Ok_0.execution->Some_0;
                    &&& execution.submission == submission
                    &&& execution.scope.goal() == state.task_id
                    &&& execution.scope.session()@ == submission.ingress.key().id()
                    &&& execution.scope.epoch() == state.execution_epoch
                    &&& execution.initial_turn_kind is Start <==> response is Started
                    &&& execution.initial_turn_kind is Resume <==> response is Resumed
                    &&& execution.paused_request == paused_request
                    &&& execution.retained_transcript is None
                    &&& match submission.command {
                        SessionGoalCommand::Resume { response: given } => execution.resume_response == given,
                        _ => execution.resume_response is None,
                    }
                },
            }
        },
{
}

/// An execution is granted by the runtime exactly as by its host, for the scope
/// of the request.
pub proof fn law_execution_is_granted<D, G>(
    runtime: &GoalRuntime,
    host: &GoalExecutionHost,
    settings: &GoalHostSettings,
    request: GoalExecutionRequest<D, G>,
    driver_key: &GoalSessionKey,
    r: Result<(GoalIngressContext, D), GoalError>,
    by_host: Result<(GoalIngressContext, D), GoalError>,
)
    requires
        call_ensures(GoalRuntime::acquire_execution::<D, G>, (runtime, settings, request, driver_key), r),
        call_ensures(
            GoalExecutionHost::acquire_execution::<D, G>,
            (host, settings, request.submission, driver_key, &request.scope),
            by_host,
        ),
    ensures
        r == by_host,
        r is Ok <==> settings.on() && request.submission.bound is Some && driver_key.words()
            == request.submission.ingress.key().words() && request.scope.session()@
            == request.submission.ingress.key().id(),
        r matches Ok(granted) ==> granted == (request.submission.ingress, request.submission.bound->Some_0.driver),
{
}

/// A request to execute keeps all that it holds when a transcript is added.
pub proof fn law_transcript_is_added<D, G>(
    request: GoalExecutionRequest<D, G>,
    transcript: GoalRetainedTranscript,
    r: GoalExecutionRequest<D, G>,
)
    requires
        call_ensures(GoalExecutionRequest::<D, G>::with_retained_transcript, (request, transcript), r),
    ensures
        r.retained_transcript == Some(transcript),
        r.submission == request.submission,
        r.scope == request.scope,
        r.initial_turn_kind == request.initial_turn_kind,
        r.resume_response == request.resume_response,
        r.paused_request == request.paused_request,
{
}

// ---------------------------------------------------------------- settings
/// Settings hold what they are made of, the owner's name without the white
/// space round it. Enabled goals without any limit are accepted from a
/// configuration only.
pub proof fn law_settings_hold_what_they_are_given(
    enabled: bool,
    limits: GoalBudgetLimits,
    owner_pid: u32,
    boot_id: String,
    r: Result<GoalHostSettings, GoalError>,
    configured: Result<GoalHostSettings, GoalError>,
)
    requires
        call_ensures(GoalHostSettings::new, (enabled, limits, owner_pid, boot_id), r),
        call_ensures(
            GoalHostSettings::from_config,
            (enabled, Ok::<GoalBudgetLimits, String>(limits), owner_pid, boot_id),
            configured,
        ),
    ensures
        r is Ok ==> configured is Ok,
        configured is Ok ==> (r is Ok <==> !enabled || limits.token_limit is Some || limits.cost_limit_usd is Some),
        r matches Err(error) ==> settings_error(enabled, limits, boot_id@) == Some(error),
        r matches Ok(settings) ==> {
            &&& settings.on() == enabled
            &&& settings.defaults() == limits
            &&& settings.pid() == owner_pid
            &&& settings.boot()@ == trimmed(boot_id@)
        },
        configured matches Ok(settings) ==> {
            &&& settings.on() == enabled
            &&& settings.defaults() == limits
            &&& settings.pid() == owner_pid
            &&& settings.boot()@ == trimmed(boot_id@)
        },
{
}

/// A configuration that cannot say its limits makes no settings.
pub proof fn law_unreadable_limits_make_no_settings(
    enabled: bool,
    detail: String,
    owner_pid: u32,
    boot_id: String,
    r: Result<GoalHostSettings, GoalError>,
)
    requires
        call_ensures(
            GoalHostSettings::from_config,
            (enabled, Err::<GoalBudgetLimits, String>(detail), owner_pid, boot_id),
            r,
        ),
    ensures
        r is Err,
        r->Err_0.cause is None,
        spelled_out(r->Err_0.text) == Some("Goal configuration is invalid: "@ + detail@),
{
    reveal_strlit("");
    let last = Texts::Item(Text::Plain(detail), Box::new(Texts::End));
    let first = Text::Fixed("Goal configuration is invalid: ");
    assert(spelled_out(Text::Plain(detail)) == Some(detail@));
    assert(spelled_out(first) == Some("Goal configuration is invalid: "@));
    assert(items_spelled_out(""@, Texts::End) == Some(Seq::<char>::empty()));
    assert(items_spelled_out(""@, last) == Some(detail@));
    assert(items_spelled_out(""@, Texts::Item(first, Box::new(last))) == Some(
        "Goal configuration is invalid: "@ + ""@ + detail@,
    ));
    assert("Goal configuration is invalid: "@ + ""@ + detail@ =~= "Goal configuration is invalid: "@ + detail@);
}

/// Each command has a kind of its own.
pub proof fn law_each_command_has_its_kind(
    a: &SessionGoalCommand,
    b: &SessionGoalCommand,
    one: &'static str,
    other: &'static str,
)
    requires
        call_ensures(goal_command_kind, (a,), one),
        call_ensures(goal_command_kind, (b,), other),
        one@ == other@,
    ensures
        match *a {
            SessionGoalCommand::Start { .. } => one == "start" && *b is Start,
            SessionGoalCommand::Status => one == "status" && *b is Status,
            SessionGoalCommand::Budget => one == "budget" && *b is Budget,
            SessionGoalCommand::SetBudget(_) => one == "budget_set" && *b is SetBudget,
            SessionGoalCommand::Pause => one == "pause" && *b is Pause,
            SessionGoalCommand::PauseNow => one == "pause_now" && *b is PauseNow,
            SessionGoalCommand::Resume { .. } => one == "resume" && *b is Resume,
            SessionGoalCommand::Cancel => one == "cancel" && *b is Cancel,
            SessionGoalCommand::Help => one == "help" && *b is Help,
        },
{
    reveal_strlit("start");
    reveal_strlit("status");
    reveal_strlit("budget");
    reveal_strlit("budget_set");
    reveal_strlit("pause");
    reveal_strlit("pause_now");
    reveal_strlit("resume");
    reveal_strlit("cancel");
    reveal_strlit("help");
    assert("start"@[0] == 's' && "status"@[0] == 's' && "budget"@[0] == 'b' && "pause"@[0] == 'p' && "resume"@[0] == 'r'
        && "cancel"@[0] == 'c');
    assert("start"@.len() == 5 && "status"@.len() == 6 && "budget"@.len() == 6 && "budget_set"@.len() == 10
        && "pause"@.len() == 5 && "pause_now"@.len() == 9 && "resume"@.len() == 6 && "cancel"@.len() == 6
        && "help"@.len() == 4);
}

// ---------------------------------------------------------------- identities
/// A key is made of exactly the text that it is given, and is of its surface;
/// what is refused is refused by the rules of that surface.
pub proof fn law_key_is_made(
    text: String,
    sanitized: &str,
    matrix: Result<GoalSessionKey, GoalError>,
    zero_code: Result<GoalSessionKey, GoalError>,
)
    requires
        call_ensures(GoalSessionKey::matrix, (text, sanitized), matrix),
        call_ensures(GoalSessionKey::zero_code, (text, sanitized), zero_code),
    ensures
        matrix is Ok ==> zero_code is Ok,
        match matrix_key_error(text@, sanitized@) {
            Some(error) => matrix == Err::<GoalSessionKey, GoalError>(error),
            None => matrix == Ok::<GoalSessionKey, GoalError>(GoalSessionKey::Matrix { history_key: text }),
        },
        match zero_code_key_error(text@, sanitized@) {
            Some(error) => zero_code == Err::<GoalSessionKey, GoalError>(error),
            None => zero_code == Ok::<GoalSessionKey, GoalError>(GoalSessionKey::ZeroCode { raw_session_id: text }),
        },
{
}

/// A speaker who is accepted is known as they came: their session, their name,
/// and the agent and the route without white space round them.
pub proof fn law_speaker_is_trusted(
    key: GoalSessionKey,
    agent: String,
    route: String,
    principal: GoalIngressPrincipal,
    r: Result<GoalIngressContext, GoalError>,
    r_principal: Option<String>,
)
    requires
        call_ensures(GoalIngressContext::trusted, (key, agent, route, principal), r),
        r is Ok ==> call_ensures(GoalIngressContext::durable_principal_id, (&r->Ok_0,), r_principal),
    ensures
        match ingress_error(key, agent@, route@, principal) {
            Some(error) => r == Err::<GoalIngressContext, GoalError>(error),
            None => r matches Ok(ingress) && ingress.key() == key && ingress.speaker() == principal
                && ingress.addressed()@ == trimmed(agent@) && ingress.came_by()@ == trimmed(route@),
        },
        r is Ok ==> match principal {
            GoalIngressPrincipal::Matrix { raw_mxid } => r_principal == Some(raw_mxid),
            GoalIngressPrincipal::ZeroCode { .. } => r_principal is None,
        },
{
}

/// A scope is made of what it is given, unless it is refused.
pub proof fn law_scope_is_made(
    task_id: String,
    session_id: String,
    epoch: i64,
    r: Result<GoalExecutionScope, GoalError>,
)
    requires
        call_ensures(GoalExecutionScope::new, (task_id, session_id, epoch), r),
    ensures
        r is Err <==> scope_error(task_id@, session_id@, epoch) is Some,
        r matches Err(error) ==> scope_error(task_id@, session_id@, epoch) == Some(error),
        r matches Ok(scope) ==> scope.goal() == task_id && scope.session() == session_id && scope.epoch() == epoch,
{
}

// ---------------------------------------------------------------- messages
/// The agent is told by the system what to work on, and asked by the user to
/// proceed; the verifier has its rules from the system and its question from
/// the user.
pub proof fn law_who_says_what(
    turn: &GoalParentTurn,
    prompt: &str,
    words: &str,
    verified: &GoalVerifierTurn,
    directive: ChatMessage,
    whole: ChatMessage,
    request: ChatMessage,
    question: Vec<ChatMessage>,
)
    requires
        call_ensures(goal_parent_directive, (turn,), directive),
        call_ensures(goal_parent_system_message, (prompt, words), whole),
        call_ensures(goal_parent_execution_request, (), request),
        call_ensures(goal_verifier_messages, (verified,), question),
    ensures
        directive.role is System && directive.content@ == directive_text(*turn),
        whole.role is System && whole.content@ == prompt@ + seq!['\n', '\n'] + words@,
        request.role is User && request.content@
            == "Proceed with the Goal work under the trusted runtime directive."@,
        question@.len() == 2,
        question@[0].role is System && question@[0].content@ == VERIFIER_RULES@,
        question@[1].role is User && question@[1].content@ == verifier_question(*verified),
{
    reveal_strlit("\n\n");
    assert("\n\n"@ =~= seq!['\n', '\n']);
}

/// A terminal record is split where it was put together: its first line is the
/// reason, and what follows is shown as its detail.
pub proof fn law_record_is_split(
    reason: &str,
    detail: Option<&str>,
    record: String,
    text: &str,
    sanitized: &str,
    parts: (&str, Option<String>),
)
    requires
        call_ensures(durable_terminal_record, (reason, detail), record),
        text@ == record@,
        call_ensures(split_durable_terminal_record, (text, sanitized), parts),
    ensures
        record@ == terminal_record(
            reason@,
            match detail {
                Some(detail) => Some(detail@),
                None => None,
            },
        ),
        parts.0@ == first_line(record@),
        further_lines(record@) is None ==> parts.1 is None,
        opt_view(parts.1) == super::terminal::shown_detail(record@, sanitized@),
{
}

/// The rows of a new goal: the task as it is, in the session that the goal was
/// started in, and an extension with its objective and limits.
pub proof fn law_new_goal_is_in_its_session(goal: NewSessionGoal, r: (TaskRecord, GoalTaskRecord))
    requires
        call_ensures(NewSessionGoal::into_records, (goal,), r),
    ensures
        r.0.session_id matches Some(session) && session@ == goal.session.id(),
        r.0 == (TaskRecord { session_id: r.0.session_id, ..goal.task }),
        r.1.task_id == goal.task.id,
        r.1.objective == goal.objective,
        r.1.effective_token_limit == goal.limits.token_limit,
        r.1.effective_cost_limit_usd == goal.limits.cost_limit_usd,
        r.1.pause_reason is None && r.1.blockers@.len() == 0,
        r.1.pending_call_id is None && r.1.accounting_state is Complete,
{
}

} // verus!
