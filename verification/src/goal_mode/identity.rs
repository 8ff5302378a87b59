//! What sessions, speakers and executions are identified by, and what the host
//! makes of them.
use vstd::prelude::*;
#[allow(unused_imports)]
use vstd::string::*;

use super::host::{admission_error, executable, executed_state, needs_no_session, response_of, GoalSubmission};
use super::session::{
    identity_error, ingress_error, matrix_key_error, scope_error, zero_code_key_error, GoalExecutionScope,
    GoalIngressContext, GoalIngressPrincipal, GoalSessionKey, GoalSurface,
};
use super::settings::{GoalHostSettings, SessionGoalCommand};
use super::status::GoalResponse;
use crate::error::GoalError;
use crate::message::{Text, Texts};
use crate::text::trimmed;

verus! {

/// A failure in fixed words.
pub open spec fn fixed_failure(words: &'static str) -> GoalError {
    GoalError { text: Text::Fixed(words), cause: None }
}

/// A failure that names what is wrong and says how.
pub open spec fn named_failure(name: &'static str, how: &'static str) -> GoalError {
    GoalError {
        text: Text::Joined(
            "",
            Box::new(
                Texts::Item(Text::Fixed(name), Box::new(Texts::Item(Text::Fixed(how), Box::new(Texts::End)))),
            ),
        ),
        cause: None,
    }
}

/// An identity says something and has no white space at its ends.
pub proof fn law_what_is_an_identity(name: &'static str, value: Seq<char>)
    ensures
        identity_error(name, value) == (if trimmed(value).len() == 0 {
            Some(named_failure(name, " is blank"))
        } else if trimmed(value) != value {
            Some(named_failure(name, " is not canonical"))
        } else {
            None
        }),
{
}

/// The key of a Matrix session is an identity that the sanitizer leaves alone,
/// within the Matrix namespace; that of a ZeroCode session is any such
/// identity.
pub proof fn law_which_keys_are_accepted(key: Seq<char>, sanitized: Seq<char>)
    ensures
        ({
            let identity = trimmed(key).len() > 0 && trimmed(key) == key;
            &&& matrix_key_error(key, sanitized) is None <==> identity && sanitized == key && "matrix_"@.is_prefix_of(
                key,
            )
            &&& zero_code_key_error(key, sanitized) is None <==> identity && sanitized == key
            &&& !identity ==> matrix_key_error(key, sanitized) == identity_error("Matrix history key", key)
                && zero_code_key_error(key, sanitized) == identity_error("ZeroCode session id", key)
            &&& identity && sanitized != key ==> matrix_key_error(key, sanitized) == Some(
                fixed_failure("Matrix Goal history key is not canonical"),
            ) && zero_code_key_error(key, sanitized) == Some(fixed_failure("ZeroCode Goal session id is not canonical"))
            &&& identity && sanitized == key && !"matrix_"@.is_prefix_of(key) ==> matrix_key_error(key, sanitized)
                == Some(fixed_failure("Matrix Goal history key is outside the Matrix namespace"))
        }),
{
}

/// A session is known by its key: on Matrix by the key itself, on ZeroCode by
/// the id behind a prefix of its own.
pub proof fn law_what_a_session_is_known_by(key: GoalSessionKey)
    ensures
        match key {
            GoalSessionKey::Matrix { history_key } => key.on() == GoalSurface::Matrix && key.id() == history_key@
                && key.words() == (GoalSurface::Matrix, history_key@),
            GoalSessionKey::ZeroCode { raw_session_id } => key.on() == GoalSurface::ZeroCode && key.id() == seq![
                'r',
                'p',
                'c',
                '_',
            ] + raw_session_id@ && key.words() == (GoalSurface::ZeroCode, raw_session_id@),
        },
{
    reveal_strlit("rpc_");
    assert("rpc_"@ =~= seq!['r', 'p', 'c', '_']);
}

/// A speaker is accepted who speaks on the surface of the session, is an
/// identity, and names an agent and a route; what is wrong is named in this
/// order. Only a Matrix user is bound to the goals that are started.
pub proof fn law_which_speakers_are_accepted(
    key: GoalSessionKey,
    agent: Seq<char>,
    route: Seq<char>,
    principal: GoalIngressPrincipal,
)
    ensures
        ({
            let name = match principal {
                GoalIngressPrincipal::Matrix { raw_mxid } => raw_mxid@,
                GoalIngressPrincipal::ZeroCode { tui_id } => tui_id@,
            };
            let error = ingress_error(key, agent, route, principal);
            if (key is Matrix) != (principal is Matrix) {
                error == Some(fixed_failure("Goal ingress principal does not match the session surface"))
            } else if identity_error("Goal ingress principal", name) is Some {
                error == identity_error("Goal ingress principal", name)
            } else if trimmed(agent).len() == 0 {
                error == Some(named_failure("Goal ingress agent", " is blank"))
            } else if trimmed(route).len() == 0 {
                error == Some(named_failure("Goal ingress route", " is blank"))
            } else {
                error is None
            }
        }),
{
}

/// A user of Matrix is bound to a goal by name, a terminal of ZeroCode by
/// nothing.
pub proof fn law_who_is_bound_to_a_goal(ingress: GoalIngressContext)
    ensures
        match ingress.speaker() {
            GoalIngressPrincipal::Matrix { raw_mxid } => ingress.durable_principal() == Some(raw_mxid),
            GoalIngressPrincipal::ZeroCode { .. } => ingress.durable_principal() is None,
        },
{
}

/// A goal is executed at a positive epoch, under identities of the goal and of
/// the session; what is wrong is named in this order.
pub proof fn law_which_executions_are_accepted(task_id: Seq<char>, session_id: Seq<char>, epoch: i64)
    ensures
        scope_error(task_id, session_id, epoch) == (if epoch < 1 {
            Some(fixed_failure("Goal execution epoch must be positive"))
        } else if identity_error("Goal execution task id", task_id) is Some {
            identity_error("Goal execution task id", task_id)
        } else {
            identity_error("Goal execution session id", session_id)
        }),
{
}

// ---------------------------------------------------------------- host
/// Help, and every command while goals are disabled, needs no session. Any
/// other is refused for a driver of another session, and a resume for a
/// response that is refused.
pub proof fn law_which_commands_need_a_session(
    settings: GoalHostSettings,
    ingress: GoalIngressContext,
    driver: GoalSessionKey,
    command: SessionGoalCommand,
    refusal: Option<String>,
)
    ensures
        needs_no_session(settings, command) == (command == SessionGoalCommand::Help || !settings.on()),
        admission_error(ingress, driver, command, refusal) == (if driver.words() != ingress.key().words() {
            Some(fixed_failure("Goal session driver does not match trusted ingress"))
        } else if (command matches SessionGoalCommand::Resume { response } && response is Some) && refusal is Some {
            Some(GoalError { text: Text::Plain(refusal->Some_0), cause: None })
        } else {
            None
        }),
{
}

/// An execution is granted where goals are enabled, to a command that was
/// admitted, by its own driver, in the session of the speaker; what is wrong is
/// named in this order. The speaker and the driver are those of the admission.
pub proof fn law_which_executions_are_granted<D, G>(
    settings: GoalHostSettings,
    submission: GoalSubmission<D, G>,
    driver: GoalSessionKey,
    scope: GoalExecutionScope,
)
    ensures
        executable(settings, submission, driver, scope) == (if !settings.on() {
            Err::<(GoalIngressContext, D), GoalError>(fixed_failure("Goal Mode is disabled"))
        } else if submission.bound is None {
            Err(fixed_failure("Goal submission was not admitted"))
        } else if driver.words() != submission.ingress.key().words() {
            Err(fixed_failure("Goal execution driver session key does not match trusted ingress"))
        } else if scope.session()@ != submission.ingress.key().id() {
            Err(fixed_failure("Goal execution scope session does not match trusted ingress"))
        } else {
            Ok((submission.ingress, submission.bound->Some_0.driver))
        }),
{
}

/// An execution follows from an answer exactly where a goal was started or
/// resumed, and is of the goal that the answer shows; a response comes with it
/// where the command gave one.
pub proof fn law_which_answers_are_followed_by_an_execution(response: GoalResponse, command: SessionGoalCommand)
    ensures
        match response {
            GoalResponse::Started(state) => executed_state(response) == Some(state),
            GoalResponse::Resumed(state) => executed_state(response) == Some(state),
            _ => executed_state(response) is None,
        },
        match command {
            SessionGoalCommand::Resume { response } => response_of(command) == response,
            _ => response_of(command) is None,
        },
{
}

/// What keys, speakers, scopes and settings keep: an identity says something
/// and has no white space at its ends.
pub proof fn law_what_identities_keep(
    key: GoalSessionKey,
    ingress: GoalIngressContext,
    scope: GoalExecutionScope,
    settings: GoalHostSettings,
)
    ensures
        ({
            let whole = |text: Seq<char>| trimmed(text).len() > 0 && trimmed(text) == text;
            &&& match key {
                GoalSessionKey::Matrix { history_key } => key.well_formed() == (whole(history_key@)
                    && "matrix_"@.is_prefix_of(history_key@)),
                GoalSessionKey::ZeroCode { raw_session_id } => key.well_formed() == whole(raw_session_id@),
            }
            &&& ingress.well_formed() ==> {
                &&& (ingress.key() is Matrix) == (ingress.speaker() is Matrix)
                &&& whole(ingress.addressed()@)
                &&& whole(ingress.came_by()@)
                &&& match ingress.speaker() {
                    GoalIngressPrincipal::Matrix { raw_mxid } => whole(raw_mxid@),
                    GoalIngressPrincipal::ZeroCode { tui_id } => whole(tui_id@),
                }
            }
            &&& scope.well_formed() == (scope.epoch() > 0 && whole(scope.goal()@) && whole(scope.session()@))
            &&& settings.well_formed() ==> whole(settings.boot()@)
            &&& settings.well_formed() ==> (settings.defaults().token_limit matches Some(limit) ==> 0 < limit
                <= i64::MAX)
            &&& settings.well_formed() ==> (settings.defaults().cost_limit_usd matches Some(limit)
                ==> limit.valid_limit())
        }),
{
}

} // verus!
