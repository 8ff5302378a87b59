//! The host: which commands a session admits, and which executions follow.
use vstd::prelude::*;
#[allow(unused_imports)]
use vstd::string::*;

use super::prompt::{ChatMessage, GoalParentTurnKind, GoalPausedRequest};
use super::session::{scope_error, GoalExecutionScope, GoalIngressContext, GoalSessionKey, GoalSessionLease};
use super::settings::{GoalHostSettings, SessionGoalCommand};
use super::status::{GoalResponse, GoalStatusProjection};
use crate::error::{failure, GoalError};
use crate::message::Text;
use crate::text::{clone_opt, same_text};

verus! {

/// Admits commands to sessions.
#[derive(Debug, Clone, Copy)]
pub struct GoalExecutionHost;

/// What an admission is bound to: the driver that it was made with, and the
/// lease that this driver gave of its session.
pub struct BoundSession<D, G> {
    pub driver: D,
    pub lease: GoalSessionLease<G>,
}

/// A command and what it is bound to; nothing while goals are unavailable.
pub struct GoalSubmission<D, G> {
    pub ingress: GoalIngressContext,
    pub command: SessionGoalCommand,
    pub bound: Option<BoundSession<D, G>>,
}

/// How far an admission has come.
pub enum HostStep<D, G> {
    /// The driver has to bind the session first.
    Bind(GoalIngressContext, D, SessionGoalCommand),
    Done(GoalSubmission<D, G>),
    Fail(GoalError),
}

/// Messages that a paused execution left behind.
pub struct GoalRetainedTranscript {
    pub working_history: Vec<ChatMessage>,
    pub canonical_history: Vec<ChatMessage>,
}

/// An execution to be run for a goal.
pub struct GoalExecutionRequest<D, G> {
    pub submission: GoalSubmission<D, G>,
    pub scope: GoalExecutionScope,
    pub initial_turn_kind: GoalParentTurnKind,
    pub resume_response: Option<String>,
    pub paused_request: Option<GoalPausedRequest>,
    pub retained_transcript: Option<GoalRetainedTranscript>,
}

/// The answer to a command and what follows from it: an execution that keeps
/// the lease, or the lease alone.
pub struct GoalRuntimeSubmission<D, G> {
    pub response: GoalResponse,
    pub execution: Option<GoalExecutionRequest<D, G>>,
    pub lease: Option<GoalSessionLease<G>>,
}

/// Host and controller together.
#[derive(Debug, Clone, Copy)]
pub struct GoalRuntime {
    pub host: GoalExecutionHost,
}

/// What a command needs no session for.
pub open spec fn needs_no_session(settings: GoalHostSettings, command: SessionGoalCommand) -> bool {
    !settings.on() || command is Help
}

/// The answer of a resume that the objective validator refuses.
pub open spec fn refused_response(command: SessionGoalCommand, refusal: Option<String>) -> Option<GoalError> {
    match (command, refusal) {
        (SessionGoalCommand::Resume { response: Some(_) }, Some(refusal)) => Some(failure(Text::Plain(refusal))),
        _ => None,
    }
}

/// Why a command is refused before its session is bound.
pub open spec fn admission_error(
    ingress: GoalIngressContext,
    driver: GoalSessionKey,
    command: SessionGoalCommand,
    refusal: Option<String>,
) -> Option<GoalError> {
    if driver.words() != ingress.key().words() {
        Some(failure(Text::Fixed("Goal session driver does not match trusted ingress")))
    } else {
        refused_response(command, refusal)
    }
}

impl<D, G> GoalSubmission<D, G> {
    pub fn ingress(&self) -> (r: &GoalIngressContext)
        ensures
            *r == self.ingress,
    {
        &self.ingress
    }

    pub fn command(&self) -> (r: &SessionGoalCommand)
        ensures
            *r == self.command,
    {
        &self.command
    }

    pub fn is_unavailable(&self) -> (r: bool)
        ensures
            r == (self.bound is None),
    {
        self.bound.is_none()
    }

    /// The driver that the command was admitted with.
    pub fn driver(&self) -> (r: Option<&D>)
        ensures
            match self.bound {
                Some(bound) => r == Some(&bound.driver),
                None => r is None,
            },
    {
        match &self.bound {
            Some(bound) => Some(&bound.driver),
            None => None,
        }
    }

    pub open spec fn lease(self) -> Option<GoalSessionLease<G>> {
        match self.bound {
            Some(bound) => Some(bound.lease),
            None => None,
        }
    }

    pub fn into_admission_lease(self) -> (r: Option<GoalSessionLease<G>>)
        ensures
            r == self.lease(),
    {
        match self.bound {
            Some(bound) => Some(bound.lease),
            None => None,
        }
    }
}

impl GoalExecutionHost {
    pub fn new() -> (r: GoalExecutionHost)
        ensures
            r == GoalExecutionHost,
    {
        GoalExecutionHost
    }

    /// Admits a command up to the point where its session has to be bound.
    /// `driver_key` is the session of the driver, and `response_refusal` is
    /// what the objective validator has against the response of a resume.
    pub fn submit<D, G>(
        &self,
        settings: &GoalHostSettings,
        ingress: GoalIngressContext,
        driver: D,
        driver_key: &GoalSessionKey,
        command: SessionGoalCommand,
        response_refusal: Option<String>,
    ) -> (r: HostStep<D, G>)
        ensures
            r == (if needs_no_session(*settings, command) {
                HostStep::Done(GoalSubmission::<D, G> { ingress, command, bound: None })
            } else {
                match admission_error(ingress, *driver_key, command, response_refusal) {
                    Some(error) => HostStep::<D, G>::Fail(error),
                    None => HostStep::<D, G>::Bind(ingress, driver, command),
                }
            }),
    {
        let help = match &command {
            SessionGoalCommand::Help => true,
            _ => false,
        };
        if !settings.is_enabled() || help {
            return HostStep::Done(GoalSubmission { ingress, command, bound: None });
        }
        if !driver_key.same(ingress.session_key()) {
            return HostStep::Fail(
                GoalError::new(Text::Fixed("Goal session driver does not match trusted ingress")),
            );
        }
        let responds = match &command {
            SessionGoalCommand::Resume { response: Some(_) } => true,
            _ => false,
        };
        if responds {
            match response_refusal {
                Some(refusal) => {
                    return HostStep::Fail(GoalError::new(Text::Plain(refusal)));
                },
                None => {},
            }
        }
        HostStep::Bind(ingress, driver, command)
    }

    /// Admits a command with its driver and the lease of its session.
    pub fn bound<D, G>(
        &self,
        ingress: GoalIngressContext,
        driver: D,
        command: SessionGoalCommand,
        lease: GoalSessionLease<G>,
    ) -> (r: Result<GoalSubmission<D, G>, GoalError>)
        ensures
            r == (if lease.binding.session_key.words() == ingress.key().words() {
                Ok::<GoalSubmission<D, G>, GoalError>(
                    GoalSubmission { ingress, command, bound: Some(BoundSession { driver, lease }) },
                )
            } else {
                Err::<GoalSubmission<D, G>, GoalError>(
                    failure(Text::Fixed("Goal session binding does not match trusted ingress")),
                )
            }),
    {
        if !lease.binding.session_key.same(ingress.session_key()) {
            return Err(GoalError::new(Text::Fixed("Goal session binding does not match trusted ingress")));
        }
        Ok(GoalSubmission { ingress, command, bound: Some(BoundSession { driver, lease }) })
    }

    /// Gives up the lease of an admitted command for an execution in its
    /// session, and says in whose name and by which driver: the one that the
    /// command was admitted with. `driver_key` is the session that this driver
    /// now names.
    pub fn acquire_execution<D, G>(
        &self,
        settings: &GoalHostSettings,
        submission: GoalSubmission<D, G>,
        driver_key: &GoalSessionKey,
        scope: &GoalExecutionScope,
    ) -> (r: Result<(GoalIngressContext, D), GoalError>)
        ensures
            r == executable(*settings, submission, *driver_key, *scope),
    {
        if !settings.is_enabled() {
            return Err(GoalError::new(Text::Fixed("Goal Mode is disabled")));
        }
        let driver = match submission.bound {
            None => {
                return Err(GoalError::new(Text::Fixed("Goal submission was not admitted")));
            },
            Some(bound) => bound.driver,
        };
        let ingress = submission.ingress;
        if !driver_key.same(ingress.session_key()) {
            return Err(
                GoalError::new(
                    Text::Fixed("Goal execution driver session key does not match trusted ingress"),
                ),
            );
        }
        let session_id = ingress.session_key().durable_id();
        if !same_text(scope.session_id(), session_id.as_str()) {
            return Err(
                GoalError::new(Text::Fixed("Goal execution scope session does not match trusted ingress")),
            );
        }
        Ok((ingress, driver))
    }

    /// Accepts the lease of an execution if it is for the session that asked.
    pub fn confirm_execution(&self, ingress: &GoalIngressContext, lease: &GoalSessionKey) -> (r: Result<(), GoalError>)
        ensures
            r == (if lease.words() == ingress.key().words() {
                Ok::<(), GoalError>(())
            } else {
                Err::<(), GoalError>(
                    failure(Text::Fixed("Goal execution lease session key does not match trusted ingress")),
                )
            }),
    {
        if !lease.same(ingress.session_key()) {
            return Err(
                GoalError::new(
                    Text::Fixed("Goal execution lease session key does not match trusted ingress"),
                ),
            );
        }
        Ok(())
    }
}

/// Why an execution is refused.
pub open spec fn execution_error<D, G>(
    settings: GoalHostSettings,
    submission: GoalSubmission<D, G>,
    driver: GoalSessionKey,
    scope: GoalExecutionScope,
) -> Option<GoalError> {
    if !settings.on() {
        Some(failure(Text::Fixed("Goal Mode is disabled")))
    } else if submission.bound is None {
        Some(failure(Text::Fixed("Goal submission was not admitted")))
    } else if driver.words() != submission.ingress.key().words() {
        Some(failure(Text::Fixed("Goal execution driver session key does not match trusted ingress")))
    } else if scope.session()@ != submission.ingress.key().id() {
        Some(failure(Text::Fixed("Goal execution scope session does not match trusted ingress")))
    } else {
        None
    }
}

/// Who executes, and by which driver.
pub open spec fn executable<D, G>(
    settings: GoalHostSettings,
    submission: GoalSubmission<D, G>,
    driver: GoalSessionKey,
    scope: GoalExecutionScope,
) -> Result<(GoalIngressContext, D), GoalError> {
    match execution_error(settings, submission, driver, scope) {
        Some(error) => Err(error),
        None => Ok((submission.ingress, submission.bound->Some_0.driver)),
    }
}

/// The state that an answer shows if an execution follows from it: a goal was
/// started or resumed.
pub open spec fn executed_state(response: GoalResponse) -> Option<GoalStatusProjection> {
    match response {
        GoalResponse::Started(state) => Some(state),
        GoalResponse::Resumed(state) => Some(state),
        _ => None,
    }
}

/// What a person answered when they resumed a goal.
pub open spec fn response_of(command: SessionGoalCommand) -> Option<String> {
    match command {
        SessionGoalCommand::Resume { response } => response,
        _ => None,
    }
}

fn resume_response_of(command: &SessionGoalCommand) -> (r: Option<String>)
    ensures
        r == response_of(*command),
{
    match command {
        SessionGoalCommand::Resume { response } => clone_opt(response),
        _ => None,
    }
}

impl GoalRuntime {
    pub fn new() -> (r: GoalRuntime)
        ensures
            r == (GoalRuntime { host: GoalExecutionHost }),
    {
        GoalRuntime { host: GoalExecutionHost::new() }
    }

    /// What follows from the answer to a command: an execution of exactly the
    /// goal, session and epoch that the answer shows as started or resumed,
    /// and nothing otherwise.
    pub fn submit<D, G>(
        &self,
        submission: GoalSubmission<D, G>,
        response: GoalResponse,
        paused_request: Option<GoalPausedRequest>,
    ) -> (r: Result<GoalRuntimeSubmission<D, G>, GoalError>)
        ensures
            match executed_state(response) {
                None => r == Ok::<GoalRuntimeSubmission<D, G>, GoalError>(
                    GoalRuntimeSubmission { response, execution: None, lease: submission.lease() },
                ),
                Some(state) => match scope_error(
                    state.task_id@,
                    submission.ingress.key().id(),
                    state.execution_epoch,
                ) {
                    Some(error) => r == Err::<GoalRuntimeSubmission<D, G>, GoalError>(error),
                    None => {
                        &&& r matches Ok(outcome)
                        &&& outcome.response == response
                        &&& outcome.lease is None
                        &&& outcome.execution matches Some(execution)
                        &&& execution.submission == submission
                        &&& execution.scope.goal() == state.task_id
                        &&& execution.scope.session()@ == submission.ingress.key().id()
                        &&& execution.scope.epoch() == state.execution_epoch
                        &&& execution.initial_turn_kind == (if response is Started {
                            GoalParentTurnKind::Start
                        } else {
                            GoalParentTurnKind::Resume
                        })
                        &&& execution.resume_response == response_of(submission.command)
                        &&& execution.paused_request == paused_request
                        &&& execution.retained_transcript is None
                    },
                },
            },
    {
        let (kind, task_id, epoch) = match &response {
            GoalResponse::Started(state) => (
                GoalParentTurnKind::Start,
                state.task_id.clone(),
                state.execution_epoch,
            ),
            GoalResponse::Resumed(state) => (
                GoalParentTurnKind::Resume,
                state.task_id.clone(),
                state.execution_epoch,
            ),
            _ => {
                let lease = submission.into_admission_lease();
                return Ok(GoalRuntimeSubmission { response, execution: None, lease });
            },
        };
        let session_id = submission.ingress.session_key().durable_id();
        match GoalExecutionScope::new(task_id, session_id, epoch) {
            Err(error) => Err(error),
            Ok(scope) => {
                let resume_response = resume_response_of(&submission.command);
                let execution = GoalExecutionRequest {
                    submission,
                    scope,
                    initial_turn_kind: kind,
                    resume_response,
                    paused_request,
                    retained_transcript: None,
                };
                Ok(GoalRuntimeSubmission { response, execution: Some(execution), lease: None })
            },
        }
    }

    /// Gives up the lease of a request for its execution.
    pub fn acquire_execution<D, G>(
        &self,
        settings: &GoalHostSettings,
        request: GoalExecutionRequest<D, G>,
        driver_key: &GoalSessionKey,
    ) -> (r: Result<(GoalIngressContext, D), GoalError>)
        ensures
            r == executable(*settings, request.submission, *driver_key, request.scope),
    {
        self.host.acquire_execution(settings, request.submission, driver_key, &request.scope)
    }
}

impl<D, G> GoalRuntimeSubmission<D, G> {
    pub fn response(&self) -> (r: &GoalResponse)
        ensures
            *r == self.response,
    {
        &self.response
    }

    pub fn into_parts(self) -> (r: (GoalResponse, Option<GoalExecutionRequest<D, G>>))
        ensures
            r == (self.response, self.execution),
    {
        (self.response, self.execution)
    }

    pub fn into_parts_with_lease(self) -> (r: (
        GoalResponse,
        Option<GoalExecutionRequest<D, G>>,
        Option<GoalSessionLease<G>>,
    ))
        ensures
            r == (self.response, self.execution, self.lease),
    {
        (self.response, self.execution, self.lease)
    }
}

impl<D, G> GoalExecutionRequest<D, G> {
    pub fn submission(&self) -> (r: &GoalSubmission<D, G>)
        ensures
            *r == self.submission,
    {
        &self.submission
    }

    pub fn scope(&self) -> (r: &GoalExecutionScope)
        ensures
            *r == self.scope,
    {
        &self.scope
    }

    pub fn into_parts(self) -> (r: (GoalSubmission<D, G>, GoalExecutionScope))
        ensures
            r == (self.submission, self.scope),
    {
        (self.submission, self.scope)
    }

    pub fn initial_turn_kind(&self) -> (r: GoalParentTurnKind)
        ensures
            r == self.initial_turn_kind,
    {
        self.initial_turn_kind
    }

    pub fn resume_response(&self) -> (r: Option<&String>)
        ensures
            match r {
                Some(response) => self.resume_response == Some(*response),
                None => self.resume_response is None,
            },
    {
        self.resume_response.as_ref()
    }

    pub fn paused_request(&self) -> (r: Option<&GoalPausedRequest>)
        ensures
            match r {
                Some(request) => self.paused_request == Some(*request),
                None => self.paused_request is None,
            },
    {
        self.paused_request.as_ref()
    }

    /// The same request with a transcript to continue from.
    pub fn with_retained_transcript(self, retained_transcript: GoalRetainedTranscript) -> (r: GoalExecutionRequest<D, G>)
        ensures
            r == (GoalExecutionRequest { retained_transcript: Some(retained_transcript), ..self }),
    {
        let mut request = self;
        request.retained_transcript = Some(retained_transcript);
        request
    }

    pub fn retained_transcript(&self) -> (r: Option<&GoalRetainedTranscript>)
        ensures
            match r {
                Some(transcript) => self.retained_transcript == Some(*transcript),
                None => self.retained_transcript is None,
            },
    {
        self.retained_transcript.as_ref()
    }
}

} // verus!
