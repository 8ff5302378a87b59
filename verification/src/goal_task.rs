//! Goal-specific extension of a task: objective, limits, pause detail and
//! pending operations.
use vstd::prelude::*;
#[allow(unused_imports)]
use vstd::string::*;

use crate::message::{copy_opt, Text};
use crate::payload::Json;
use crate::task::{TaskRecord, TaskStatus};
use crate::text::{clone_opt, opt_view, same_opt, same_text};
use crate::usd::Usd;

verus! {

/// Whether all usage of a goal is known well enough to admit another
/// operation.
#[derive(Clone, Copy, Debug, PartialEq, Eq, Structural)]
pub enum GoalAccountingState {
    Complete,
    Missing,
    Invalid,
    OutcomeUnknown,
}

impl Default for GoalAccountingState {
    fn default() -> (r: Self)
        ensures
            r == GoalAccountingState::Complete,
    {
        GoalAccountingState::Complete
    }
}

/// What became of a guarded transition.
#[derive(Clone, Copy, Debug, PartialEq, Eq, Structural)]
pub enum GoalTransitionResult {
    /// The mutation committed for the exact task, session and epoch.
    Applied,
    /// The task row exists, but a lifecycle, epoch, kind or session predicate
    /// no longer matches. Callers reload canonical state before they decide
    /// again.
    Stale,
    /// No task row exists for the requested id.
    Missing,
}

/// Exact durable identity of a goal at one epoch.
#[derive(Debug, PartialEq, Eq)]
pub struct GoalPolicyTarget {
    pub task_id: String,
    pub session_id: String,
    pub execution_epoch: i64,
}

/// Why a goal is paused.
#[derive(Clone, Copy, Debug, PartialEq, Eq, Structural)]
pub enum GoalPauseReason {
    OperatorPaused,
    NeedsUserInput,
    HumanEscalation,
    ExternalDependency,
    ProviderUnavailable,
    VerifierBlocked,
    BudgetExhausted,
    BudgetUnavailable,
    DaemonRestart,
}

/// Coarse class of a blocker.
#[derive(Clone, Copy, Debug, PartialEq, Eq, Structural)]
pub enum GoalBlockerKind {
    OperatorPause,
    NeedsUserInput,
    HumanEscalation,
    ExternalDependency,
    Provider,
    Verifier,
    Budget,
    RestartRecovery,
}

/// Structured blocker attached to a paused goal. Policy branches on `kind`
/// and `payload`; the message only explains.
#[derive(Debug, PartialEq, Eq)]
pub struct GoalBlocker {
    pub kind: GoalBlockerKind,
    pub message: Text,
    pub payload: Option<Json>,
}

/// Reason, summary and blockers of a pause.
#[derive(Debug, PartialEq, Eq)]
pub struct GoalPauseState {
    pub reason: GoalPauseReason,
    pub description: Option<Text>,
    pub blockers: Vec<GoalBlocker>,
}

/// Where a recovered goal continues its conversation.
#[derive(Debug, PartialEq, Eq)]
pub struct TaskContinuationContext {
    pub channel: String,
    pub channel_alias: Option<String>,
    pub reply_target: String,
    pub sender: String,
    pub thread_ts: Option<String>,
    pub interruption_scope_id: Option<String>,
    pub conversation_scope: TaskContinuationConversationScope,
}

/// History scope of a continuation.
#[derive(Clone, Copy, Debug, PartialEq, Eq, Structural)]
pub enum TaskContinuationConversationScope {
    Sender,
    ReplyTarget,
}

/// Extension row of a goal.
#[derive(Debug, PartialEq, Eq)]
pub struct GoalTaskRecord {
    /// Id of the canonical task row.
    pub task_id: String,
    /// Immutable, user-declared success criterion; untrusted prompt data.
    pub objective: String,
    pub effective_token_limit: Option<u64>,
    pub effective_cost_limit_usd: Option<Usd>,
    pub pause_reason: Option<GoalPauseReason>,
    pub pause_description: Option<Text>,
    pub blockers: Vec<GoalBlocker>,
    /// Fence for one admitted provider operation.
    pub pending_call_id: Option<String>,
    /// Epoch that admitted `pending_call_id`.
    pub pending_call_epoch: Option<i64>,
    /// Fence for a tool batch whose results are not all recorded.
    pub pending_tool_batch_id: Option<String>,
    /// Epoch that admitted `pending_tool_batch_id`.
    pub pending_tool_epoch: Option<i64>,
    pub accounting_state: GoalAccountingState,
}

/// What a `GoalTaskRecord` holds.
#[verifier::ext_equal]
pub struct GoalTaskView {
    pub task_id: String,
    pub objective: String,
    pub effective_token_limit: Option<u64>,
    pub effective_cost_limit_usd: Option<Usd>,
    pub pause_reason: Option<GoalPauseReason>,
    pub pause_description: Option<Text>,
    pub blockers: Seq<GoalBlocker>,
    pub pending_call_id: Option<String>,
    pub pending_call_epoch: Option<i64>,
    pub pending_tool_batch_id: Option<String>,
    pub pending_tool_epoch: Option<i64>,
    pub accounting_state: GoalAccountingState,
}

/// What a `GoalPauseState` holds.
#[verifier::ext_equal]
pub struct GoalPauseView {
    pub reason: GoalPauseReason,
    pub description: Option<Text>,
    pub blockers: Seq<GoalBlocker>,
}

/// A goal: its canonical task row and its extension row.
#[derive(Debug, PartialEq, Eq)]
pub struct TaskGoal {
    pub task: TaskRecord,
    pub goal: GoalTaskRecord,
}

/// What a `TaskGoal` holds.
#[verifier::ext_equal]
pub struct TaskGoalView {
    pub task: TaskRecord,
    pub goal: GoalTaskView,
}

impl View for GoalTaskRecord {
    type V = GoalTaskView;

    open spec fn view(&self) -> GoalTaskView {
        GoalTaskView {
            task_id: self.task_id,
            objective: self.objective,
            effective_token_limit: self.effective_token_limit,
            effective_cost_limit_usd: self.effective_cost_limit_usd,
            pause_reason: self.pause_reason,
            pause_description: self.pause_description,
            blockers: self.blockers@,
            pending_call_id: self.pending_call_id,
            pending_call_epoch: self.pending_call_epoch,
            pending_tool_batch_id: self.pending_tool_batch_id,
            pending_tool_epoch: self.pending_tool_epoch,
            accounting_state: self.accounting_state,
        }
    }
}

impl View for GoalPauseState {
    type V = GoalPauseView;

    open spec fn view(&self) -> GoalPauseView {
        GoalPauseView { reason: self.reason, description: self.description, blockers: self.blockers@ }
    }
}

impl View for TaskGoal {
    type V = TaskGoalView;

    open spec fn view(&self) -> TaskGoalView {
        TaskGoalView { task: self.task, goal: self.goal@ }
    }
}

impl GoalTaskView {
    /// No provider operation is outstanding.
    pub open spec fn settled(self) -> bool {
        self.pending_call_id is None && self.pending_call_epoch is None
    }

    /// Nothing outstanding, and all usage known.
    pub open spec fn clean(self) -> bool {
        self.settled() && self.accounting_state is Complete
    }
}

impl GoalBlocker {
    /// The same blocker again.
    pub fn copy(&self) -> (r: GoalBlocker)
        ensures
            r == *self,
    {
        let payload = match &self.payload {
            Some(value) => Some(value.copy()),
            None => None,
        };
        GoalBlocker { kind: self.kind, message: self.message.copy(), payload }
    }
}

/// The same blockers again.
pub fn copy_blockers(blockers: &Vec<GoalBlocker>) -> (r: Vec<GoalBlocker>)
    ensures
        r@ == blockers@,
{
    let mut out: Vec<GoalBlocker> = Vec::new();
    let mut i: usize = 0;
    while i < blockers.len()
        invariant
            i <= blockers.len(),
            out@ == blockers@.take(i as int),
        decreases blockers.len() - i,
    {
        out.push(blockers[i].copy());
        i = i + 1;
        assert(out@ =~= blockers@.take(i as int));
    }
    assert(blockers@.take(i as int) =~= blockers@);
    out
}

impl GoalPauseState {
    /// The same pause again.
    pub fn copy(&self) -> (r: GoalPauseState)
        ensures
            r@ == self@,
    {
        GoalPauseState {
            reason: self.reason,
            description: copy_opt(&self.description),
            blockers: copy_blockers(&self.blockers),
        }
    }
}

impl GoalTaskRecord {
    /// The same row again.
    pub fn copy(&self) -> (r: GoalTaskRecord)
        ensures
            r@ == self@,
    {
        GoalTaskRecord {
            task_id: self.task_id.clone(),
            objective: self.objective.clone(),
            effective_token_limit: self.effective_token_limit,
            effective_cost_limit_usd: self.effective_cost_limit_usd,
            pause_reason: self.pause_reason,
            pause_description: copy_opt(&self.pause_description),
            blockers: copy_blockers(&self.blockers),
            pending_call_id: clone_opt(&self.pending_call_id),
            pending_call_epoch: self.pending_call_epoch,
            pending_tool_batch_id: clone_opt(&self.pending_tool_batch_id),
            pending_tool_epoch: self.pending_tool_epoch,
            accounting_state: self.accounting_state,
        }
    }
}

impl Default for GoalTaskRecord {
    fn default() -> (r: Self)
        ensures
            r.task_id@ == Seq::<char>::empty(),
            r.objective@ == Seq::<char>::empty(),
            r.effective_token_limit is None,
            r.effective_cost_limit_usd is None,
            r.pause_reason is None,
            r.pause_description is None,
            r.blockers@ == Seq::<GoalBlocker>::empty(),
            r.pending_call_id is None,
            r.pending_call_epoch is None,
            r.pending_tool_batch_id is None,
            r.pending_tool_epoch is None,
            r.accounting_state is Complete,
    {
        GoalTaskRecord {
            task_id: String::new(),
            objective: String::new(),
            effective_token_limit: None,
            effective_cost_limit_usd: None,
            pause_reason: None,
            pause_description: None,
            blockers: Vec::new(),
            pending_call_id: None,
            pending_call_epoch: None,
            pending_tool_batch_id: None,
            pending_tool_epoch: None,
            accounting_state: GoalAccountingState::Complete,
        }
    }
}

impl TaskGoal {
    pub fn new(task: TaskRecord, goal: GoalTaskRecord) -> (r: TaskGoal)
        ensures
            r == (TaskGoal { task, goal }),
    {
        TaskGoal { task, goal }
    }

    /// The same goal again.
    pub fn copy(&self) -> (r: TaskGoal)
        ensures
            r@ == self@,
    {
        TaskGoal { task: self.task.copy(), goal: self.goal.copy() }
    }

    pub fn task(&self) -> (r: &TaskRecord)
        ensures
            *r == self.task,
    {
        &self.task
    }

    pub fn goal(&self) -> (r: &GoalTaskRecord)
        ensures
            *r == self.goal,
    {
        &self.goal
    }

    pub fn task_id(&self) -> (r: &str)
        ensures
            r@ == self.task.id@,
    {
        self.task.id.as_str()
    }

    pub fn agent(&self) -> (r: &str)
        ensures
            r@ == self.task.agent@,
    {
        self.task.agent.as_str()
    }

    pub fn status(&self) -> (r: TaskStatus)
        ensures
            r == self.task.status,
    {
        self.task.status
    }

    pub fn is_running(&self) -> (r: bool)
        ensures
            r == (self.task.status is Running),
    {
        self.status() == TaskStatus::Running
    }

    pub fn is_terminal(&self) -> (r: bool)
        ensures
            r == self.task.status.terminal(),
    {
        self.status().is_terminal()
    }

    pub fn objective(&self) -> (r: &str)
        ensures
            r@ == self.goal.objective@,
    {
        self.goal.objective.as_str()
    }

    /// The goal with other limits and everything else as it was.
    pub fn with_effective_limits(self, token_limit: Option<u64>, cost_limit_usd: Option<Usd>) -> (r: TaskGoal)
        ensures
            r@ == with_limits(self@, token_limit, cost_limit_usd),
    {
        let mut goal = self.goal;
        goal.effective_token_limit = token_limit;
        goal.effective_cost_limit_usd = cost_limit_usd;
        TaskGoal { task: self.task, goal }
    }

    pub fn into_task(self) -> (r: TaskRecord)
        ensures
            r == self.task,
    {
        self.task
    }

    pub fn into_parts(self) -> (r: (TaskRecord, GoalTaskRecord))
        ensures
            r == (self.task, self.goal),
    {
        (self.task, self.goal)
    }
}

pub open spec fn with_limits(g: TaskGoalView, token_limit: Option<u64>, cost_limit_usd: Option<Usd>) -> TaskGoalView {
    TaskGoalView {
        task: g.task,
        goal: GoalTaskView {
            effective_token_limit: token_limit,
            effective_cost_limit_usd: cost_limit_usd,
            ..g.goal
        },
    }
}

/// What a continuation context says, character by character.
pub struct ContinuationView {
    pub channel: Seq<char>,
    pub channel_alias: Option<Seq<char>>,
    pub reply_target: Seq<char>,
    pub sender: Seq<char>,
    pub thread_ts: Option<Seq<char>>,
    pub interruption_scope_id: Option<Seq<char>>,
    pub conversation_scope: TaskContinuationConversationScope,
}

impl View for TaskContinuationContext {
    type V = ContinuationView;

    open spec fn view(&self) -> ContinuationView {
        ContinuationView {
            channel: self.channel@,
            channel_alias: opt_view(self.channel_alias),
            reply_target: self.reply_target@,
            sender: self.sender@,
            thread_ts: opt_view(self.thread_ts),
            interruption_scope_id: opt_view(self.interruption_scope_id),
            conversation_scope: self.conversation_scope,
        }
    }
}

impl TaskContinuationContext {
    /// The same context again.
    pub fn copy(&self) -> (r: TaskContinuationContext)
        ensures
            r == *self,
    {
        TaskContinuationContext {
            channel: self.channel.clone(),
            channel_alias: clone_opt(&self.channel_alias),
            reply_target: self.reply_target.clone(),
            sender: self.sender.clone(),
            thread_ts: clone_opt(&self.thread_ts),
            interruption_scope_id: clone_opt(&self.interruption_scope_id),
            conversation_scope: self.conversation_scope,
        }
    }

    /// Whether both contexts say the same.
    pub fn same(&self, other: &TaskContinuationContext) -> (r: bool)
        ensures
            r == (self@ == other@),
    {
        same_text(self.channel.as_str(), other.channel.as_str())
            && same_opt(&self.channel_alias, &other.channel_alias)
            && same_text(self.reply_target.as_str(), other.reply_target.as_str())
            && same_text(self.sender.as_str(), other.sender.as_str())
            && same_opt(&self.thread_ts, &other.thread_ts)
            && same_opt(&self.interruption_scope_id, &other.interruption_scope_id)
            && self.conversation_scope == other.conversation_scope
    }
}

pub fn copy_continuation(o: &Option<TaskContinuationContext>) -> (r: Option<TaskContinuationContext>)
    ensures
        r == *o,
{
    match o {
        Some(c) => Some(c.copy()),
        None => None,
    }
}

impl GoalPauseReason {
    /// The word that stands for the reason in the store.
    pub open spec fn word(self) -> &'static str {
        match self {
            GoalPauseReason::OperatorPaused => "operator_paused",
            GoalPauseReason::NeedsUserInput => "needs_user_input",
            GoalPauseReason::HumanEscalation => "human_escalation",
            GoalPauseReason::ExternalDependency => "external_dependency",
            GoalPauseReason::ProviderUnavailable => "provider_unavailable",
            GoalPauseReason::VerifierBlocked => "verifier_blocked",
            GoalPauseReason::BudgetExhausted => "budget_exhausted",
            GoalPauseReason::BudgetUnavailable => "budget_unavailable",
            GoalPauseReason::DaemonRestart => "daemon_restarted",
        }
    }
}

/// The reason that a stored word stands for. `daemon_restart` is an older
/// spelling of `daemon_restarted`.
pub open spec fn pause_reason_of_word(word: Seq<char>) -> Option<GoalPauseReason> {
    if word == "operator_paused"@ {
        Some(GoalPauseReason::OperatorPaused)
    } else if word == "needs_user_input"@ {
        Some(GoalPauseReason::NeedsUserInput)
    } else if word == "human_escalation"@ {
        Some(GoalPauseReason::HumanEscalation)
    } else if word == "external_dependency"@ {
        Some(GoalPauseReason::ExternalDependency)
    } else if word == "provider_unavailable"@ {
        Some(GoalPauseReason::ProviderUnavailable)
    } else if word == "verifier_blocked"@ {
        Some(GoalPauseReason::VerifierBlocked)
    } else if word == "budget_exhausted"@ {
        Some(GoalPauseReason::BudgetExhausted)
    } else if word == "budget_unavailable"@ {
        Some(GoalPauseReason::BudgetUnavailable)
    } else if word == "daemon_restarted"@ || word == "daemon_restart"@ {
        Some(GoalPauseReason::DaemonRestart)
    } else {
        None
    }
}

/// The stored word of a pause reason.
pub fn pause_reason_to_db(reason: GoalPauseReason) -> (r: &'static str)
    ensures
        r == reason.word(),
{
    match reason {
        GoalPauseReason::OperatorPaused => "operator_paused",
        GoalPauseReason::NeedsUserInput => "needs_user_input",
        GoalPauseReason::HumanEscalation => "human_escalation",
        GoalPauseReason::ExternalDependency => "external_dependency",
        GoalPauseReason::ProviderUnavailable => "provider_unavailable",
        GoalPauseReason::VerifierBlocked => "verifier_blocked",
        GoalPauseReason::BudgetExhausted => "budget_exhausted",
        GoalPauseReason::BudgetUnavailable => "budget_unavailable",
        GoalPauseReason::DaemonRestart => "daemon_restarted",
    }
}

/// The pause reason of a stored word: none for an absent word, an error with
/// the word for one that is not a reason.
pub fn pause_reason_from_db(value: Option<String>) -> (r: Result<Option<GoalPauseReason>, String>)
    ensures
        match value {
            None => r == Ok::<Option<GoalPauseReason>, String>(None),
            Some(word) => match pause_reason_of_word(word@) {
                Some(reason) => r == Ok::<Option<GoalPauseReason>, String>(Some(reason)),
                None => r == Err::<Option<GoalPauseReason>, String>(word),
            },
        },
{
    match value {
        None => Ok(None),
        Some(word) => {
            let w = word.as_str();
            if same_text(w, "operator_paused") {
                Ok(Some(GoalPauseReason::OperatorPaused))
            } else if same_text(w, "needs_user_input") {
                Ok(Some(GoalPauseReason::NeedsUserInput))
            } else if same_text(w, "human_escalation") {
                Ok(Some(GoalPauseReason::HumanEscalation))
            } else if same_text(w, "external_dependency") {
                Ok(Some(GoalPauseReason::ExternalDependency))
            } else if same_text(w, "provider_unavailable") {
                Ok(Some(GoalPauseReason::ProviderUnavailable))
            } else if same_text(w, "verifier_blocked") {
                Ok(Some(GoalPauseReason::VerifierBlocked))
            } else if same_text(w, "budget_exhausted") {
                Ok(Some(GoalPauseReason::BudgetExhausted))
            } else if same_text(w, "budget_unavailable") {
                Ok(Some(GoalPauseReason::BudgetUnavailable))
            } else if same_text(w, "daemon_restarted") || same_text(w, "daemon_restart") {
                Ok(Some(GoalPauseReason::DaemonRestart))
            } else {
                Err(word)
            }
        },
    }
}

/// Every pause reason stays readable from its stored word, and so does the
/// older word for a daemon restart.
pub proof fn law_pause_reason_round_trip(reason: GoalPauseReason)
    ensures
        pause_reason_of_word(reason.word()@) == Some(reason),
        pause_reason_of_word("daemon_restart"@) == Some(GoalPauseReason::DaemonRestart),
{
    reveal_strlit("operator_paused");
    reveal_strlit("needs_user_input");
    reveal_strlit("human_escalation");
    reveal_strlit("external_dependency");
    reveal_strlit("provider_unavailable");
    reveal_strlit("verifier_blocked");
    reveal_strlit("budget_exhausted");
    reveal_strlit("budget_unavailable");
    reveal_strlit("daemon_restarted");
    reveal_strlit("daemon_restart");
    assert("operator_paused"@.len() == 15 && "external_dependency"@.len() == 19
        && "provider_unavailable"@.len() == 20 && "budget_unavailable"@.len() == 18
        && "daemon_restart"@.len() == 14);
    assert("needs_user_input"@.len() == 16 && "human_escalation"@.len() == 16
        && "verifier_blocked"@.len() == 16 && "budget_exhausted"@.len() == 16
        && "daemon_restarted"@.len() == 16);
    assert("needs_user_input"@[0] == 'n');
    assert("human_escalation"@[0] == 'h');
    assert("verifier_blocked"@[0] == 'v');
    assert("budget_exhausted"@[0] == 'b');
    assert("daemon_restarted"@[0] == 'd');
}

impl GoalAccountingState {
    /// The word that stands for the state in the store.
    pub open spec fn word(self) -> &'static str {
        match self {
            GoalAccountingState::Complete => "complete",
            GoalAccountingState::Missing => "missing",
            GoalAccountingState::Invalid => "invalid",
            GoalAccountingState::OutcomeUnknown => "outcome_unknown",
        }
    }
}

pub open spec fn accounting_state_of_word(word: Seq<char>) -> Option<GoalAccountingState> {
    if word == "complete"@ {
        Some(GoalAccountingState::Complete)
    } else if word == "missing"@ {
        Some(GoalAccountingState::Missing)
    } else if word == "invalid"@ {
        Some(GoalAccountingState::Invalid)
    } else if word == "outcome_unknown"@ {
        Some(GoalAccountingState::OutcomeUnknown)
    } else {
        None
    }
}

/// The stored word of an accounting state.
pub fn accounting_state_to_db(state: GoalAccountingState) -> (r: &'static str)
    ensures
        r == state.word(),
{
    match state {
        GoalAccountingState::Complete => "complete",
        GoalAccountingState::Missing => "missing",
        GoalAccountingState::Invalid => "invalid",
        GoalAccountingState::OutcomeUnknown => "outcome_unknown",
    }
}

/// The accounting state of a stored word; none for a word that is not one.
pub fn accounting_state_from_db(word: &str) -> (r: Option<GoalAccountingState>)
    ensures
        r == accounting_state_of_word(word@),
{
    if same_text(word, "complete") {
        Some(GoalAccountingState::Complete)
    } else if same_text(word, "missing") {
        Some(GoalAccountingState::Missing)
    } else if same_text(word, "invalid") {
        Some(GoalAccountingState::Invalid)
    } else if same_text(word, "outcome_unknown") {
        Some(GoalAccountingState::OutcomeUnknown)
    } else {
        None
    }
}

/// Every accounting state stays readable from its stored word.
pub proof fn law_accounting_state_round_trip(state: GoalAccountingState)
    ensures
        accounting_state_of_word(state.word()@) == Some(state),
{
    reveal_strlit("complete");
    reveal_strlit("missing");
    reveal_strlit("invalid");
    reveal_strlit("outcome_unknown");
    assert("complete"@.len() == 8 && "missing"@.len() == 7 && "invalid"@.len() == 7
        && "outcome_unknown"@.len() == 15);
    assert("missing"@[0] != "invalid"@[0]);
}

} // verus!
