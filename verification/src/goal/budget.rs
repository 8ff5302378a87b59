//! Budgets: what a goal has used, what it may use, and when it has to stop.
use vstd::prelude::*;
#[allow(unused_imports)]
use vstd::string::*;

use crate::error::{failure, GoalError};
use crate::goal_task::{
    GoalBlocker, GoalBlockerKind, GoalPauseReason, GoalPauseState, GoalPauseView, GoalTaskRecord,
    GoalTaskView,
};
use crate::message::{
    blank_text, copy_opt, label, message1, message2, message3, message4, msg, msg1, msg2, msg3, msg4, Text, Texts,
};
use crate::payload::{count_or_null, dollars_or_null, json_count, json_dollars, Fields, Json};
use crate::task::TaskStatus;
use crate::text::same_text;
use crate::usd::Usd;

verus! {

/// What the ledger attributes to a goal.
#[derive(Clone, Copy, Debug, PartialEq, Eq, Structural)]
pub struct GoalUsageTotals {
    pub total_tokens: u64,
    pub cost_usd: Usd,
    /// Every cost-bearing entry had reliable pricing.
    pub cost_pricing_available: bool,
    /// The ledger computes amounts at all.
    pub cost_tracking_available: bool,
    /// Every attributed call supplied usable token counts.
    pub usage_available: bool,
}

/// Why a budget cannot be accounted for.
#[derive(Clone, Copy, Debug, PartialEq, Eq, Structural)]
pub enum GoalBudgetUnavailableCause {
    UsageUnavailable,
    CostPricingUnavailable,
}

/// Which limit a goal has reached.
#[derive(Clone, Copy, Debug, PartialEq, Eq, Structural)]
pub struct GoalBudgetExhaustion {
    pub tokens: bool,
    pub cost: bool,
}

/// What was read from a usage ledger for one goal.
#[derive(Clone, Copy, Debug)]
pub struct LedgerReading {
    /// The ledger can take another entry.
    pub storage_ready: bool,
    /// Tokens, cost, whether all costs are priced and all usage is known; none
    /// if the ledger could not be read.
    pub totals: Option<(u64, Usd, bool, bool)>,
    /// The ledger computes amounts.
    pub enabled: bool,
}

/// State of the cost tracker.
#[derive(Clone, Copy, Debug, PartialEq, Eq, Structural)]
pub struct TrackerState {
    pub enabled: bool,
    pub healthy: bool,
}

/// Whether and how costs are tracked under a configuration.
#[derive(Clone, Copy, Debug, PartialEq, Eq, Structural)]
pub struct CostTracking {
    /// The configuration asks for it.
    pub enabled: bool,
    pub tracker: Option<TrackerState>,
}

impl Default for GoalUsageTotals {
    fn default() -> (r: Self)
        ensures
            r == no_usage(),
    {
        GoalUsageTotals {
            total_tokens: 0,
            cost_usd: Usd::zero(),
            cost_pricing_available: true,
            cost_tracking_available: true,
            usage_available: true,
        }
    }
}

/// Nothing used, everything known.
pub open spec fn no_usage() -> GoalUsageTotals {
    GoalUsageTotals {
        total_tokens: 0,
        cost_usd: Usd { bits: 0 },
        cost_pricing_available: true,
        cost_tracking_available: true,
        usage_available: true,
    }
}

// ---------------------------------------------------------------- labels
pub open spec fn status_key(status: TaskStatus) -> &'static str {
    match status {
        TaskStatus::Running => "goal-status-running",
        TaskStatus::Paused => "goal-status-paused",
        TaskStatus::Completed => "goal-status-completed",
        TaskStatus::Failed => "goal-status-failed",
        TaskStatus::Cancelled => "goal-status-cancelled",
        TaskStatus::Lost => "goal-status-lost",
        TaskStatus::TimedOut => "goal-status-timed-out",
    }
}

pub fn task_status_label(status: TaskStatus) -> (r: Text)
    ensures
        r == label(status_key(status)),
{
    let key = match status {
        TaskStatus::Running => "goal-status-running",
        TaskStatus::Paused => "goal-status-paused",
        TaskStatus::Completed => "goal-status-completed",
        TaskStatus::Failed => "goal-status-failed",
        TaskStatus::Cancelled => "goal-status-cancelled",
        TaskStatus::Lost => "goal-status-lost",
        TaskStatus::TimedOut => "goal-status-timed-out",
    };
    msg(key)
}

pub open spec fn pause_reason_key(reason: GoalPauseReason) -> &'static str {
    match reason {
        GoalPauseReason::OperatorPaused => "goal-pause-reason-operator-paused",
        GoalPauseReason::NeedsUserInput => "goal-pause-reason-needs-user-input",
        GoalPauseReason::HumanEscalation => "goal-pause-reason-human-escalation",
        GoalPauseReason::ExternalDependency => "goal-pause-reason-external-dependency",
        GoalPauseReason::ProviderUnavailable => "goal-pause-reason-provider-unavailable",
        GoalPauseReason::VerifierBlocked => "goal-pause-reason-verifier-blocked",
        GoalPauseReason::BudgetExhausted => "goal-pause-reason-budget-exhausted",
        GoalPauseReason::BudgetUnavailable => "goal-pause-reason-budget-unavailable",
        GoalPauseReason::DaemonRestart => "goal-pause-reason-daemon-restarted",
    }
}

pub fn pause_reason_label(reason: GoalPauseReason) -> (r: Text)
    ensures
        r == label(pause_reason_key(reason)),
{
    let key = match reason {
        GoalPauseReason::OperatorPaused => "goal-pause-reason-operator-paused",
        GoalPauseReason::NeedsUserInput => "goal-pause-reason-needs-user-input",
        GoalPauseReason::HumanEscalation => "goal-pause-reason-human-escalation",
        GoalPauseReason::ExternalDependency => "goal-pause-reason-external-dependency",
        GoalPauseReason::ProviderUnavailable => "goal-pause-reason-provider-unavailable",
        GoalPauseReason::VerifierBlocked => "goal-pause-reason-verifier-blocked",
        GoalPauseReason::BudgetExhausted => "goal-pause-reason-budget-exhausted",
        GoalPauseReason::BudgetUnavailable => "goal-pause-reason-budget-unavailable",
        GoalPauseReason::DaemonRestart => "goal-pause-reason-daemon-restarted",
    };
    msg(key)
}

pub open spec fn blocker_kind_key(kind: GoalBlockerKind) -> &'static str {
    match kind {
        GoalBlockerKind::OperatorPause => "goal-blocker-kind-operator-pause",
        GoalBlockerKind::NeedsUserInput => "goal-blocker-kind-needs-user-input",
        GoalBlockerKind::HumanEscalation => "goal-blocker-kind-human-escalation",
        GoalBlockerKind::ExternalDependency => "goal-blocker-kind-external-dependency",
        GoalBlockerKind::Provider => "goal-blocker-kind-provider",
        GoalBlockerKind::Verifier => "goal-blocker-kind-verifier",
        GoalBlockerKind::Budget => "goal-blocker-kind-budget",
        GoalBlockerKind::RestartRecovery => "goal-blocker-kind-restart-recovery",
    }
}

pub fn blocker_kind_label(kind: GoalBlockerKind) -> (r: Text)
    ensures
        r == label(blocker_kind_key(kind)),
{
    let key = match kind {
        GoalBlockerKind::OperatorPause => "goal-blocker-kind-operator-pause",
        GoalBlockerKind::NeedsUserInput => "goal-blocker-kind-needs-user-input",
        GoalBlockerKind::HumanEscalation => "goal-blocker-kind-human-escalation",
        GoalBlockerKind::ExternalDependency => "goal-blocker-kind-external-dependency",
        GoalBlockerKind::Provider => "goal-blocker-kind-provider",
        GoalBlockerKind::Verifier => "goal-blocker-kind-verifier",
        GoalBlockerKind::Budget => "goal-blocker-kind-budget",
        GoalBlockerKind::RestartRecovery => "goal-blocker-kind-restart-recovery",
    };
    msg(key)
}

pub open spec fn cost_text(value: Usd) -> Text {
    message1("goal-budget-cost-value", "amount", Text::Dollars(value))
}

/// An amount as it is shown.
pub fn formatted_cost(value: Usd) -> (r: Text)
    ensures
        r == cost_text(value),
{
    msg1("goal-budget-cost-value", "amount", Text::Dollars(value))
}

/// The digits of an amount: four decimals, or the exponent form where four
/// decimals would show a positive amount as zero.
pub fn amount_digits(value: Usd, four_decimals: String, exponent_form: String) -> (r: String)
    ensures
        r == (if value.positive() && four_decimals@ == "0.0000"@ {
            exponent_form
        } else {
            four_decimals
        }),
{
    if value.is_positive() && same_text(four_decimals.as_str(), "0.0000") {
        exponent_form
    } else {
        four_decimals
    }
}

pub open spec fn token_limit_text(limit: Option<u64>) -> Text {
    match limit {
        Some(value) => Text::Number(value),
        None => label("goal-budget-limit-unlimited"),
    }
}

pub fn token_limit_label(limit: Option<u64>) -> (r: Text)
    ensures
        r == token_limit_text(limit),
{
    match limit {
        Some(value) => Text::Number(value),
        None => msg("goal-budget-limit-unlimited"),
    }
}

pub open spec fn cost_limit_text(limit: Option<Usd>) -> Text {
    match limit {
        Some(value) => cost_text(value),
        None => label("goal-budget-limit-unlimited"),
    }
}

pub fn cost_limit_label(limit: Option<Usd>) -> (r: Text)
    ensures
        r == cost_limit_text(limit),
{
    match limit {
        Some(value) => formatted_cost(value),
        None => msg("goal-budget-limit-unlimited"),
    }
}

// ---------------------------------------------------------------- usage
/// What a ledger says of a goal; nothing if it cannot be read, or if it has to
/// take entries and cannot.
pub open spec fn usage_from(reading: Option<LedgerReading>, require_writable_ledger: bool) -> Option<GoalUsageTotals> {
    match reading {
        None => None,
        Some(ledger) => if require_writable_ledger && !ledger.storage_ready {
            None
        } else {
            match ledger.totals {
                None => None,
                Some((total_tokens, cost_usd, priced, known)) => Some(
                    GoalUsageTotals {
                        total_tokens,
                        cost_usd,
                        cost_pricing_available: priced,
                        cost_tracking_available: ledger.enabled,
                        usage_available: known,
                    },
                ),
            }
        },
    }
}

pub fn goal_usage_totals_from_tracker(reading: Option<LedgerReading>, require_writable_ledger: bool) -> (r: Option<
    GoalUsageTotals,
>)
    ensures
        r == usage_from(reading, require_writable_ledger),
{
    match reading {
        None => None,
        Some(ledger) => {
            if require_writable_ledger && !ledger.storage_ready {
                return None;
            }
            match ledger.totals {
                None => None,
                Some((total_tokens, cost_usd, priced, known)) => Some(
                    GoalUsageTotals {
                        total_tokens,
                        cost_usd,
                        cost_pricing_available: priced,
                        cost_tracking_available: ledger.enabled,
                        usage_available: known,
                    },
                ),
            }
        },
    }
}

/// A ledger is of use when it can take another entry and be read.
pub fn goal_usage_ledger_is_healthy(storage_ready: bool, readable: bool) -> (r: bool)
    ensures
        r == (storage_ready && readable),
{
    storage_ready && readable
}

/// The usage of a goal that has not started: none without a configuration;
/// unknown without a healthy ledger.
pub open spec fn initial_usage(configured: bool, ledger: Option<TrackerState>) -> Option<GoalUsageTotals> {
    if !configured {
        Some(no_usage())
    } else {
        match ledger {
            Some(state) => if state.healthy {
                Some(GoalUsageTotals { cost_tracking_available: state.enabled, ..no_usage() })
            } else {
                None
            },
            None => None,
        }
    }
}

pub fn initial_goal_usage_totals(configured: bool, ledger: Option<TrackerState>) -> (r: Option<GoalUsageTotals>)
    ensures
        r == initial_usage(configured, ledger),
{
    if !configured {
        return Some(GoalUsageTotals::default());
    }
    match ledger {
        Some(state) => if state.healthy {
            let mut usage = GoalUsageTotals::default();
            usage.cost_tracking_available = state.enabled;
            Some(usage)
        } else {
            None
        },
        None => None,
    }
}

/// A cost limit that cannot be enforced: costs are not tracked, or not
/// reliably. A goal without a cost limit, or without a configuration, needs no
/// tracking.
pub open spec fn tracking_missing(tracking: Option<CostTracking>, cost_limit: Option<Usd>, ledger_healthy: Option<bool>) -> bool {
    cost_limit is Some && (tracking matches Some(tracking) && (!tracking.enabled || match tracking.tracker {
        None => true,
        Some(state) => !state.enabled || !(match ledger_healthy {
            Some(healthy) => healthy,
            None => state.healthy,
        }),
    }))
}

pub open spec fn tracking_required() -> GoalError {
    failure(label("goal-command-error-cost-tracking-required"))
}

/// Refuses a cost limit that cannot be enforced.
pub fn ensure_cost_budget_tracking_available(
    tracking: Option<CostTracking>,
    cost_limit_usd: Option<Usd>,
    ledger_healthy: Option<bool>,
) -> (r: Result<(), GoalError>)
    ensures
        r == (if tracking_missing(tracking, cost_limit_usd, ledger_healthy) {
            Err::<(), GoalError>(tracking_required())
        } else {
            Ok::<(), GoalError>(())
        }),
{
    if cost_limit_usd.is_none() {
        return Ok(());
    }
    match tracking {
        None => Ok(()),
        Some(tracking) => {
            let usable = match tracking.tracker {
                None => false,
                Some(state) => state.enabled && (match ledger_healthy {
                    Some(healthy) => healthy,
                    None => state.healthy,
                }),
            };
            if !tracking.enabled || !usable {
                Err(GoalError::new(msg("goal-command-error-cost-tracking-required")))
            } else {
                Ok(())
            }
        },
    }
}

// ---------------------------------------------------------------- summary
/// The budget of a goal in words: totals as lower bounds where usage is
/// incomplete, no cost where it is not reliable.
pub open spec fn budget_summary(goal: GoalTaskView, usage: Option<GoalUsageTotals>) -> Text {
    let token_limit = token_limit_text(goal.effective_token_limit);
    let cost_limit = cost_limit_text(goal.effective_cost_limit_usd);
    match usage {
        None => message2(
            "goal-budget-summary-unavailable",
            "token_limit",
            token_limit,
            "cost_limit",
            cost_limit,
        ),
        Some(usage) => {
            let tokens_used = Text::Number(usage.total_tokens);
            if !usage.usage_available && usage.cost_usd.is_zero_amount() {
                message2(
                    "goal-budget-summary-incomplete-cost-unavailable",
                    "tokens_used",
                    tokens_used,
                    "token_limit",
                    token_limit,
                )
            } else if usage.usage_available && (!usage.cost_tracking_available || !usage.cost_pricing_available) {
                message2(
                    "goal-budget-summary-cost-unavailable",
                    "tokens_used",
                    tokens_used,
                    "token_limit",
                    token_limit,
                )
            } else {
                message4(
                    if usage.usage_available {
                        "goal-budget-summary"
                    } else {
                        "goal-budget-summary-incomplete"
                    },
                    "tokens_used",
                    tokens_used,
                    "token_limit",
                    token_limit,
                    "cost_used",
                    cost_text(usage.cost_usd),
                    "cost_limit",
                    cost_limit,
                )
            }
        },
    }
}

pub fn goal_budget_summary(goal: &GoalTaskRecord, usage: Option<GoalUsageTotals>) -> (r: Text)
    ensures
        r == budget_summary(goal@, usage),
{
    let token_limit = token_limit_label(goal.effective_token_limit);
    let cost_limit = cost_limit_label(goal.effective_cost_limit_usd);
    match usage {
        None => msg2("goal-budget-summary-unavailable", "token_limit", token_limit, "cost_limit", cost_limit),
        Some(usage) => {
            let tokens_used = Text::Number(usage.total_tokens);
            if !usage.usage_available {
                if usage.cost_usd.is_zero() {
                    return msg2(
                        "goal-budget-summary-incomplete-cost-unavailable",
                        "tokens_used",
                        tokens_used,
                        "token_limit",
                        token_limit,
                    );
                }
                let cost_used = formatted_cost(usage.cost_usd);
                return msg4(
                    "goal-budget-summary-incomplete",
                    "tokens_used",
                    tokens_used,
                    "token_limit",
                    token_limit,
                    "cost_used",
                    cost_used,
                    "cost_limit",
                    cost_limit,
                );
            }
            if !usage.cost_tracking_available || !usage.cost_pricing_available {
                return msg2(
                    "goal-budget-summary-cost-unavailable",
                    "tokens_used",
                    tokens_used,
                    "token_limit",
                    token_limit,
                );
            }
            let cost_used = formatted_cost(usage.cost_usd);
            msg4(
                "goal-budget-summary",
                "tokens_used",
                tokens_used,
                "token_limit",
                token_limit,
                "cost_used",
                cost_used,
                "cost_limit",
                cost_limit,
            )
        },
    }
}

/// The notice that a goal was recovered after a restart.
pub fn goal_recovery_status_message(goal: &GoalTaskRecord, usage: Option<GoalUsageTotals>) -> (r: Text)
    ensures
        r == message3(
            "goal-command-recovered",
            "task_id",
            Text::Plain(goal.task_id),
            "objective",
            Text::Plain(goal.objective),
            "budget",
            budget_summary(goal@, usage),
        ),
{
    let budget = goal_budget_summary(goal, usage);
    msg3(
        "goal-command-recovered",
        "task_id",
        Text::Plain(goal.task_id.clone()),
        "objective",
        Text::Plain(goal.objective.clone()),
        "budget",
        budget,
    )
}

// ---------------------------------------------------------------- gates
/// The token limit is reached.
pub open spec fn tokens_exhausted(goal: GoalTaskView, usage: GoalUsageTotals) -> bool {
    goal.effective_token_limit matches Some(limit) && usage.total_tokens >= limit
}

/// The cost limit is reached.
pub open spec fn cost_exhausted(goal: GoalTaskView, usage: GoalUsageTotals) -> bool {
    goal.effective_cost_limit_usd matches Some(limit) && usage.cost_usd.at_least(limit)
}

pub fn goal_budget_exhaustion(goal: &GoalTaskRecord, usage: Option<GoalUsageTotals>) -> (r: Option<GoalBudgetExhaustion>)
    ensures
        r == (match usage {
            None => None::<GoalBudgetExhaustion>,
            Some(usage) => if tokens_exhausted(goal@, usage) || cost_exhausted(goal@, usage) {
                Some(
                    GoalBudgetExhaustion {
                        tokens: tokens_exhausted(goal@, usage),
                        cost: cost_exhausted(goal@, usage),
                    },
                )
            } else {
                None
            },
        }),
{
    match usage {
        None => None,
        Some(usage) => {
            let tokens = match goal.effective_token_limit {
                Some(limit) => usage.total_tokens >= limit,
                None => false,
            };
            let cost = match goal.effective_cost_limit_usd {
                Some(limit) => usage.cost_usd.reaches(limit),
                None => false,
            };
            if tokens || cost {
                Some(GoalBudgetExhaustion { tokens, cost })
            } else {
                None
            }
        },
    }
}

/// The goal has a limit.
pub open spec fn has_budget(goal: GoalTaskView) -> bool {
    goal.effective_token_limit is Some || goal.effective_cost_limit_usd is Some
}

pub fn goal_has_effective_budget(goal: &GoalTaskRecord) -> (r: bool)
    ensures
        r == has_budget(goal@),
{
    goal.effective_token_limit.is_some() || goal.effective_cost_limit_usd.is_some()
}

/// The pause of a goal whose budget cannot be accounted for.
pub open spec fn unavailable_pause(goal: GoalTaskView, cause: GoalBudgetUnavailableCause) -> GoalPauseView {
    GoalPauseView {
        reason: GoalPauseReason::BudgetUnavailable,
        description: Some(
            message1("goal-command-budget-unavailable-description", "budget", budget_summary(goal, None)),
        ),
        blockers: seq![
            GoalBlocker {
                kind: GoalBlockerKind::Budget,
                message: message1("goal-command-budget-unavailable-blocker", "budget", budget_summary(goal, None)),
                payload: Some(
                    Json::Object(
                        Box::new(
                            Fields::Field(
                                "usage_unavailable",
                                Json::Bool(cause is UsageUnavailable),
                                Box::new(
                                    Fields::Field(
                                        "cost_pricing_unavailable",
                                        Json::Bool(cause is CostPricingUnavailable),
                                        Box::new(
                                            Fields::Field(
                                                "token_limit",
                                                json_count(goal.effective_token_limit),
                                                Box::new(
                                                    Fields::Field(
                                                        "cost_limit_usd",
                                                        json_dollars(goal.effective_cost_limit_usd),
                                                        Box::new(Fields::End),
                                                    ),
                                                ),
                                            ),
                                        ),
                                    ),
                                ),
                            ),
                        ),
                    ),
                ),
            },
        ],
    }
}

pub open spec fn three_fields(
    n1: &'static str,
    v1: Json,
    n2: &'static str,
    v2: Json,
    n3: &'static str,
    v3: Json,
) -> Json {
    Json::Object(
        Box::new(
            Fields::Field(
                n1,
                v1,
                Box::new(Fields::Field(n2, v2, Box::new(Fields::Field(n3, v3, Box::new(Fields::End))))),
            ),
        ),
    )
}

fn object3(n1: &'static str, v1: Json, n2: &'static str, v2: Json, n3: &'static str, v3: Json) -> (r: Json)
    ensures
        r == three_fields(n1, v1, n2, v2, n3, v3),
{
    Json::Object(
        Box::new(
            Fields::Field(
                n1,
                v1,
                Box::new(Fields::Field(n2, v2, Box::new(Fields::Field(n3, v3, Box::new(Fields::End))))),
            ),
        ),
    )
}

/// The pause of a goal that has reached a limit.
pub open spec fn exhausted_pause(goal: GoalTaskView, usage: GoalUsageTotals) -> GoalPauseView {
    GoalPauseView {
        reason: GoalPauseReason::BudgetExhausted,
        description: Some(
            message1("goal-command-budget-exhausted-description", "budget", budget_summary(goal, Some(usage))),
        ),
        blockers: seq![
            GoalBlocker {
                kind: GoalBlockerKind::Budget,
                message: message1("goal-command-budget-exhausted-blocker", "budget", budget_summary(goal, Some(usage))),
                payload: Some(
                    Json::Object(
                        Box::new(
                            Fields::Field(
                                "tokens",
                                three_fields(
                                    "exhausted",
                                    Json::Bool(tokens_exhausted(goal, usage)),
                                    "used",
                                    Json::Count(usage.total_tokens),
                                    "limit",
                                    json_count(goal.effective_token_limit),
                                ),
                                Box::new(
                                    Fields::Field(
                                        "cost",
                                        three_fields(
                                            "exhausted",
                                            Json::Bool(cost_exhausted(goal, usage)),
                                            "used_usd",
                                            Json::Dollars(usage.cost_usd),
                                            "limit_usd",
                                            json_dollars(goal.effective_cost_limit_usd),
                                        ),
                                        Box::new(Fields::End),
                                    ),
                                ),
                            ),
                        ),
                    ),
                ),
            },
        ],
    }
}

/// The pause that a ledger snapshot calls for, if it calls for one: unknown
/// usage first, then a cost limit without reliable costs, then a limit that is
/// reached.
pub open spec fn budget_pause(goal: GoalTaskView, usage: Option<GoalUsageTotals>) -> Option<GoalPauseView> {
    match usage {
        None => None,
        Some(usage) => if !usage.usage_available {
            Some(unavailable_pause(goal, GoalBudgetUnavailableCause::UsageUnavailable))
        } else if goal.effective_cost_limit_usd is Some && (!usage.cost_tracking_available
            || !usage.cost_pricing_available) {
            Some(unavailable_pause(goal, GoalBudgetUnavailableCause::CostPricingUnavailable))
        } else if tokens_exhausted(goal, usage) || cost_exhausted(goal, usage) {
            Some(exhausted_pause(goal, usage))
        } else {
            None
        },
    }
}

/// The pause of a budgeted goal; a goal without limits has no budget to miss.
pub open spec fn gate_pause(goal: GoalTaskView, usage: Option<GoalUsageTotals>) -> Option<GoalPauseView> {
    match usage {
        Some(_) => budget_pause(goal, usage),
        None => if has_budget(goal) {
            Some(unavailable_pause(goal, GoalBudgetUnavailableCause::UsageUnavailable))
        } else {
            None
        },
    }
}

/// The pause of a goal without a ledger, limits or not.
pub open spec fn ledger_pause(goal: GoalTaskView, usage: Option<GoalUsageTotals>) -> Option<GoalPauseView> {
    if usage is None {
        Some(unavailable_pause(goal, GoalBudgetUnavailableCause::UsageUnavailable))
    } else {
        None
    }
}

/// The pause that accounting calls for: a missing ledger before anything else.
pub open spec fn accounting_pause(goal: GoalTaskView, usage: Option<GoalUsageTotals>) -> Option<GoalPauseView> {
    match ledger_pause(goal, usage) {
        Some(pause) => Some(pause),
        None => gate_pause(goal, usage),
    }
}

pub open spec fn opt_pause(pause: Option<GoalPauseState>) -> Option<GoalPauseView> {
    match pause {
        Some(p) => Some(p@),
        None => None,
    }
}

pub fn goal_accounting_unavailable_pause(goal: &GoalTaskRecord, cause: GoalBudgetUnavailableCause) -> (r:
    GoalPauseState)
    ensures
        r@ == unavailable_pause(goal@, cause),
{
    let payload = Json::Object(
        Box::new(
            Fields::Field(
                "usage_unavailable",
                Json::Bool(cause == GoalBudgetUnavailableCause::UsageUnavailable),
                Box::new(
                    Fields::Field(
                        "cost_pricing_unavailable",
                        Json::Bool(cause == GoalBudgetUnavailableCause::CostPricingUnavailable),
                        Box::new(
                            Fields::Field(
                                "token_limit",
                                count_or_null(goal.effective_token_limit),
                                Box::new(
                                    Fields::Field(
                                        "cost_limit_usd",
                                        dollars_or_null(goal.effective_cost_limit_usd),
                                        Box::new(Fields::End),
                                    ),
                                ),
                            ),
                        ),
                    ),
                ),
            ),
        ),
    );
    let mut blockers: Vec<GoalBlocker> = Vec::new();
    blockers.push(
        GoalBlocker {
            kind: GoalBlockerKind::Budget,
            message: msg1("goal-command-budget-unavailable-blocker", "budget", goal_budget_summary(goal, None)),
            payload: Some(payload),
        },
    );
    let r = GoalPauseState {
        reason: GoalPauseReason::BudgetUnavailable,
        description: Some(
            msg1("goal-command-budget-unavailable-description", "budget", goal_budget_summary(goal, None)),
        ),
        blockers,
    };
    assert(r@ =~= unavailable_pause(goal@, cause));
    r
}

pub fn goal_budget_unavailable_pause(goal: &GoalTaskRecord, cause: GoalBudgetUnavailableCause) -> (r: Option<
    GoalPauseState,
>)
    ensures
        opt_pause(r) == (if has_budget(goal@) {
            Some(unavailable_pause(goal@, cause))
        } else {
            None
        }),
{
    if !goal_has_effective_budget(goal) {
        return None;
    }
    Some(goal_accounting_unavailable_pause(goal, cause))
}

pub fn goal_budget_pause(goal: &GoalTaskRecord, usage: Option<GoalUsageTotals>) -> (r: Option<GoalPauseState>)
    ensures
        opt_pause(r) == budget_pause(goal@, usage),
{
    let usage = match usage {
        None => {
            return None;
        },
        Some(usage) => usage,
    };
    if !usage.usage_available {
        return Some(goal_accounting_unavailable_pause(goal, GoalBudgetUnavailableCause::UsageUnavailable));
    }
    if goal.effective_cost_limit_usd.is_some() && (!usage.cost_tracking_available || !usage.cost_pricing_available) {
        return goal_budget_unavailable_pause(goal, GoalBudgetUnavailableCause::CostPricingUnavailable);
    }
    let exhaustion = match goal_budget_exhaustion(goal, Some(usage)) {
        None => {
            return None;
        },
        Some(exhaustion) => exhaustion,
    };
    let tokens = object3(
        "exhausted",
        Json::Bool(exhaustion.tokens),
        "used",
        Json::Count(usage.total_tokens),
        "limit",
        count_or_null(goal.effective_token_limit),
    );
    let cost = object3(
        "exhausted",
        Json::Bool(exhaustion.cost),
        "used_usd",
        Json::Dollars(usage.cost_usd),
        "limit_usd",
        dollars_or_null(goal.effective_cost_limit_usd),
    );
    let payload = Json::Object(
        Box::new(Fields::Field("tokens", tokens, Box::new(Fields::Field("cost", cost, Box::new(Fields::End))))),
    );
    let mut blockers: Vec<GoalBlocker> = Vec::new();
    blockers.push(
        GoalBlocker {
            kind: GoalBlockerKind::Budget,
            message: msg1("goal-command-budget-exhausted-blocker", "budget", goal_budget_summary(goal, Some(usage))),
            payload: Some(payload),
        },
    );
    let r = GoalPauseState {
        reason: GoalPauseReason::BudgetExhausted,
        description: Some(
            msg1("goal-command-budget-exhausted-description", "budget", goal_budget_summary(goal, Some(usage))),
        ),
        blockers,
    };
    assert(r@ =~= exhausted_pause(goal@, usage));
    Some(r)
}

pub fn goal_budget_gate_pause(goal: &GoalTaskRecord, usage: Option<GoalUsageTotals>) -> (r: Option<GoalPauseState>)
    ensures
        opt_pause(r) == gate_pause(goal@, usage),
{
    match usage {
        Some(usage) => goal_budget_pause(goal, Some(usage)),
        None => goal_budget_unavailable_pause(goal, GoalBudgetUnavailableCause::UsageUnavailable),
    }
}

pub fn goal_usage_ledger_gate_pause(goal: &GoalTaskRecord, usage: Option<GoalUsageTotals>) -> (r: Option<GoalPauseState>)
    ensures
        opt_pause(r) == ledger_pause(goal@, usage),
{
    if usage.is_none() {
        Some(goal_accounting_unavailable_pause(goal, GoalBudgetUnavailableCause::UsageUnavailable))
    } else {
        None
    }
}

pub fn goal_accounting_gate_pause(goal: &GoalTaskRecord, usage: Option<GoalUsageTotals>) -> (r: Option<GoalPauseState>)
    ensures
        opt_pause(r) == accounting_pause(goal@, usage),
{
    match goal_usage_ledger_gate_pause(goal, usage) {
        Some(pause) => Some(pause),
        None => goal_budget_gate_pause(goal, usage),
    }
}

// ---------------------------------------------------------------- blockers
pub open spec fn reason_for(kind: GoalBlockerKind) -> GoalPauseReason {
    match kind {
        GoalBlockerKind::OperatorPause => GoalPauseReason::OperatorPaused,
        GoalBlockerKind::NeedsUserInput => GoalPauseReason::NeedsUserInput,
        GoalBlockerKind::HumanEscalation => GoalPauseReason::HumanEscalation,
        GoalBlockerKind::ExternalDependency => GoalPauseReason::ExternalDependency,
        GoalBlockerKind::Provider => GoalPauseReason::ProviderUnavailable,
        GoalBlockerKind::Verifier => GoalPauseReason::VerifierBlocked,
        GoalBlockerKind::Budget => GoalPauseReason::BudgetExhausted,
        GoalBlockerKind::RestartRecovery => GoalPauseReason::DaemonRestart,
    }
}

pub fn reason_for_blocker_kind(kind: GoalBlockerKind) -> (r: GoalPauseReason)
    ensures
        r == reason_for(kind),
{
    match kind {
        GoalBlockerKind::OperatorPause => GoalPauseReason::OperatorPaused,
        GoalBlockerKind::NeedsUserInput => GoalPauseReason::NeedsUserInput,
        GoalBlockerKind::HumanEscalation => GoalPauseReason::HumanEscalation,
        GoalBlockerKind::ExternalDependency => GoalPauseReason::ExternalDependency,
        GoalBlockerKind::Provider => GoalPauseReason::ProviderUnavailable,
        GoalBlockerKind::Verifier => GoalPauseReason::VerifierBlocked,
        GoalBlockerKind::Budget => GoalPauseReason::BudgetExhausted,
        GoalBlockerKind::RestartRecovery => GoalPauseReason::DaemonRestart,
    }
}

pub open spec fn budget_reason(reason: Option<GoalPauseReason>) -> bool {
    reason == Some(GoalPauseReason::BudgetExhausted) || reason == Some(GoalPauseReason::BudgetUnavailable)
}

pub fn is_budget_pause_reason(reason: Option<GoalPauseReason>) -> (r: bool)
    ensures
        r == budget_reason(reason),
{
    match reason {
        Some(GoalPauseReason::BudgetExhausted) => true,
        Some(GoalPauseReason::BudgetUnavailable) => true,
        _ => false,
    }
}

/// The blockers that do not come from the budget.
pub open spec fn other_blockers(blockers: Seq<GoalBlocker>) -> Seq<GoalBlocker> {
    blockers.filter(|blocker: GoalBlocker| !(blocker.kind is Budget))
}

fn without_budget(blockers: &Vec<GoalBlocker>) -> (r: Vec<GoalBlocker>)
    ensures
        r@ == other_blockers(blockers@),
{
    let mut out: Vec<GoalBlocker> = Vec::new();
    let mut i: usize = 0;
    proof {
        reveal(Seq::filter);
        assert(blockers@.take(0) =~= Seq::<GoalBlocker>::empty());
    }
    while i < blockers.len()
        invariant
            i <= blockers.len(),
            out@ == other_blockers(blockers@.take(i as int)),
        decreases blockers.len() - i,
    {
        proof {
            reveal(Seq::filter);
            assert(blockers@.take(i + 1).drop_last() =~= blockers@.take(i as int));
            assert(blockers@.take(i + 1).last() == blockers@[i as int]);
        }
        if blockers[i].kind != GoalBlockerKind::Budget {
            out.push(blockers[i].copy());
        }
        i = i + 1;
    }
    assert(blockers@.take(i as int) =~= blockers@);
    out
}

/// A budget pause on top of the pause that a goal has: its other blockers stay
/// in front, and so do its reason and description.
pub open spec fn merged_pause(goal: GoalTaskView, pause: GoalPauseView) -> GoalPauseView {
    GoalPauseView {
        reason: match goal.pause_reason {
            Some(reason) => reason,
            None => pause.reason,
        },
        description: match goal.pause_description {
            Some(description) => Some(description),
            None => pause.description,
        },
        blockers: other_blockers(goal.blockers) + pause.blockers,
    }
}

pub fn merge_budget_pause(goal: &GoalTaskRecord, budget_pause: GoalPauseState) -> (r: GoalPauseState)
    ensures
        r@ == merged_pause(goal@, budget_pause@),
{
    let mut blockers = without_budget(&goal.blockers);
    let mut more = budget_pause.blockers;
    blockers.append(&mut more);
    let reason = match goal.pause_reason {
        Some(reason) => reason,
        None => budget_pause.reason,
    };
    let description = match &goal.pause_description {
        Some(description) => Some(description.copy()),
        None => budget_pause.description,
    };
    GoalPauseState { reason, description, blockers }
}

/// The pause of a goal without its budget part; none if nothing else holds it
/// up.
pub open spec fn unbudgeted_pause(goal: GoalTaskView) -> Option<GoalPauseView> {
    let blockers = other_blockers(goal.blockers);
    if blockers.len() == 0 {
        None
    } else {
        Some(
            GoalPauseView {
                reason: match goal.pause_reason {
                    Some(reason) => if budget_reason(Some(reason)) {
                        reason_for(blockers[0].kind)
                    } else {
                        reason
                    },
                    None => reason_for(blockers[0].kind),
                },
                description: goal.pause_description,
                blockers,
            },
        )
    }
}

pub fn remove_budget_pause(goal: &GoalTaskRecord) -> (r: Option<GoalPauseState>)
    ensures
        opt_pause(r) == unbudgeted_pause(goal@),
{
    let blockers = without_budget(&goal.blockers);
    if blockers.len() == 0 {
        return None;
    }
    let reason = match goal.pause_reason {
        Some(reason) => if is_budget_pause_reason(Some(reason)) {
            reason_for_blocker_kind(blockers[0].kind)
        } else {
            reason
        },
        None => reason_for_blocker_kind(blockers[0].kind),
    };
    Some(GoalPauseState { reason, description: copy_opt(&goal.pause_description), blockers })
}

/// A blocker comes from the budget.
pub open spec fn budget_blocked(blockers: Seq<GoalBlocker>) -> bool {
    exists|i: int| 0 <= i < blockers.len() && (#[trigger] blockers[i]).kind is Budget
}

pub fn has_budget_blocker(goal: &GoalTaskRecord) -> (r: bool)
    ensures
        r == budget_blocked(goal.blockers@),
{
    let mut i: usize = 0;
    while i < goal.blockers.len()
        invariant
            i <= goal.blockers.len(),
            forall|j: int| 0 <= j < i ==> !((#[trigger] goal.blockers@[j]).kind is Budget),
        decreases goal.blockers.len() - i,
    {
        if goal.blockers[i].kind == GoalBlockerKind::Budget {
            return true;
        }
        i = i + 1;
    }
    false
}

/// The budget has a part in the pause of a goal.
pub open spec fn budget_paused(goal: GoalTaskView) -> bool {
    budget_reason(goal.pause_reason) || budget_blocked(goal.blockers)
}

pub fn has_budget_pause(goal: &GoalTaskRecord) -> (r: bool)
    ensures
        r == budget_paused(goal@),
{
    is_budget_pause_reason(goal.pause_reason) || has_budget_blocker(goal)
}

/// A blocker in words: its kind, and its message if it has one.
pub open spec fn blocker_line(blocker: GoalBlocker) -> Text {
    if blank_text(blocker.message) {
        label(blocker_kind_key(blocker.kind))
    } else {
        message2(
            "goal-command-blocker-summary-item",
            "kind",
            label(blocker_kind_key(blocker.kind)),
            "message",
            Text::Trimmed(Box::new(blocker.message)),
        )
    }
}

/// The lines of the blockers from a position on.
pub open spec fn blocker_lines(blockers: Seq<GoalBlocker>, from: int) -> Texts
    decreases blockers.len() - from,
{
    if from < 0 || from >= blockers.len() {
        Texts::End
    } else {
        Texts::Item(blocker_line(blockers[from]), Box::new(blocker_lines(blockers, from + 1)))
    }
}

/// All blockers in words; none for a goal without blockers.
pub open spec fn summary_of(blockers: Seq<GoalBlocker>) -> Option<Text> {
    if blockers.len() == 0 {
        None
    } else {
        Some(Text::Joined("; ", Box::new(blocker_lines(blockers, 0))))
    }
}

pub fn blockers_summary(blockers: &Vec<GoalBlocker>) -> (r: Option<Text>)
    ensures
        r == summary_of(blockers@),
{
    if blockers.len() == 0 {
        return None;
    }
    let mut lines = Texts::End;
    let mut i: usize = blockers.len();
    while i > 0
        invariant
            i <= blockers.len(),
            lines == blocker_lines(blockers@, i as int),
        decreases i,
    {
        i = i - 1;
        let blocker = &blockers[i];
        let kind = blocker_kind_label(blocker.kind);
        let line = if blocker.message.is_blank() {
            kind
        } else {
            msg2(
                "goal-command-blocker-summary-item",
                "kind",
                kind,
                "message",
                Text::Trimmed(Box::new(blocker.message.copy())),
            )
        };
        lines = Texts::Item(line, Box::new(lines));
    }
    Some(Text::Joined("; ", Box::new(lines)))
}

// ---------------------------------------------------------------- laws
/// Accounting fails closed: without a ledger snapshot every goal pauses, and so
/// does every goal whose usage is not fully known, limits or not.
pub proof fn law_accounting_fails_closed(goal: GoalTaskView, usage: Option<GoalUsageTotals>)
    requires
        usage is None || !usage->Some_0.usage_available,
    ensures
        accounting_pause(goal, usage) == Some(
            unavailable_pause(goal, GoalBudgetUnavailableCause::UsageUnavailable),
        ),
{
}

/// A goal with a complete ledger goes on exactly while it is under each of its
/// limits, and a cost limit counts as unmet while costs are not reliable.
pub proof fn law_goal_goes_on_under_its_limits(goal: GoalTaskView, usage: GoalUsageTotals)
    requires
        usage.usage_available,
    ensures
        (accounting_pause(goal, Some(usage)) is None) == ({
            &&& goal.effective_token_limit matches Some(limit) ==> usage.total_tokens < limit
            &&& goal.effective_cost_limit_usd matches Some(limit) ==> usage.cost_tracking_available
                && usage.cost_pricing_available && !usage.cost_usd.at_least(limit)
        }),
{
}

/// Raising or lifting limits never pauses a goal that went on before.
pub proof fn law_looser_limits_never_pause(goal: GoalTaskView, looser: GoalTaskView, usage: GoalUsageTotals)
    requires
        accounting_pause(goal, Some(usage)) is None,
        looser.effective_token_limit matches Some(limit) ==> (goal.effective_token_limit matches Some(old) && old
            <= limit),
        looser.effective_cost_limit_usd matches Some(limit) ==> (goal.effective_cost_limit_usd matches Some(old)
            && !old.is_nan() && !limit.is_nan() && old.rank() <= limit.rank()),
    ensures
        accounting_pause(looser, Some(usage)) is None,
{
}

proof fn lemma_other_blockers(blockers: Seq<GoalBlocker>)
    ensures
        !budget_blocked(other_blockers(blockers)),
        other_blockers(other_blockers(blockers)) == other_blockers(blockers),
        !budget_blocked(blockers) ==> other_blockers(blockers) == blockers,
    decreases blockers.len(),
{
    reveal(Seq::filter);
    if blockers.len() > 0 {
        let front = blockers.drop_last();
        lemma_other_blockers(front);
        let kept = other_blockers(front);
        if !budget_blocked(blockers) {
            assert forall|i: int| 0 <= i < front.len() implies !((#[trigger] front[i]).kind is Budget) by {
                assert(front[i] == blockers[i]);
            }
            assert(!(blockers[blockers.len() - 1].kind is Budget));
            assert(kept.push(blockers.last()) =~= blockers);
        }
        if !(blockers.last().kind is Budget) {
            assert(kept.push(blockers.last()).drop_last() =~= kept);
            assert forall|i: int| 0 <= i < kept.push(blockers.last()).len() implies !((#[trigger] kept.push(
                blockers.last(),
            )[i]).kind is Budget) by {
                if i < kept.len() {
                    assert(kept[i] == kept.push(blockers.last())[i]);
                }
            }
        }
    } else {
        assert(other_blockers(blockers) =~= blockers);
    }
}

/// Removing the budget part of a pause leaves every other blocker, in order,
/// and no trace of the budget.
pub proof fn law_removal_keeps_other_blockers(goal: GoalTaskView)
    ensures
        match unbudgeted_pause(goal) {
            Some(pause) => {
                &&& pause.blockers == other_blockers(goal.blockers)
                &&& !budget_blocked(pause.blockers)
                &&& !budget_reason(Some(pause.reason))
                &&& pause.description == goal.pause_description
            },
            None => forall|i: int| 0 <= i < goal.blockers.len() ==> (#[trigger] goal.blockers[i]).kind is Budget,
        },
{
    lemma_other_blockers(goal.blockers);
    let kept = other_blockers(goal.blockers);
    if kept.len() == 0 {
        assert forall|i: int| 0 <= i < goal.blockers.len() implies (#[trigger] goal.blockers[i]).kind is Budget by {
            if !(goal.blockers[i].kind is Budget) {
                goal.blockers.lemma_filter_contains(|blocker: GoalBlocker| !(blocker.kind is Budget), i);
                assert(kept.contains(goal.blockers[i]));
            }
        }
    } else {
        assert(!(kept[0].kind is Budget));
    }
}

/// Merging a budget pause twice is merging the later one: budget blockers do
/// not pile up.
pub proof fn law_merge_does_not_pile_up(goal: GoalTaskView, first: GoalPauseView, second: GoalPauseView)
    requires
        forall|i: int| 0 <= i < first.blockers.len() ==> (#[trigger] first.blockers[i]).kind is Budget,
    ensures
        ({
            let once = merged_pause(goal, first);
            let again = GoalTaskView {
                pause_reason: Some(once.reason),
                pause_description: once.description,
                blockers: once.blockers,
                ..goal
            };
            merged_pause(again, second).blockers == other_blockers(goal.blockers) + second.blockers
        }),
{
    let kept = other_blockers(goal.blockers);
    lemma_other_blockers(goal.blockers);
    Seq::filter_distributes_over_add(kept, first.blockers, |blocker: GoalBlocker| !(blocker.kind is Budget));
    lemma_all_budget(first.blockers);
    assert(kept + Seq::<GoalBlocker>::empty() =~= kept);
}

proof fn lemma_all_budget(blockers: Seq<GoalBlocker>)
    requires
        forall|i: int| 0 <= i < blockers.len() ==> (#[trigger] blockers[i]).kind is Budget,
    ensures
        other_blockers(blockers) == Seq::<GoalBlocker>::empty(),
    decreases blockers.len(),
{
    reveal(Seq::filter);
    if blockers.len() > 0 {
        lemma_all_budget(blockers.drop_last());
    } else {
        assert(other_blockers(blockers) =~= Seq::<GoalBlocker>::empty());
    }
}

} // verus!
