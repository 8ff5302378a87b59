//! What budgets, pauses and their words mean.
use vstd::prelude::*;
#[allow(unused_imports)]
use vstd::string::*;

use super::answers::costs_tracked;
use super::budget::{
    accounting_pause, blocker_kind_key, blocker_line, blocker_lines, budget_pause, budget_paused, budget_summary,
    cost_limit_text, gate_pause, goal_accounting_gate_pause, goal_budget_exhaustion, goal_budget_gate_pause,
    goal_budget_pause, goal_budget_unavailable_pause, goal_has_effective_budget, goal_usage_ledger_gate_pause,
    initial_usage, ledger_pause, merged_pause, other_blockers, pause_reason_key, reason_for, status_key, summary_of,
    token_limit_text, tracking_missing, unavailable_pause, unbudgeted_pause, usage_from, CostTracking,
    GoalBudgetExhaustion, GoalBudgetUnavailableCause, GoalUsageTotals, LedgerReading, TrackerState,
};
use crate::goal_task::{
    GoalBlocker, GoalBlockerKind, GoalPauseReason, GoalPauseState, GoalPauseView, GoalTaskRecord, GoalTaskView,
};
use crate::message::{blank_text, Args, Text, Texts};
use crate::payload::{Fields, Json};
use crate::task::TaskStatus;
use crate::usd::Usd;

verus! {

/// A limit as people see it.
pub open spec fn tokens_shown(limit: Option<u64>) -> Text {
    match limit {
        Some(limit) => Text::Number(limit),
        None => Text::Message("goal-budget-limit-unlimited", Box::new(Args::End)),
    }
}

pub open spec fn dollars_shown(amount: Usd) -> Text {
    Text::Message("goal-budget-cost-value", Box::new(Args::Arg("amount", Text::Dollars(amount), Box::new(Args::End))))
}

pub open spec fn cost_shown(limit: Option<Usd>) -> Text {
    match limit {
        Some(limit) => dollars_shown(limit),
        None => Text::Message("goal-budget-limit-unlimited", Box::new(Args::End)),
    }
}

/// Two named parts, and the rest.
pub open spec fn parts(n1: &'static str, v1: Text, n2: &'static str, v2: Text, rest: Args) -> Box<Args> {
    Box::new(Args::Arg(n1, v1, Box::new(Args::Arg(n2, v2, Box::new(rest)))))
}

/// A budget is shown with the tokens used against the token limit, and the cost
/// against the cost limit wherever the cost can be relied upon or is a lower
/// bound; without a ledger only the limits are shown.
pub proof fn law_budget_in_words(goal: GoalTaskView, usage: GoalUsageTotals)
    ensures
        token_limit_text(goal.effective_token_limit) == tokens_shown(goal.effective_token_limit),
        cost_limit_text(goal.effective_cost_limit_usd) == cost_shown(goal.effective_cost_limit_usd),
        budget_summary(goal, None) == Text::Message(
            "goal-budget-summary-unavailable",
            parts(
                "token_limit",
                tokens_shown(goal.effective_token_limit),
                "cost_limit",
                cost_shown(goal.effective_cost_limit_usd),
                Args::End,
            ),
        ),
        ({
            let reliable = usage.cost_tracking_available && usage.cost_pricing_available;
            let with_cost = if usage.usage_available {
                reliable
            } else {
                !usage.cost_usd.is_zero_amount()
            };
            budget_summary(goal, Some(usage)) == Text::Message(
                if with_cost {
                    if usage.usage_available {
                        "goal-budget-summary"
                    } else {
                        "goal-budget-summary-incomplete"
                    }
                } else if usage.usage_available {
                    "goal-budget-summary-cost-unavailable"
                } else {
                    "goal-budget-summary-incomplete-cost-unavailable"
                },
                parts(
                    "tokens_used",
                    Text::Number(usage.total_tokens),
                    "token_limit",
                    tokens_shown(goal.effective_token_limit),
                    if with_cost {
                        *parts(
                            "cost_used",
                            dollars_shown(usage.cost_usd),
                            "cost_limit",
                            cost_shown(goal.effective_cost_limit_usd),
                            Args::End,
                        )
                    } else {
                        Args::End
                    },
                ),
            )
        }),
{
}

/// What is known of the use of a goal's budget.
pub enum Standing {
    Within,
    Reached,
    Unaccounted(GoalBudgetUnavailableCause),
}

/// Where a goal stands: unaccounted for where its usage is not fully known, or
/// where it has a cost limit and costs cannot be relied upon; at its limits as
/// soon as it has reached one of them; within them otherwise.
pub open spec fn standing(goal: GoalTaskView, usage: Option<GoalUsageTotals>) -> Standing {
    match usage {
        Some(usage) => if !usage.usage_available {
            Standing::Unaccounted(GoalBudgetUnavailableCause::UsageUnavailable)
        } else if goal.effective_cost_limit_usd is Some && !(usage.cost_tracking_available
            && usage.cost_pricing_available) {
            Standing::Unaccounted(GoalBudgetUnavailableCause::CostPricingUnavailable)
        } else if (goal.effective_token_limit matches Some(limit) && limit <= usage.total_tokens) || (
        goal.effective_cost_limit_usd matches Some(limit) && usage.cost_usd.at_least(limit)) {
            Standing::Reached
        } else {
            Standing::Within
        },
        None => Standing::Unaccounted(GoalBudgetUnavailableCause::UsageUnavailable),
    }
}

pub open spec fn count_field(limit: Option<u64>) -> Json {
    match limit {
        Some(limit) => Json::Count(limit),
        None => Json::Null,
    }
}

pub open spec fn dollars_field(limit: Option<Usd>) -> Json {
    match limit {
        Some(limit) => Json::Dollars(limit),
        None => Json::Null,
    }
}

/// One budget blocker with a payload, under a reason, and a description, both
/// of which show the budget.
pub open spec fn is_budget_pause(
    pause: GoalPauseView,
    reason: GoalPauseReason,
    description: &'static str,
    blocker: &'static str,
    budget: Text,
    payload: Json,
) -> bool {
    &&& pause.reason == reason
    &&& pause.description == Some(
        Text::Message(description, Box::new(Args::Arg("budget", budget, Box::new(Args::End)))),
    )
    &&& pause.blockers == seq![
        GoalBlocker {
            kind: GoalBlockerKind::Budget,
            message: Text::Message(blocker, Box::new(Args::Arg("budget", budget, Box::new(Args::End)))),
            payload: Some(payload),
        },
    ]
}

/// A goal that cannot be accounted for pauses as such and says which part is
/// missing; one at its limits pauses as exhausted and says which; one within
/// its limits does not pause.
pub proof fn law_pause_says_where_the_goal_stands(goal: GoalTaskView, usage: Option<GoalUsageTotals>)
    ensures
        match standing(goal, usage) {
            Standing::Within => accounting_pause(goal, usage) is None,
            Standing::Unaccounted(cause) => accounting_pause(goal, usage) == Some(unavailable_pause(goal, cause)),
            Standing::Reached => accounting_pause(goal, usage) matches Some(pause) && usage matches Some(usage)
                && is_budget_pause(
                pause,
                GoalPauseReason::BudgetExhausted,
                "goal-command-budget-exhausted-description",
                "goal-command-budget-exhausted-blocker",
                budget_summary(goal, Some(usage)),
                Json::Object(
                    Box::new(
                        Fields::Field(
                            "tokens",
                            Json::Object(
                                Box::new(
                                    Fields::Field(
                                        "exhausted",
                                        Json::Bool(
                                            goal.effective_token_limit matches Some(limit) && limit
                                                <= usage.total_tokens,
                                        ),
                                        Box::new(
                                            Fields::Field(
                                                "used",
                                                Json::Count(usage.total_tokens),
                                                Box::new(
                                                    Fields::Field(
                                                        "limit",
                                                        count_field(goal.effective_token_limit),
                                                        Box::new(Fields::End),
                                                    ),
                                                ),
                                            ),
                                        ),
                                    ),
                                ),
                            ),
                            Box::new(
                                Fields::Field(
                                    "cost",
                                    Json::Object(
                                        Box::new(
                                            Fields::Field(
                                                "exhausted",
                                                Json::Bool(
                                                    goal.effective_cost_limit_usd matches Some(limit)
                                                        && usage.cost_usd.at_least(limit),
                                                ),
                                                Box::new(
                                                    Fields::Field(
                                                        "used_usd",
                                                        Json::Dollars(usage.cost_usd),
                                                        Box::new(
                                                            Fields::Field(
                                                                "limit_usd",
                                                                dollars_field(goal.effective_cost_limit_usd),
                                                                Box::new(Fields::End),
                                                            ),
                                                        ),
                                                    ),
                                                ),
                                            ),
                                        ),
                                    ),
                                    Box::new(Fields::End),
                                ),
                            ),
                        ),
                    ),
                ),
            ),
        },
{
}

/// The pause of a goal that cannot be accounted for names the missing part and
/// the limits.
pub proof fn law_unaccounted_pause_names_the_cause(goal: GoalTaskView, cause: GoalBudgetUnavailableCause)
    ensures
        is_budget_pause(
            unavailable_pause(goal, cause),
            GoalPauseReason::BudgetUnavailable,
            "goal-command-budget-unavailable-description",
            "goal-command-budget-unavailable-blocker",
            budget_summary(goal, None),
            Json::Object(
                Box::new(
                    Fields::Field(
                        "usage_unavailable",
                        Json::Bool(cause == GoalBudgetUnavailableCause::UsageUnavailable),
                        Box::new(
                            Fields::Field(
                                "cost_pricing_unavailable",
                                Json::Bool(cause == GoalBudgetUnavailableCause::CostPricingUnavailable),
                                Box::new(
                                    Fields::Field(
                                        "token_limit",
                                        count_field(goal.effective_token_limit),
                                        Box::new(
                                            Fields::Field(
                                                "cost_limit_usd",
                                                dollars_field(goal.effective_cost_limit_usd),
                                                Box::new(Fields::End),
                                            ),
                                        ),
                                    ),
                                ),
                            ),
                        ),
                    ),
                ),
            ),
        ),
{
}

/// More usage never lifts a pause, and never turns one at the limits into none.
pub proof fn law_more_usage_never_helps(goal: GoalTaskView, usage: GoalUsageTotals, more: GoalUsageTotals)
    requires
        accounting_pause(goal, Some(usage)) is Some,
        usage.total_tokens <= more.total_tokens,
        more.cost_usd.at_least(usage.cost_usd),
        more.usage_available ==> usage.usage_available,
        more.cost_tracking_available ==> usage.cost_tracking_available,
        more.cost_pricing_available ==> usage.cost_pricing_available,
    ensures
        accounting_pause(goal, Some(more)) is Some,
{
}

// ---------------------------------------------------------------- ledgers
/// A ledger that has to take entries and cannot, or that cannot be read, says
/// nothing; any other says exactly what was read.
pub proof fn law_ledger_is_reported(reading: LedgerReading, writable: bool)
    ensures
        usage_from(None, writable) is None,
        (usage_from(Some(reading), writable) is None) == (reading.totals is None || (writable && !reading.storage_ready)),
        usage_from(Some(reading), writable) matches Some(usage) ==> (reading.totals matches Some((
            tokens,
            cost,
            priced,
            known,
        )) && usage.total_tokens == tokens && usage.cost_usd == cost && usage.cost_pricing_available == priced
            && usage.usage_available == known && usage.cost_tracking_available == reading.enabled),
{
}

/// A goal that has not started has used nothing; under a configuration that is
/// known only from a healthy ledger.
pub proof fn law_new_goal_has_used_nothing(configured: bool, ledger: Option<TrackerState>)
    ensures
        (initial_usage(configured, ledger) is None) == (configured && !(ledger is Some && ledger->Some_0.healthy)),
        initial_usage(configured, ledger) matches Some(usage) ==> {
            &&& usage.total_tokens == 0
            &&& usage.cost_usd.bits == 0
            &&& usage.usage_available
            &&& usage.cost_pricing_available
            &&& usage.cost_tracking_available == (configured ==> ledger->Some_0.enabled)
        },
{
}

/// A cost limit is refused exactly where costs are not counted reliably; a goal
/// without one is not.
pub proof fn law_cost_limit_needs_tracking(tracking: Option<CostTracking>, limit: Option<Usd>, healthy: Option<bool>)
    ensures
        tracking_missing(tracking, limit, healthy) == (limit is Some && !costs_tracked(tracking, healthy)),
{
}

// ---------------------------------------------------------------- pauses
/// The blockers that do not come from the budget: all of them and no others, in
/// their order.
pub proof fn law_other_blockers_keep_their_order(front: Seq<GoalBlocker>, blocker: GoalBlocker)
    ensures
        other_blockers(Seq::<GoalBlocker>::empty()) == Seq::<GoalBlocker>::empty(),
        other_blockers(front.push(blocker)) == (match blocker.kind {
            GoalBlockerKind::Budget => other_blockers(front),
            _ => other_blockers(front).push(blocker),
        }),
{
    reveal(Seq::filter);
    assert(front.push(blocker).drop_last() =~= front);
    assert(other_blockers(Seq::<GoalBlocker>::empty()) =~= Seq::<GoalBlocker>::empty());
}

/// A budget pause on top of another leaves the older reason and description
/// where there are any, keeps every blocker that is not the budget's in front,
/// and adds its own behind them.
pub proof fn law_budget_pause_comes_on_top(goal: GoalTaskView, pause: GoalPauseView)
    ensures
        ({
            let merged = merged_pause(goal, pause);
            let kept = other_blockers(goal.blockers);
            &&& goal.pause_reason matches Some(reason) ==> merged.reason == reason
            &&& goal.pause_reason is None ==> merged.reason == pause.reason
            &&& goal.pause_description is Some ==> merged.description == goal.pause_description
            &&& goal.pause_description is None ==> merged.description == pause.description
            &&& merged.blockers.len() == kept.len() + pause.blockers.len()
            &&& merged.blockers.take(kept.len() as int) == kept
            &&& merged.blockers.skip(kept.len() as int) == pause.blockers
        }),
{
    let merged = merged_pause(goal, pause);
    let kept = other_blockers(goal.blockers);
    assert(merged.blockers.take(kept.len() as int) =~= kept);
    assert(merged.blockers.skip(kept.len() as int) =~= pause.blockers);
}

/// What is left of a pause without its budget part: nothing if only the budget
/// held the goal up; otherwise the same description, the other blockers, and a
/// reason that is not the budget's: the one it had, or that of the first
/// blocker that is left.
pub proof fn law_budget_part_is_taken_away(goal: GoalTaskView)
    ensures
        ({
            let kept = other_blockers(goal.blockers);
            match unbudgeted_pause(goal) {
                None => kept.len() == 0,
                Some(pause) => {
                    &&& kept.len() > 0
                    &&& pause.blockers == kept
                    &&& pause.description == goal.pause_description
                    &&& match goal.pause_reason {
                        None => pause.reason == reason_for(kept[0].kind),
                        Some(GoalPauseReason::BudgetExhausted) => pause.reason == reason_for(kept[0].kind),
                        Some(GoalPauseReason::BudgetUnavailable) => pause.reason == reason_for(kept[0].kind),
                        Some(reason) => pause.reason == reason,
                    }
                },
            }
        }),
        budget_paused(goal) == (goal.pause_reason == Some(GoalPauseReason::BudgetExhausted) || goal.pause_reason == Some(
            GoalPauseReason::BudgetUnavailable,
        ) || exists|i: int| 0 <= i < goal.blockers.len() && (#[trigger] goal.blockers[i]).kind is Budget),
{
}

/// Every kind of blocker has a reason of its own.
pub proof fn law_each_blocker_has_its_reason(a: GoalBlockerKind, b: GoalBlockerKind)
    ensures
        reason_for(a) == reason_for(b) ==> a == b,
        a is OperatorPause <==> reason_for(a) is OperatorPaused,
        a is NeedsUserInput <==> reason_for(a) is NeedsUserInput,
        a is HumanEscalation <==> reason_for(a) is HumanEscalation,
        a is ExternalDependency <==> reason_for(a) is ExternalDependency,
        a is Provider <==> reason_for(a) is ProviderUnavailable,
        a is Verifier <==> reason_for(a) is VerifierBlocked,
        a is Budget <==> reason_for(a) is BudgetExhausted,
        a is RestartRecovery <==> reason_for(a) is DaemonRestart,
        !(reason_for(a) is BudgetUnavailable),
{
}

/// The line of a position in a list of texts.
pub open spec fn line_at(texts: Texts, i: int) -> Option<Text>
    decreases texts,
{
    match texts {
        Texts::End => None,
        Texts::Item(text, rest) => if i == 0 {
            Some(text)
        } else {
            line_at(*rest, i - 1)
        },
    }
}

proof fn lemma_lines(blockers: Seq<GoalBlocker>, from: int, i: int)
    requires
        0 <= from <= blockers.len(),
        0 <= i,
    ensures
        line_at(blocker_lines(blockers, from), i) == (if from + i < blockers.len() {
            Some(blocker_line(blockers[from + i]))
        } else {
            None
        }),
    decreases blockers.len() - from,
{
    if from < blockers.len() && i > 0 {
        lemma_lines(blockers, from + 1, i - 1);
    }
}

/// The blockers in words: one line for each, in their order, with its kind and,
/// if it says something, its message; nothing where there are none.
pub proof fn law_blockers_in_words(blockers: Seq<GoalBlocker>, i: int)
    requires
        0 <= i,
    ensures
        match summary_of(blockers) {
            None => blockers.len() == 0,
            Some(summary) => blockers.len() > 0 && (summary matches Text::Joined(between, lines) && between == "; "
                && line_at(*lines, i) == (if i < blockers.len() {
                let kind = Text::Message(blocker_kind_key(blockers[i].kind), Box::new(Args::End));
                Some(
                    if blank_text(blockers[i].message) {
                        kind
                    } else {
                        Text::Message(
                            "goal-command-blocker-summary-item",
                            parts("kind", kind, "message", Text::Trimmed(Box::new(blockers[i].message)), Args::End),
                        )
                    },
                )
            } else {
                None::<Text>
            })),
        },
{
    lemma_lines(blockers, 0, i);
}

// ---------------------------------------------------------------- catalogue keys
/// Each status, each reason and each kind of blocker has its own entry in the
/// catalogue.
pub proof fn law_catalogue_keys()
    ensures
        forall|s: TaskStatus| #[trigger] status_key(s) == match s {
            TaskStatus::Running => "goal-status-running",
            TaskStatus::Paused => "goal-status-paused",
            TaskStatus::Completed => "goal-status-completed",
            TaskStatus::Failed => "goal-status-failed",
            TaskStatus::Cancelled => "goal-status-cancelled",
            TaskStatus::Lost => "goal-status-lost",
            TaskStatus::TimedOut => "goal-status-timed-out",
        },
        forall|r: GoalPauseReason| #[trigger] pause_reason_key(r) == match r {
            GoalPauseReason::OperatorPaused => "goal-pause-reason-operator-paused",
            GoalPauseReason::NeedsUserInput => "goal-pause-reason-needs-user-input",
            GoalPauseReason::HumanEscalation => "goal-pause-reason-human-escalation",
            GoalPauseReason::ExternalDependency => "goal-pause-reason-external-dependency",
            GoalPauseReason::ProviderUnavailable => "goal-pause-reason-provider-unavailable",
            GoalPauseReason::VerifierBlocked => "goal-pause-reason-verifier-blocked",
            GoalPauseReason::BudgetExhausted => "goal-pause-reason-budget-exhausted",
            GoalPauseReason::BudgetUnavailable => "goal-pause-reason-budget-unavailable",
            GoalPauseReason::DaemonRestart => "goal-pause-reason-daemon-restarted",
        },
        forall|k: GoalBlockerKind| #[trigger] blocker_kind_key(k) == match k {
            GoalBlockerKind::OperatorPause => "goal-blocker-kind-operator-pause",
            GoalBlockerKind::NeedsUserInput => "goal-blocker-kind-needs-user-input",
            GoalBlockerKind::HumanEscalation => "goal-blocker-kind-human-escalation",
            GoalBlockerKind::ExternalDependency => "goal-blocker-kind-external-dependency",
            GoalBlockerKind::Provider => "goal-blocker-kind-provider",
            GoalBlockerKind::Verifier => "goal-blocker-kind-verifier",
            GoalBlockerKind::Budget => "goal-blocker-kind-budget",
            GoalBlockerKind::RestartRecovery => "goal-blocker-kind-restart-recovery",
        },
{
}

/// The parts of a pause that accounting calls for: what is known to be used up
/// or not to be known pauses a goal, a missing ledger pauses a goal with a
/// limit, and where ledgers are required every goal.
pub proof fn law_parts_of_the_accounting(goal: GoalTaskView, usage: Option<GoalUsageTotals>)
    ensures
        ({
            let limited = goal.effective_token_limit is Some || goal.effective_cost_limit_usd is Some;
            let unknown = Some(unavailable_pause(goal, GoalBudgetUnavailableCause::UsageUnavailable));
            if usage is None {
                &&& budget_pause(goal, usage) is None
                &&& gate_pause(goal, usage) == (if limited {
                    unknown
                } else {
                    None
                })
                &&& ledger_pause(goal, usage) == unknown
                &&& accounting_pause(goal, usage) == unknown
            } else {
                &&& ledger_pause(goal, usage) is None
                &&& gate_pause(goal, usage) == budget_pause(goal, usage)
                &&& accounting_pause(goal, usage) == budget_pause(goal, usage)
            }
        }),
{
}

/// What the budget calls for is what the calls that look at it say.
pub proof fn law_budget_is_looked_at(
    goal: &GoalTaskRecord,
    usage: Option<GoalUsageTotals>,
    cause: GoalBudgetUnavailableCause,
    limited: bool,
    exhaustion: Option<GoalBudgetExhaustion>,
    unavailable: Option<GoalPauseState>,
    budget: Option<GoalPauseState>,
    gate: Option<GoalPauseState>,
    ledger: Option<GoalPauseState>,
    accounting: Option<GoalPauseState>,
)
    requires
        call_ensures(goal_has_effective_budget, (goal,), limited),
        call_ensures(goal_budget_exhaustion, (goal, usage), exhaustion),
        call_ensures(goal_budget_unavailable_pause, (goal, cause), unavailable),
        call_ensures(goal_budget_pause, (goal, usage), budget),
        call_ensures(goal_budget_gate_pause, (goal, usage), gate),
        call_ensures(goal_usage_ledger_gate_pause, (goal, usage), ledger),
        call_ensures(goal_accounting_gate_pause, (goal, usage), accounting),
    ensures
        limited <==> goal.effective_token_limit is Some || goal.effective_cost_limit_usd is Some,
        unavailable is Some <==> limited,
        unavailable matches Some(pause) ==> pause@ == unavailable_pause(goal@, cause),
        exhaustion is Some <==> (usage matches Some(used) && ((goal.effective_token_limit matches Some(limit)
            && used.total_tokens >= limit) || (goal.effective_cost_limit_usd matches Some(limit)
            && used.cost_usd.at_least(limit)))),
        exhaustion matches Some(found) ==> {
            let used = usage->Some_0;
            &&& found.tokens <==> (goal.effective_token_limit matches Some(limit) && used.total_tokens >= limit)
            &&& found.cost <==> (goal.effective_cost_limit_usd matches Some(limit) && used.cost_usd.at_least(limit))
        },
        budget is Some <==> budget_pause(goal@, usage) is Some,
        budget matches Some(pause) ==> budget_pause(goal@, usage) == Some(pause@),
        gate is Some <==> gate_pause(goal@, usage) is Some,
        gate matches Some(pause) ==> gate_pause(goal@, usage) == Some(pause@),
        ledger is Some <==> usage is None,
        ledger matches Some(pause) ==> pause@ == unavailable_pause(
            goal@,
            GoalBudgetUnavailableCause::UsageUnavailable,
        ),
        accounting is Some <==> accounting_pause(goal@, usage) is Some,
        accounting matches Some(pause) ==> accounting_pause(goal@, usage) == Some(pause@),
{
}

} // verus!
