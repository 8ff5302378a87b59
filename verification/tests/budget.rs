//! Budgets, usage and the pauses they lead to.
use zeroclaw_runtime::error::GoalError;
use zeroclaw_runtime::goal::budget::{
    amount_digits, blockers_summary, ensure_cost_budget_tracking_available, formatted_cost,
    goal_accounting_gate_pause, goal_budget_exhaustion, goal_budget_gate_pause, goal_budget_pause,
    goal_budget_summary, goal_has_effective_budget, goal_recovery_status_message, goal_usage_ledger_gate_pause,
    goal_usage_ledger_is_healthy, goal_usage_totals_from_tracker, has_budget_blocker, has_budget_pause,
    initial_goal_usage_totals, is_budget_pause_reason, merge_budget_pause, reason_for_blocker_kind,
    remove_budget_pause, task_status_label, CostTracking, GoalUsageTotals, LedgerReading, TrackerState,
};
use zeroclaw_runtime::goal_task::{
    GoalBlocker, GoalBlockerKind, GoalPauseReason, GoalPauseState, GoalTaskRecord,
};
use zeroclaw_runtime::message::{msg, msg1, msg2, msg3, msg4, plain, Text, Texts};
use zeroclaw_runtime::payload::{Fields, Json};
use zeroclaw_runtime::task::TaskStatus;
use zeroclaw_runtime::usd::Usd;

fn usd(value: f64) -> Usd {
    Usd { bits: value.to_bits() }
}

fn limited(token_limit: Option<u64>, cost_limit: Option<f64>) -> GoalTaskRecord {
    GoalTaskRecord {
        task_id: "goal-1".into(),
        objective: "ship it".into(),
        effective_token_limit: token_limit,
        effective_cost_limit_usd: cost_limit.map(usd),
        ..GoalTaskRecord::default()
    }
}

fn blocker(kind: GoalBlockerKind, message: &str) -> GoalBlocker {
    GoalBlocker { kind, message: plain(message), payload: None }
}

/// The member of an object with a name.
fn member<'a>(value: &'a Json, name: &str) -> &'a Json {
    if let Json::Object(fields) = value {
        let mut fields: &Fields = fields;
        while let Fields::Field(key, value, rest) = fields {
            if *key == name {
                return value;
            }
            fields = rest;
        }
    }
    panic!("no member {name}")
}

fn payload_of(pause: &GoalPauseState) -> &Json {
    pause.blockers[0].payload.as_ref().unwrap()
}

fn unlimited() -> Text {
    msg("goal-budget-limit-unlimited")
}

/// The digits that an amount is shown with.
fn digits(value: f64) -> String {
    amount_digits(usd(value), format!("{value:.4}"), format!("{value:.4e}"))
}

#[test]
fn goal_budget_pause_marks_exhausted_dimensions_from_ledger_summary() {
    let goal = limited(Some(1_000), Some(0.50));
    let usage = GoalUsageTotals {
        cost_usd: usd(0.75),
        total_tokens: 1_000,
        cost_pricing_available: true,
        cost_tracking_available: true,
        usage_available: true,
    };

    let pause = goal_budget_pause(&goal, Some(usage)).unwrap();

    assert_eq!(pause.reason, GoalPauseReason::BudgetExhausted);
    assert_eq!(pause.blockers.len(), 1);
    assert_eq!(pause.blockers[0].kind, GoalBlockerKind::Budget);
    let payload = payload_of(&pause);
    assert_eq!(member(member(payload, "tokens"), "exhausted"), &Json::Bool(true));
    assert_eq!(member(member(payload, "cost"), "exhausted"), &Json::Bool(true));
    assert_eq!(
        pause.blockers[0].message,
        msg1("goal-command-budget-exhausted-blocker", "budget", goal_budget_summary(&goal, Some(usage)))
    );
}

#[test]
fn goal_budget_gate_pauses_when_limits_exist_without_usage_summary() {
    let goal = limited(Some(1_000), None);

    let pause = goal_budget_gate_pause(&goal, None).unwrap();

    assert_eq!(pause.reason, GoalPauseReason::BudgetUnavailable);
    assert_eq!(pause.blockers.len(), 1);
    assert_eq!(pause.blockers[0].kind, GoalBlockerKind::Budget);
    assert_eq!(member(payload_of(&pause), "usage_unavailable"), &Json::Bool(true));
    assert_eq!(member(payload_of(&pause), "cost_pricing_unavailable"), &Json::Bool(false));
}

#[test]
fn unlimited_goal_pauses_when_usage_is_unavailable() {
    let goal = limited(None, None);
    let usage = GoalUsageTotals { usage_available: false, ..GoalUsageTotals::default() };

    let pause =
        goal_budget_gate_pause(&goal, Some(usage)).expect("unlimited autonomous work still requires complete usage");
    assert_eq!(pause.reason, GoalPauseReason::BudgetUnavailable);
    assert_eq!(pause.blockers[0].kind, GoalBlockerKind::Budget);
}

#[test]
fn incomplete_usage_summary_keeps_known_totals_visible_as_lower_bounds() {
    let goal = limited(None, None);
    let token_only = GoalUsageTotals {
        total_tokens: 1_250,
        cost_tracking_available: false,
        usage_available: false,
        ..GoalUsageTotals::default()
    };
    let priced = GoalUsageTotals {
        total_tokens: 1_250,
        cost_usd: usd(0.25),
        usage_available: false,
        cost_pricing_available: false,
        ..GoalUsageTotals::default()
    };

    assert_eq!(
        goal_budget_summary(&goal, Some(token_only)),
        msg2(
            "goal-budget-summary-incomplete-cost-unavailable",
            "tokens_used",
            Text::Number(1250),
            "token_limit",
            unlimited(),
        )
    );
    assert_eq!(
        goal_budget_summary(&goal, Some(priced)),
        msg4(
            "goal-budget-summary-incomplete",
            "tokens_used",
            Text::Number(1250),
            "token_limit",
            unlimited(),
            "cost_used",
            formatted_cost(usd(0.25)),
            "cost_limit",
            unlimited(),
        )
    );
    assert_eq!(digits(0.25), "0.2500");
}

#[test]
fn incomplete_ledger_usage_keeps_known_cost_visible_as_a_lower_bound() {
    let reading = LedgerReading {
        storage_ready: true,
        totals: Some((1, usd(0.000_000_25), false, false)),
        enabled: false,
    };
    let usage = goal_usage_totals_from_tracker(Some(reading), true).expect("ledger-derived usage");
    let goal = limited(None, None);

    assert!(!usage.usage_available);
    assert!(!usage.cost_pricing_available);
    assert!(!usage.cost_tracking_available);
    assert_eq!(usage.cost_usd, usd(0.000_000_25));
    assert_eq!(
        goal_budget_summary(&goal, Some(usage)),
        msg4(
            "goal-budget-summary-incomplete",
            "tokens_used",
            Text::Number(1),
            "token_limit",
            unlimited(),
            "cost_used",
            msg1("goal-budget-cost-value", "amount", Text::Dollars(usd(0.000_000_25))),
            "cost_limit",
            unlimited(),
        )
    );
    assert_eq!(digits(0.000_000_25), "2.5000e-7");
}

#[test]
fn unlimited_goal_pauses_when_the_canonical_ledger_is_unavailable() {
    let goal = limited(None, None);

    let pause =
        goal_usage_ledger_gate_pause(&goal, None).expect("a missing ledger cannot retain goal-attributed usage");

    assert_eq!(pause.reason, GoalPauseReason::BudgetUnavailable);
    assert_eq!(pause.blockers[0].kind, GoalBlockerKind::Budget);
}

#[test]
fn goal_budget_gate_treats_unpriced_cost_usage_as_unavailable() {
    let mut goal = limited(Some(1_000), Some(0.50));
    let usage = GoalUsageTotals {
        total_tokens: 250,
        cost_usd: usd(0.0),
        cost_pricing_available: false,
        cost_tracking_available: true,
        usage_available: true,
    };

    let pause = goal_budget_gate_pause(&goal, Some(usage)).unwrap();

    assert_eq!(pause.reason, GoalPauseReason::BudgetUnavailable);
    assert_eq!(pause.blockers[0].kind, GoalBlockerKind::Budget);
    assert_eq!(member(payload_of(&pause), "usage_unavailable"), &Json::Bool(false));
    assert_eq!(member(payload_of(&pause), "cost_pricing_unavailable"), &Json::Bool(true));

    goal.effective_cost_limit_usd = None;
    assert!(
        goal_budget_gate_pause(&goal, Some(usage)).is_none(),
        "unpriced cost must not block a token-only budget"
    );
}

#[test]
fn removing_budget_pause_preserves_unrelated_blockers() {
    let mut goal = limited(Some(1_000), None);
    goal.pause_reason = Some(GoalPauseReason::BudgetExhausted);
    goal.pause_description = Some(plain("multiple blockers"));
    goal.blockers = vec![
        blocker(GoalBlockerKind::NeedsUserInput, "Need operator answer"),
        blocker(GoalBlockerKind::Budget, "Budget exhausted"),
    ];

    let pause = remove_budget_pause(&goal).unwrap();

    assert_eq!(pause.reason, GoalPauseReason::NeedsUserInput);
    assert_eq!(pause.blockers.len(), 1);
    assert_eq!(pause.blockers[0].kind, GoalBlockerKind::NeedsUserInput);

    let only_budget =
        GoalTaskRecord { blockers: vec![blocker(GoalBlockerKind::Budget, "Budget exhausted")], ..goal };
    assert!(remove_budget_pause(&only_budget).is_none());
}

#[test]
fn goal_recovery_status_message_includes_objective_and_budget() {
    let goal = GoalTaskRecord {
        task_id: "goal-recovered".into(),
        objective: "finish the restart smoke".into(),
        effective_token_limit: Some(12_000),
        ..GoalTaskRecord::default()
    };

    assert_eq!(
        goal_recovery_status_message(&goal, None),
        msg3(
            "goal-command-recovered",
            "task_id",
            plain("goal-recovered"),
            "objective",
            plain("finish the restart smoke"),
            "budget",
            msg2(
                "goal-budget-summary-unavailable",
                "token_limit",
                Text::Number(12_000),
                "cost_limit",
                unlimited(),
            ),
        )
    );
}

#[test]
fn read_only_goal_usage_keeps_disabled_cost_token_totals_visible() {
    let reading =
        LedgerReading { storage_ready: false, totals: Some((1_500, usd(0.0), true, true)), enabled: false };

    let usage = goal_usage_totals_from_tracker(Some(reading), false)
        .expect("read-only status should see the disabled-cost goal ledger");

    assert_eq!(usage.total_tokens, 1_500);
    assert!(usage.usage_available);
    assert!(!usage.cost_tracking_available);
    assert_eq!(goal_usage_totals_from_tracker(Some(reading), true), None);
    assert_eq!(goal_usage_totals_from_tracker(None, false), None);
}

#[test]
fn complete_usage_is_shown_with_its_cost() {
    let goal = limited(Some(10), Some(1.5));
    let usage = GoalUsageTotals { total_tokens: 3, cost_usd: usd(0.5), ..GoalUsageTotals::default() };
    assert_eq!(
        goal_budget_summary(&goal, Some(usage)),
        msg4(
            "goal-budget-summary",
            "tokens_used",
            Text::Number(3),
            "token_limit",
            Text::Number(10),
            "cost_used",
            formatted_cost(usd(0.5)),
            "cost_limit",
            formatted_cost(usd(1.5)),
        )
    );
    let unpriced = GoalUsageTotals { cost_pricing_available: false, ..usage };
    assert_eq!(
        goal_budget_summary(&goal, Some(unpriced)),
        msg2("goal-budget-summary-cost-unavailable", "tokens_used", Text::Number(3), "token_limit", Text::Number(10))
    );
    assert_eq!(digits(0.0), "0.0000");
    assert_eq!(digits(1234.56789), "1234.5679");
}

#[test]
fn a_limit_is_exhausted_once_it_is_reached() {
    let goal = limited(Some(100), Some(1.0));
    let spent = |tokens: u64, cost: f64| GoalUsageTotals {
        total_tokens: tokens,
        cost_usd: usd(cost),
        ..GoalUsageTotals::default()
    };
    assert!(goal_budget_exhaustion(&goal, Some(spent(99, 0.99))).is_none());
    let by_tokens = goal_budget_exhaustion(&goal, Some(spent(100, 0.99))).unwrap();
    assert!(by_tokens.tokens && !by_tokens.cost);
    let by_cost = goal_budget_exhaustion(&goal, Some(spent(99, 1.0))).unwrap();
    assert!(!by_cost.tokens && by_cost.cost);
    assert!(goal_budget_exhaustion(&goal, None).is_none());
    assert!(goal_has_effective_budget(&goal));
    assert!(!goal_has_effective_budget(&limited(None, None)));
}

#[test]
fn a_goal_goes_on_under_its_limits_and_under_looser_ones() {
    let usage = GoalUsageTotals { total_tokens: 99, cost_usd: usd(0.5), ..GoalUsageTotals::default() };
    assert!(goal_accounting_gate_pause(&limited(Some(100), Some(1.0)), Some(usage)).is_none());
    assert!(goal_accounting_gate_pause(&limited(Some(200), None), Some(usage)).is_none());
    assert!(goal_accounting_gate_pause(&limited(None, None), Some(usage)).is_none());
    assert!(goal_accounting_gate_pause(&limited(Some(99), None), Some(usage)).is_some());
    assert!(goal_accounting_gate_pause(&limited(None, None), None).is_some());
}

#[test]
fn cost_limits_need_a_tracker_that_tracks() {
    let refused = Err(GoalError::new(msg("goal-command-error-cost-tracking-required")));
    let tracking =
        |enabled: bool, tracker: Option<TrackerState>| Some(CostTracking { enabled, tracker });
    let healthy = Some(TrackerState { enabled: true, healthy: true });
    let limit = Some(usd(1.0));
    assert_eq!(ensure_cost_budget_tracking_available(tracking(true, healthy), limit, None), Ok(()));
    assert_eq!(ensure_cost_budget_tracking_available(tracking(true, healthy), limit, Some(false)), refused);
    assert_eq!(ensure_cost_budget_tracking_available(tracking(false, healthy), limit, None), refused);
    assert_eq!(ensure_cost_budget_tracking_available(tracking(true, None), limit, None), refused);
    assert_eq!(ensure_cost_budget_tracking_available(tracking(false, None), None, None), Ok(()));
    assert_eq!(ensure_cost_budget_tracking_available(None, limit, None), Ok(()));
    assert!(goal_usage_ledger_is_healthy(true, true));
    assert!(!goal_usage_ledger_is_healthy(true, false));
}

#[test]
fn a_new_goal_has_used_nothing_yet() {
    assert_eq!(initial_goal_usage_totals(false, None), Some(GoalUsageTotals::default()));
    assert_eq!(initial_goal_usage_totals(true, None), None);
    assert_eq!(initial_goal_usage_totals(true, Some(TrackerState { enabled: true, healthy: false })), None);
    let usage = initial_goal_usage_totals(true, Some(TrackerState { enabled: false, healthy: true })).unwrap();
    assert_eq!(usage, GoalUsageTotals { cost_tracking_available: false, ..GoalUsageTotals::default() });
}

#[test]
fn a_budget_pause_replaces_the_one_before() {
    let mut goal = limited(Some(10), None);
    goal.pause_reason = Some(GoalPauseReason::BudgetExhausted);
    goal.blockers =
        vec![blocker(GoalBlockerKind::Provider, "down"), blocker(GoalBlockerKind::Budget, "an older one")];
    let pause = goal_budget_gate_pause(&goal, None).unwrap();
    let merged = merge_budget_pause(&goal, pause);
    let kinds: Vec<GoalBlockerKind> = merged.blockers.iter().map(|b| b.kind).collect();
    assert_eq!(kinds, vec![GoalBlockerKind::Provider, GoalBlockerKind::Budget]);
    assert!(has_budget_blocker(&goal));
    assert!(has_budget_pause(&goal));
    assert!(!has_budget_blocker(&limited(None, None)));
    assert!(is_budget_pause_reason(Some(GoalPauseReason::BudgetUnavailable)));
    assert!(!is_budget_pause_reason(None));
    assert_eq!(reason_for_blocker_kind(GoalBlockerKind::Provider), GoalPauseReason::ProviderUnavailable);
}

#[test]
fn blockers_are_told_one_after_the_other() {
    assert!(blockers_summary(&Vec::new()).is_none());
    let told = blockers_summary(&vec![blocker(GoalBlockerKind::OperatorPause, "maintenance window")]).unwrap();
    let item = msg2(
        "goal-command-blocker-summary-item",
        "kind",
        msg("goal-blocker-kind-operator-pause"),
        "message",
        Text::Trimmed(Box::new(plain("maintenance window"))),
    );
    match told {
        Text::Joined("; ", items) => match *items {
            Texts::Item(first, _) => assert_eq!(first, item),
            Texts::End => panic!("no item"),
        },
        other => panic!("unexpected {other:?}"),
    }
    assert_eq!(task_status_label(TaskStatus::Paused), msg("goal-status-paused"));
}

#[test]
fn amounts_compare_like_the_numbers_they_stand_for() {
    let values = [0.0, 1e-300, 0.5, 1.0, 1.5, 1e300, f64::INFINITY];
    for a in values {
        for b in values {
            assert_eq!(usd(a).reaches(usd(b)), a >= b, "{a} against {b}");
            assert_eq!(usd(-a).reaches(usd(b)), -a >= b, "-{a} against {b}");
            assert_eq!(usd(-a).reaches(usd(-b)), -a >= -b, "-{a} against -{b}");
        }
        assert!(!usd(f64::NAN).reaches(usd(a)));
        assert!(!usd(a).reaches(usd(f64::NAN)));
    }
    assert!(usd(-0.0).is_zero() && usd(0.0).is_zero());
    assert!(!usd(-0.0).is_positive());
    assert!(!usd(f64::NAN).is_finite() && !usd(f64::INFINITY).is_finite());
    assert!(usd(0.01).is_valid_limit() && !usd(0.0).is_valid_limit());
    assert!(usd(0.0).is_storable_limit() && !usd(-0.01).is_storable_limit());
    assert_eq!(Usd::zero(), usd(0.0));
}
