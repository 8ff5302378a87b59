//! Reading `/goal` commands.
use zeroclaw_runtime::error::GoalError;
use zeroclaw_runtime::goal::command::{
    command_token, nonempty, parse_budget_flag, parse_budget_payload, parse_cost_budget_value, parse_goal_command,
    parse_objective_payload, parse_optional_task_id, parse_resume_payload, parse_start_payload,
    parse_token_budget_value, strip_goal_command_prefix, CommandError, CommandFault, GoalBudgetOverrides,
    GoalBudgetValue, GoalCommand, GoalCommandAction,
};
use zeroclaw_runtime::message::{msg, msg1, plain};
use zeroclaw_runtime::usd::Usd;

fn usd(value: f64) -> Usd {
    Usd { bits: value.to_bits() }
}

fn amount(text: &str) -> Option<Usd> {
    text.parse::<f64>().ok().map(usd)
}

/// A mention of the bot may follow the name of the command.
fn names_goal(token: &str) -> bool {
    token.split('@').next() == Some("/goal")
}

fn parse(input: &str) -> Result<GoalCommand, CommandError> {
    parse_goal_command(input, names_goal(command_token(input)), amount)
}

fn fault(input: &str) -> (CommandFault, String) {
    let error = parse(input).unwrap_err();
    (error.fault, error.part)
}

#[test]
fn parse_goal_start_keeps_objective_untrusted_payload_only() {
    let parsed = parse("/goal start ship the thing").unwrap();
    assert_eq!(parsed.action, GoalCommandAction::Start);
    assert_eq!(parsed.objective.as_deref(), Some("ship the thing"));
    assert!(parsed.task_id.is_none());
    assert!(parsed.resume_reason.is_none());

    let parsed = parse("/goal@zeroclaw_bot START ship the thing").unwrap();
    assert_eq!(parsed.action, GoalCommandAction::Start);
    assert_eq!(parsed.objective.as_deref(), Some("ship the thing"));

    assert_eq!(fault("/unknown start ship the thing"), (CommandFault::InvalidCommand, "/unknown".to_string()));
    assert_eq!(fault("start ship the thing"), (CommandFault::InvalidCommand, "start".to_string()));
    assert_eq!(fault("goal start ship the thing"), (CommandFault::InvalidCommand, "goal".to_string()));

    let parsed = parse("/goal resume fixed").unwrap();
    assert_eq!(parsed.action, GoalCommandAction::Resume);
    assert!(parsed.task_id.is_none());
    assert_eq!(parsed.resume_reason.as_deref(), Some("fixed"));
}

#[test]
fn parse_goal_objective_requires_freeform_objective_payload() {
    let parsed = parse("/goal objective revise scope after evidence").unwrap();
    assert_eq!(parsed.action, GoalCommandAction::Objective);
    assert_eq!(parsed.objective.as_deref(), Some("revise scope after evidence"));
    assert!(parsed.task_id.is_none());
    assert!(parsed.resume_reason.is_none());

    assert_eq!(fault("/goal objective").0, CommandFault::MissingObjective);
}

#[test]
fn parse_goal_resume_accepts_freeform_reason_payloads() {
    let parsed = parse("/goal resume blocker fixed, retry now").unwrap();
    assert!(parsed.task_id.is_none());
    assert_eq!(parsed.resume_reason.as_deref(), Some("blocker fixed, retry now"));

    let parsed = parse("/goal resume goal-123").unwrap();
    assert!(parsed.task_id.is_none());
    assert_eq!(parsed.resume_reason.as_deref(), Some("goal-123"));

    let task_id = uuid::Uuid::new_v4().to_string();
    let parsed = parse(&format!("/goal resume {task_id} retry after fix")).unwrap();
    assert!(parsed.task_id.is_none());
    let expected = format!("{task_id} retry after fix");
    assert_eq!(parsed.resume_reason.as_deref(), Some(expected.as_str()));

    let parsed = parse("/goal resume --some-flag-looking reason").unwrap();
    assert!(parsed.task_id.is_none());
    assert_eq!(parsed.resume_reason.as_deref(), Some("--some-flag-looking reason"));
}

#[test]
fn parse_goal_task_selectors_reject_extra_arguments() {
    let status = parse("/goal status goal-123").unwrap();
    assert_eq!(status.task_id.as_deref(), Some("goal-123"));

    let cancel = parse("/goal cancel goal-123").unwrap();
    assert_eq!(cancel.task_id.as_deref(), Some("goal-123"));

    assert_eq!(fault("/goal status goal-123 extra"), (CommandFault::UnexpectedArguments, "extra".to_string()));
    assert_eq!(fault("/goal cancel goal-123 extra"), (CommandFault::UnexpectedArguments, "extra".to_string()));
}

#[test]
fn parse_goal_help_and_budget_flags() {
    let help = parse("/goal help").unwrap();
    assert_eq!(help.action, GoalCommandAction::Help);

    let help = parse("/goal --help").unwrap();
    assert_eq!(help.action, GoalCommandAction::Help);

    let help = parse("/goal -h").unwrap();
    assert_eq!(help.action, GoalCommandAction::Help);

    assert_eq!(fault("/goal").0, CommandFault::MissingAction);

    let start = parse("/goal start --tokens=50000 --cost=2.50 ship it").unwrap();
    assert_eq!(start.objective.as_deref(), Some("ship it"));
    assert_eq!(start.budgets.token_limit, GoalBudgetValue::Limited(50_000));
    assert_eq!(start.budgets.cost_limit_usd, GoalBudgetValue::Limited(usd(2.50)));

    let budget = parse("/goal budget --tokens=unlimited --cost=1.25").unwrap();
    assert_eq!(budget.action, GoalCommandAction::Budget);
    assert_eq!(budget.budgets.token_limit, GoalBudgetValue::Unlimited);
    assert_eq!(budget.budgets.cost_limit_usd, GoalBudgetValue::Limited(usd(1.25)));
}

#[test]
fn every_action_is_read_whatever_its_case() {
    for (input, action) in [
        ("/goal STATUS", GoalCommandAction::Status),
        ("/goal Pause maintenance window", GoalCommandAction::Pause),
        ("/goal rEsUmE", GoalCommandAction::Resume),
        ("/goal CANCEL", GoalCommandAction::Cancel),
        ("/goal Budget --tokens=1", GoalCommandAction::Budget),
        ("/goal OBJECTIVE x", GoalCommandAction::Objective),
        ("/goal HELP", GoalCommandAction::Help),
    ] {
        assert_eq!(parse(input).unwrap().action, action, "{input}");
    }
    assert_eq!(parse("/goal Pause maintenance window").unwrap().objective.as_deref(), Some("maintenance window"));
}

#[test]
fn each_fault_names_the_part_that_shows_it() {
    assert_eq!(fault("/goal dance now"), (CommandFault::UnknownAction, "dance".to_string()));
    assert_eq!(fault("/goal start").0, CommandFault::MissingObjective);
    assert_eq!(fault("/goal start --tokens=5").0, CommandFault::MissingObjective);
    assert_eq!(fault("/goal budget").0, CommandFault::MissingBudget);
    assert_eq!(fault("/goal start --bogus ship").0, CommandFault::InvalidBudgetFlag);
    assert_eq!(fault("/goal budget --tokens=0"), (CommandFault::InvalidTokenBudget, "0".to_string()));
    assert_eq!(fault("/goal budget --tokens=many"), (CommandFault::InvalidTokenBudget, "many".to_string()));
    assert_eq!(fault("/goal budget --cost=0"), (CommandFault::InvalidCostBudget, "0".to_string()));
    assert_eq!(fault("/goal budget --cost=-1"), (CommandFault::InvalidCostBudget, "-1".to_string()));
    assert_eq!(fault("/goal budget --cost=inf"), (CommandFault::InvalidCostBudget, "inf".to_string()));
}

#[test]
fn faults_are_told_by_catalogue_entries() {
    let tell = |input: &str| parse(input).unwrap_err().into_error();
    assert_eq!(
        tell("/unknown"),
        GoalError::new(msg1("goal-command-error-invalid-command", "command", plain("/unknown")))
    );
    assert_eq!(tell("/goal"), GoalError::new(msg("goal-command-error-missing-action")));
    assert_eq!(tell("/goal dance"), GoalError::new(msg1("goal-command-error-unknown-action", "action", plain("dance"))));
    assert_eq!(tell("/goal start"), GoalError::new(msg("goal-command-error-missing-objective")));
    assert_eq!(tell("/goal budget"), GoalError::new(msg("goal-command-error-missing-budget")));
    assert_eq!(
        tell("/goal status a b"),
        GoalError::new(msg1("goal-command-error-unexpected-arguments", "args", plain("b")))
    );
    assert_eq!(
        tell("/goal budget --tokens=x"),
        GoalError::new(msg1("goal-command-error-invalid-token-budget", "value", plain("x")))
    );
    assert_eq!(
        tell("/goal budget --cost=x"),
        GoalError::new(msg1("goal-command-error-invalid-cost-budget", "value", plain("x")))
    );
}

#[test]
fn the_objective_is_never_read_as_a_command() {
    let parsed = parse("/goal start cancel goal-7 --tokens=3 /goal stop").unwrap();
    assert_eq!(parsed.action, GoalCommandAction::Start);
    assert_eq!(parsed.objective.as_deref(), Some("cancel goal-7 --tokens=3 /goal stop"));
    assert_eq!(parsed.task_id, None);
    assert_eq!(parsed.budgets, GoalBudgetOverrides::default());
}

#[test]
fn the_pieces_of_a_command_are_read_alone() {
    assert_eq!(command_token("  /goal@bot start"), "/goal@bot");
    assert_eq!(strip_goal_command_prefix("/goal  start x", true).unwrap(), "start x");
    assert_eq!(parse_token_budget_value("UNLIMITED").unwrap(), GoalBudgetValue::Unlimited);
    assert_eq!(parse_token_budget_value("12").unwrap(), GoalBudgetValue::Limited(12));
    assert_eq!(parse_token_budget_value("18446744073709551616").unwrap_err().fault, CommandFault::InvalidTokenBudget);
    assert_eq!(parse_cost_budget_value("0.5", &amount).unwrap(), GoalBudgetValue::Limited(usd(0.5)));
    let both = parse_budget_flag("tokens=7", GoalBudgetOverrides::default(), &amount).unwrap();
    assert_eq!(both.token_limit, GoalBudgetValue::Limited(7));
    assert_eq!(both.cost_limit_usd, GoalBudgetValue::Default);
    let (budgets, objective) = parse_start_payload("--cost=unlimited  ship   it ", &amount).unwrap();
    assert_eq!(budgets.cost_limit_usd, GoalBudgetValue::Unlimited);
    assert_eq!(objective, "ship   it");
    assert_eq!(
        parse_budget_payload("--tokens=7 --cost=1", &amount).unwrap(),
        GoalBudgetOverrides { token_limit: GoalBudgetValue::Limited(7), cost_limit_usd: GoalBudgetValue::Limited(usd(1.0)) }
    );
    assert_eq!(nonempty(" \t"), None);
    assert_eq!(nonempty(" a "), Some("a".to_string()));
    assert_eq!(parse_resume_payload(""), None);
    assert_eq!(parse_objective_payload(" x ").unwrap(), "x");
    assert_eq!(parse_optional_task_id("").unwrap(), None);
}
