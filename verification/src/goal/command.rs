//! The text form of goal commands.
use vstd::prelude::*;
#[allow(unused_imports)]
use vstd::string::*;

use crate::error::GoalError;
use crate::message::{msg, msg1, Text};
use crate::text::{
    ascii_lowered, blank, equals_lowered, is_blank, mark_position, opt_view, parse_u64, parsed_u64, same_text, split_at_mark,
    split_at_whitespace, starts_with, strip_prefix, to_ascii_lowercase, trim, trim_start, trimmed, trimmed_start,
    whitespace, whitespace_position,
};
use crate::usd::Usd;

verus! {

/// What a command asks for.
#[derive(Clone, Copy, Debug, PartialEq, Eq, Structural)]
pub enum GoalCommandAction {
    Help,
    Start,
    Objective,
    Status,
    Budget,
    Pause,
    Resume,
    Cancel,
}

/// A limit in a command.
#[derive(Clone, Copy, Debug, PartialEq, Eq, Structural)]
pub enum GoalBudgetValue<T> {
    /// Not mentioned.
    Default,
    Unlimited,
    Limited(T),
}

/// The limits in a command.
#[derive(Clone, Copy, Debug, PartialEq, Eq, Structural)]
pub struct GoalBudgetOverrides {
    pub token_limit: GoalBudgetValue<u64>,
    pub cost_limit_usd: GoalBudgetValue<Usd>,
}

/// A command.
#[derive(Debug, PartialEq, Eq)]
pub struct GoalCommand {
    pub action: GoalCommandAction,
    pub objective: Option<String>,
    pub task_id: Option<String>,
    pub resume_reason: Option<String>,
    pub budgets: GoalBudgetOverrides,
}

/// What a `GoalCommand` says.
pub struct CommandView {
    pub action: GoalCommandAction,
    pub objective: Option<Seq<char>>,
    pub task_id: Option<Seq<char>>,
    pub resume_reason: Option<Seq<char>>,
    pub budgets: GoalBudgetOverrides,
}

impl View for GoalCommand {
    type V = CommandView;

    open spec fn view(&self) -> CommandView {
        CommandView {
            action: self.action,
            objective: opt_view(self.objective),
            task_id: opt_view(self.task_id),
            resume_reason: opt_view(self.resume_reason),
            budgets: self.budgets,
        }
    }
}

/// What is wrong with the text of a command.
#[derive(Clone, Copy, Debug, PartialEq, Eq, Structural)]
pub enum CommandFault {
    InvalidCommand,
    MissingAction,
    UnknownAction,
    MissingObjective,
    InvalidBudgetFlag,
    MissingBudget,
    UnexpectedArguments,
    InvalidTokenBudget,
    InvalidCostBudget,
}

/// A fault, and the part of the text that shows it.
#[derive(Debug, PartialEq, Eq)]
pub struct CommandError {
    pub fault: CommandFault,
    pub part: String,
}

/// What a `CommandError` says.
pub struct CommandErrorView {
    pub fault: CommandFault,
    pub part: Seq<char>,
}

impl View for CommandError {
    type V = CommandErrorView;

    open spec fn view(&self) -> CommandErrorView {
        CommandErrorView { fault: self.fault, part: self.part@ }
    }
}

impl CommandError {
    /// The fault as people are told.
    pub fn into_error(self) -> (r: GoalError)
        ensures
            r == crate::error::failure(fault_text(self)),
    {
        let part = Text::Plain(self.part);
        let text = match self.fault {
            CommandFault::InvalidCommand => msg1("goal-command-error-invalid-command", "command", part),
            CommandFault::MissingAction => msg("goal-command-error-missing-action"),
            CommandFault::UnknownAction => msg1("goal-command-error-unknown-action", "action", part),
            CommandFault::MissingObjective => msg("goal-command-error-missing-objective"),
            CommandFault::InvalidBudgetFlag => msg1("goal-command-error-invalid-budget-flag", "flag", part),
            CommandFault::MissingBudget => msg("goal-command-error-missing-budget"),
            CommandFault::UnexpectedArguments => msg1("goal-command-error-unexpected-arguments", "args", part),
            CommandFault::InvalidTokenBudget => msg1("goal-command-error-invalid-token-budget", "value", part),
            CommandFault::InvalidCostBudget => msg1("goal-command-error-invalid-cost-budget", "value", part),
        };
        GoalError::new(text)
    }
}

/// A fault as people are told.
pub open spec fn fault_text(error: CommandError) -> Text {
    let part = Text::Plain(error.part);
    match error.fault {
        CommandFault::InvalidCommand => crate::message::message1("goal-command-error-invalid-command", "command", part),
        CommandFault::MissingAction => crate::message::label("goal-command-error-missing-action"),
        CommandFault::UnknownAction => crate::message::message1("goal-command-error-unknown-action", "action", part),
        CommandFault::MissingObjective => crate::message::label("goal-command-error-missing-objective"),
        CommandFault::InvalidBudgetFlag => crate::message::message1(
            "goal-command-error-invalid-budget-flag",
            "flag",
            part,
        ),
        CommandFault::MissingBudget => crate::message::label("goal-command-error-missing-budget"),
        CommandFault::UnexpectedArguments => crate::message::message1(
            "goal-command-error-unexpected-arguments",
            "args",
            part,
        ),
        CommandFault::InvalidTokenBudget => crate::message::message1(
            "goal-command-error-invalid-token-budget",
            "value",
            part,
        ),
        CommandFault::InvalidCostBudget => crate::message::message1(
            "goal-command-error-invalid-cost-budget",
            "value",
            part,
        ),
    }
}

/// Nothing mentioned.
pub open spec fn no_overrides() -> GoalBudgetOverrides {
    GoalBudgetOverrides { token_limit: GoalBudgetValue::Default, cost_limit_usd: GoalBudgetValue::Default }
}

impl Default for GoalBudgetOverrides {
    fn default() -> (r: Self)
        ensures
            r == no_overrides(),
    {
        GoalBudgetOverrides { token_limit: GoalBudgetValue::Default, cost_limit_usd: GoalBudgetValue::Default }
    }
}

pub open spec fn fault<T>(fault: CommandFault, part: Seq<char>) -> Result<T, CommandErrorView> {
    Err(CommandErrorView { fault, part })
}

fn faulty(fault: CommandFault, part: &str) -> (r: CommandError)
    ensures
        r@ == (CommandErrorView { fault, part: part@ }),
{
    CommandError { fault, part: part.to_owned() }
}

fn faultless(fault: CommandFault) -> (r: CommandError)
    ensures
        r@ == (CommandErrorView { fault, part: Seq::empty() }),
{
    CommandError { fault, part: String::new() }
}

/// `reader` reads amounts as `cost` says.
pub open spec fn agrees<F: Fn(&str) -> Option<Usd>>(reader: F, cost: spec_fn(Seq<char>) -> Option<Usd>) -> bool {
    forall|s: &str, r: Option<Usd>| #[trigger] reader.ensures((s,), r) ==> r == cost(s@)
}

/// `reader` can read any text.
pub open spec fn reads_all<F: Fn(&str) -> Option<Usd>>(reader: F) -> bool {
    forall|s: &str| #[trigger] reader.requires((s,))
}

/// Results compared by what they say.
pub open spec fn said<T>(r: Result<T, CommandError>) -> Result<T, CommandErrorView> {
    match r {
        Ok(value) => Ok(value),
        Err(error) => Err(error@),
    }
}

// ---------------------------------------------------------------- values
/// A token limit: a positive number, or unlimited.
pub open spec fn token_value(value: Seq<char>) -> Result<GoalBudgetValue<u64>, CommandErrorView> {
    let t = trimmed(value);
    if ascii_lowered(t) == "unlimited"@ {
        Ok(GoalBudgetValue::Unlimited)
    } else {
        match parsed_u64(t) {
            Some(limit) => if limit == 0 {
                fault(CommandFault::InvalidTokenBudget, t)
            } else {
                Ok(GoalBudgetValue::Limited(limit))
            },
            None => fault(CommandFault::InvalidTokenBudget, t),
        }
    }
}

/// A cost limit: a positive, finite amount, or unlimited.
pub open spec fn cost_value(value: Seq<char>, cost: spec_fn(Seq<char>) -> Option<Usd>) -> Result<
    GoalBudgetValue<Usd>,
    CommandErrorView,
> {
    let t = trimmed(value);
    if ascii_lowered(t) == "unlimited"@ {
        Ok(GoalBudgetValue::Unlimited)
    } else {
        match cost(t) {
            Some(limit) => if limit.valid_limit() {
                Ok(GoalBudgetValue::Limited(limit))
            } else {
                fault(CommandFault::InvalidCostBudget, t)
            },
            None => fault(CommandFault::InvalidCostBudget, t),
        }
    }
}

pub fn parse_token_budget_value(value: &str) -> (r: Result<GoalBudgetValue<u64>, CommandError>)
    ensures
        said(r) == token_value(value@),
{
    let t = trim(value);
    if equals_lowered(t, "unlimited") {
        return Ok(GoalBudgetValue::Unlimited);
    }
    match parse_u64(t) {
        Some(limit) => if limit == 0 {
            Err(faulty(CommandFault::InvalidTokenBudget, t))
        } else {
            Ok(GoalBudgetValue::Limited(limit))
        },
        None => Err(faulty(CommandFault::InvalidTokenBudget, t)),
    }
}

/// Reads a cost limit; `read_amount` reads the digits.
pub fn parse_cost_budget_value<F: Fn(&str) -> Option<Usd>>(value: &str, read_amount: &F) -> (r: Result<
    GoalBudgetValue<Usd>,
    CommandError,
>)
    requires
        reads_all(*read_amount),
    ensures
        forall|cost: spec_fn(Seq<char>) -> Option<Usd>| #[trigger]
            agrees(*read_amount, cost) ==> said(r) == cost_value(value@, cost),
{
    let t = trim(value);
    if equals_lowered(t, "unlimited") {
        return Ok(GoalBudgetValue::Unlimited);
    }
    match read_amount(t) {
        Some(limit) => if limit.is_valid_limit() {
            Ok(GoalBudgetValue::Limited(limit))
        } else {
            Err(faulty(CommandFault::InvalidCostBudget, t))
        },
        None => Err(faulty(CommandFault::InvalidCostBudget, t)),
    }
}

/// The limits after one flag.
pub open spec fn flag_value(
    flag: Seq<char>,
    budgets: GoalBudgetOverrides,
    cost: spec_fn(Seq<char>) -> Option<Usd>,
) -> Result<GoalBudgetOverrides, CommandErrorView> {
    let k = mark_position(flag, '=');
    if k == flag.len() {
        fault(CommandFault::InvalidBudgetFlag, flag)
    } else if flag.take(k) == "tokens"@ {
        match token_value(flag.skip(k + 1)) {
            Ok(limit) => Ok(GoalBudgetOverrides { token_limit: limit, ..budgets }),
            Err(error) => Err(error),
        }
    } else if flag.take(k) == "cost"@ {
        match cost_value(flag.skip(k + 1), cost) {
            Ok(limit) => Ok(GoalBudgetOverrides { cost_limit_usd: limit, ..budgets }),
            Err(error) => Err(error),
        }
    } else {
        fault(CommandFault::InvalidBudgetFlag, flag)
    }
}

pub fn parse_budget_flag<F: Fn(&str) -> Option<Usd>>(flag: &str, budgets: GoalBudgetOverrides, read_amount: &F) -> (r:
    Result<GoalBudgetOverrides, CommandError>)
    requires
        reads_all(*read_amount),
    ensures
        forall|cost: spec_fn(Seq<char>) -> Option<Usd>| #[trigger]
            agrees(*read_amount, cost) ==> said(r) == flag_value(flag@, budgets, cost),
{
    let (name, value) = match split_at_mark(flag, '=') {
        Some(parts) => parts,
        None => {
            return Err(faulty(CommandFault::InvalidBudgetFlag, flag));
        },
    };
    if same_text(name, "tokens") {
        match parse_token_budget_value(value) {
            Ok(limit) => Ok(GoalBudgetOverrides { token_limit: limit, cost_limit_usd: budgets.cost_limit_usd }),
            Err(error) => Err(error),
        }
    } else if same_text(name, "cost") {
        match parse_cost_budget_value(value, read_amount) {
            Ok(limit) => Ok(GoalBudgetOverrides { token_limit: budgets.token_limit, cost_limit_usd: limit }),
            Err(error) => Err(error),
        }
    } else {
        Err(faulty(CommandFault::InvalidBudgetFlag, flag))
    }
}

// ---------------------------------------------------------------- payloads
/// The part up to the first white space.
pub open spec fn head(s: Seq<char>) -> Seq<char> {
    s.take(whitespace_position(s))
}

/// The part after the first white space.
pub open spec fn tail(s: Seq<char>) -> Seq<char> {
    if whitespace_position(s) < s.len() {
        s.skip(whitespace_position(s) + 1)
    } else {
        Seq::empty()
    }
}

proof fn lemma_whitespace_position(s: Seq<char>, from: int)
    requires
        0 <= from <= s.len(),
    ensures
        from <= crate::text::position_from(s, |c: char| whitespace(c), from) <= s.len(),
    decreases s.len() - from,
{
    if from < s.len() && !whitespace(s[from]) {
        lemma_whitespace_position(s, from + 1);
    }
}

proof fn lemma_trimmed_start_shorter(s: Seq<char>)
    ensures
        trimmed_start(s).len() <= s.len(),
    decreases s.len(),
{
    if s.len() > 0 && whitespace(s[0]) {
        lemma_trimmed_start_shorter(s.skip(1));
    }
}

/// Flags in front of an objective, each led by two hyphens; what follows them
/// is the objective, without white space at its ends.
pub open spec fn start_payload(
    s: Seq<char>,
    budgets: GoalBudgetOverrides,
    cost: spec_fn(Seq<char>) -> Option<Usd>,
) -> Result<(GoalBudgetOverrides, Seq<char>), CommandErrorView>
    decreases s.len(),
    via start_payload_decreases
{
    if !"--"@.is_prefix_of(s) {
        Ok((budgets, trimmed(s)))
    } else {
        let flag = s.skip(2);
        match flag_value(head(flag), budgets, cost) {
            Err(error) => Err(error),
            Ok(next) => start_payload(trimmed_start(tail(flag)), next, cost),
        }
    }
}

#[via_fn]
proof fn start_payload_decreases(s: Seq<char>, budgets: GoalBudgetOverrides, cost: spec_fn(Seq<char>) -> Option<Usd>) {
    reveal_strlit("--");
    if "--"@.is_prefix_of(s) {
        lemma_whitespace_position(s.skip(2), 0);
        lemma_trimmed_start_shorter(tail(s.skip(2)));
    }
}

/// Results of a start compared by what they say.
pub open spec fn said_start(r: Result<(GoalBudgetOverrides, String), CommandError>) -> Result<
    (GoalBudgetOverrides, Seq<char>),
    CommandErrorView,
> {
    match r {
        Ok((budgets, objective)) => Ok((budgets, objective@)),
        Err(error) => Err(error@),
    }
}

pub fn parse_start_payload<F: Fn(&str) -> Option<Usd>>(input: &str, read_amount: &F) -> (r: Result<
    (GoalBudgetOverrides, String),
    CommandError,
>)
    requires
        reads_all(*read_amount),
    ensures
        forall|cost: spec_fn(Seq<char>) -> Option<Usd>| #[trigger]
            agrees(*read_amount, cost) ==> said_start(r) == start_payload(trimmed(input@), no_overrides(), cost),
{
    let mut budgets = GoalBudgetOverrides::default();
    let mut rest = trim(input);
    loop
        invariant
            reads_all(*read_amount),
            forall|cost: spec_fn(Seq<char>) -> Option<Usd>| #[trigger]
                agrees(*read_amount, cost) ==> start_payload(trimmed(input@), no_overrides(), cost) == start_payload(
                    rest@,
                    budgets,
                    cost,
                ),
        decreases rest@.len(),
    {
        proof {
            reveal_strlit("--");
        }
        match strip_prefix(rest, "--") {
            None => {
                return Ok((budgets, trim(rest).to_owned()));
            },
            Some(next) => {
                proof {
                    lemma_whitespace_position(next@, 0);
                    lemma_trimmed_start_shorter(tail(next@));
                }
                let (flag, after) = match split_at_whitespace(next) {
                    Some((flag, after)) => (flag, trim_start(after)),
                    None => {
                        proof {
                            reveal_strlit("");
                            assert(next@.take(next@.len() as int) =~= next@);
                            assert(""@ =~= trimmed_start(Seq::<char>::empty()));
                        }
                        (next, "")
                    },
                };
                assert(flag@ == head(next@));
                assert(after@ == trimmed_start(tail(next@)));
                match parse_budget_flag(flag, budgets, read_amount) {
                    Err(error) => {
                        return Err(error);
                    },
                    Ok(more) => {
                        budgets = more;
                    },
                }
                rest = after;
            },
        }
    }
}

/// Flags alone, separated by white space; at least one.
pub open spec fn budget_payload(
    s: Seq<char>,
    budgets: GoalBudgetOverrides,
    saw_value: bool,
    cost: spec_fn(Seq<char>) -> Option<Usd>,
) -> Result<GoalBudgetOverrides, CommandErrorView>
    decreases s.len(),
    via budget_payload_decreases
{
    let t = trimmed_start(s);
    if t.len() == 0 {
        if saw_value {
            Ok(budgets)
        } else {
            fault(CommandFault::MissingBudget, Seq::empty())
        }
    } else if !"--"@.is_prefix_of(head(t)) {
        fault(CommandFault::InvalidBudgetFlag, head(t))
    } else {
        match flag_value(head(t).skip(2), budgets, cost) {
            Err(error) => Err(error),
            Ok(next) => budget_payload(tail(t), next, true, cost),
        }
    }
}

#[via_fn]
proof fn budget_payload_decreases(
    s: Seq<char>,
    budgets: GoalBudgetOverrides,
    saw_value: bool,
    cost: spec_fn(Seq<char>) -> Option<Usd>,
) {
    lemma_trimmed_start_shorter(s);
    lemma_whitespace_position(trimmed_start(s), 0);
    let t = trimmed_start(s);
    if t.len() > 0 {
        assert(tail(t).len() < t.len());
    }
}

pub fn parse_budget_payload<F: Fn(&str) -> Option<Usd>>(input: &str, read_amount: &F) -> (r: Result<
    GoalBudgetOverrides,
    CommandError,
>)
    requires
        reads_all(*read_amount),
    ensures
        forall|cost: spec_fn(Seq<char>) -> Option<Usd>| #[trigger]
            agrees(*read_amount, cost) ==> said(r) == budget_payload(input@, no_overrides(), false, cost),
{
    let mut budgets = GoalBudgetOverrides::default();
    let mut saw_value = false;
    let mut rest = input;
    loop
        invariant
            reads_all(*read_amount),
            forall|cost: spec_fn(Seq<char>) -> Option<Usd>| #[trigger]
                agrees(*read_amount, cost) ==> budget_payload(input@, no_overrides(), false, cost) == budget_payload(
                    rest@,
                    budgets,
                    saw_value,
                    cost,
                ),
        decreases rest@.len(),
    {
        let t = trim_start(rest);
        proof {
            lemma_trimmed_start_shorter(rest@);
            lemma_whitespace_position(t@, 0);
            reveal_strlit("--");
        }
        if t.unicode_len() == 0 {
            if !saw_value {
                return Err(faultless(CommandFault::MissingBudget));
            }
            return Ok(budgets);
        }
        let (token, after) = match split_at_whitespace(t) {
            Some((token, after)) => (token, after),
            None => {
                proof {
                    reveal_strlit("");
                    assert(t@.take(t@.len() as int) =~= t@);
                    assert(""@ =~= Seq::<char>::empty());
                }
                (t, "")
            },
        };
        assert(token@ == head(t@));
        assert(after@ == tail(t@));
        match strip_prefix(token, "--") {
            None => {
                return Err(faulty(CommandFault::InvalidBudgetFlag, token));
            },
            Some(flag) => {
                match parse_budget_flag(flag, budgets, read_amount) {
                    Err(error) => {
                        return Err(error);
                    },
                    Ok(more) => {
                        budgets = more;
                        saw_value = true;
                    },
                }
            },
        }
        rest = after;
    }
}

/// A text that says something, without white space at its ends.
pub open spec fn nonempty_text(s: Seq<char>) -> Option<Seq<char>> {
    if blank(s) {
        None
    } else {
        Some(trimmed(s))
    }
}

pub fn nonempty(value: &str) -> (r: Option<String>)
    ensures
        opt_view(r) == nonempty_text(value@),
{
    if is_blank(value) {
        None
    } else {
        Some(trim(value).to_owned())
    }
}

/// The reason of a resume: any text.
pub fn parse_resume_payload(input: &str) -> (r: Option<String>)
    ensures
        opt_view(r) == nonempty_text(input@),
{
    nonempty(input)
}

/// An objective: any text that says something.
pub fn parse_objective_payload(input: &str) -> (r: Result<String, CommandError>)
    ensures
        match r {
            Ok(objective) => nonempty_text(input@) == Some(objective@),
            Err(error) => nonempty_text(input@) is None && error@ == (CommandErrorView {
                fault: CommandFault::MissingObjective,
                part: Seq::empty(),
            }),
        },
{
    match nonempty(input) {
        Some(objective) => Ok(objective),
        None => Err(faultless(CommandFault::MissingObjective)),
    }
}

/// At most one task id.
pub open spec fn task_selector(s: Seq<char>) -> Result<Option<Seq<char>>, CommandErrorView> {
    let t = trimmed(s);
    if t.len() == 0 {
        Ok(None)
    } else if whitespace_position(t) < t.len() {
        fault(CommandFault::UnexpectedArguments, trimmed(tail(t)))
    } else {
        Ok(Some(t))
    }
}

pub open spec fn said_selector(r: Result<Option<String>, CommandError>) -> Result<Option<Seq<char>>, CommandErrorView> {
    match r {
        Ok(id) => Ok(opt_view(id)),
        Err(error) => Err(error@),
    }
}

pub fn parse_optional_task_id(input: &str) -> (r: Result<Option<String>, CommandError>)
    ensures
        said_selector(r) == task_selector(input@),
{
    let rest = trim(input);
    if rest.unicode_len() == 0 {
        return Ok(None);
    }
    match split_at_whitespace(rest) {
        Some((_, after)) => Err(faulty(CommandFault::UnexpectedArguments, trim(after))),
        None => Ok(Some(rest.to_owned())),
    }
}

// ---------------------------------------------------------------- commands
/// The command token of an input: its first word.
pub open spec fn command_word(input: Seq<char>) -> Seq<char> {
    head(trimmed(input))
}

/// What follows the command token.
pub open spec fn command_rest(input: Seq<char>) -> Seq<char> {
    trimmed(tail(trimmed(input)))
}

/// The first word of an input, which names its command.
pub fn command_token(input: &str) -> (r: &str)
    ensures
        r@ == command_word(input@),
{
    let t = trim(input);
    match split_at_whitespace(t) {
        Some((token, _)) => token,
        None => {
            assert(t@.take(t@.len() as int) =~= t@);
            t
        },
    }
}

/// What follows the goal command's token. `names_goal` says whether the
/// command catalogue takes the token for the goal command.
pub fn strip_goal_command_prefix(input: &str, names_goal: bool) -> (r: Result<&str, CommandError>)
    ensures
        match r {
            Ok(rest) => "/"@.is_prefix_of(command_word(input@)) && names_goal && rest@ == command_rest(input@),
            Err(error) => !("/"@.is_prefix_of(command_word(input@)) && names_goal) && error@ == (CommandErrorView {
                fault: CommandFault::InvalidCommand,
                part: command_word(input@),
            }),
        },
{
    let token = command_token(input);
    if !starts_with(token, "/") || !names_goal {
        return Err(faulty(CommandFault::InvalidCommand, token));
    }
    let t = trim(input);
    match split_at_whitespace(t) {
        Some((_, rest)) => Ok(trim(rest)),
        None => {
            proof {
                reveal_strlit("");
                assert(""@ =~= trimmed(Seq::<char>::empty()));
            }
            Ok("")
        },
    }
}

pub open spec fn bare(action: GoalCommandAction) -> CommandView {
    CommandView { action, objective: None, task_id: None, resume_reason: None, budgets: no_overrides() }
}

/// The command behind an action word and what follows it.
pub open spec fn action_command(
    action: Seq<char>,
    rest: Seq<char>,
    cost: spec_fn(Seq<char>) -> Option<Usd>,
) -> Result<CommandView, CommandErrorView> {
    if action == "help"@ || action == "--help"@ || action == "-h"@ {
        Ok(bare(GoalCommandAction::Help))
    } else if action == "start"@ {
        match start_payload(trimmed(rest), no_overrides(), cost) {
            Err(error) => Err(error),
            Ok((budgets, objective)) => if objective.len() == 0 {
                fault(CommandFault::MissingObjective, Seq::empty())
            } else {
                Ok(CommandView { objective: Some(objective), budgets, ..bare(GoalCommandAction::Start) })
            },
        }
    } else if action == "objective"@ {
        match nonempty_text(rest) {
            Some(objective) => Ok(CommandView { objective: Some(objective), ..bare(GoalCommandAction::Objective) }),
            None => fault(CommandFault::MissingObjective, Seq::empty()),
        }
    } else if action == "status"@ {
        match task_selector(rest) {
            Ok(task_id) => Ok(CommandView { task_id, ..bare(GoalCommandAction::Status) }),
            Err(error) => Err(error),
        }
    } else if action == "budget"@ {
        match budget_payload(rest, no_overrides(), false, cost) {
            Ok(budgets) => Ok(CommandView { budgets, ..bare(GoalCommandAction::Budget) }),
            Err(error) => Err(error),
        }
    } else if action == "pause"@ {
        Ok(CommandView { objective: nonempty_text(rest), ..bare(GoalCommandAction::Pause) })
    } else if action == "resume"@ {
        Ok(CommandView { resume_reason: nonempty_text(rest), ..bare(GoalCommandAction::Resume) })
    } else if action == "cancel"@ {
        match task_selector(rest) {
            Ok(task_id) => Ok(CommandView { task_id, ..bare(GoalCommandAction::Cancel) }),
            Err(error) => Err(error),
        }
    } else {
        fault(CommandFault::UnknownAction, action)
    }
}

/// The command that an input spells: the goal command's token, an action word
/// in any case, and what the action takes.
pub open spec fn spelled_command(
    input: Seq<char>,
    names_goal: bool,
    cost: spec_fn(Seq<char>) -> Option<Usd>,
) -> Result<CommandView, CommandErrorView> {
    if !("/"@.is_prefix_of(command_word(input)) && names_goal) {
        fault(CommandFault::InvalidCommand, command_word(input))
    } else {
        let rest = command_rest(input);
        if head(rest).len() == 0 {
            fault(CommandFault::MissingAction, Seq::empty())
        } else {
            action_command(ascii_lowered(head(rest)), trimmed(tail(rest)), cost)
        }
    }
}

pub open spec fn said_command(r: Result<GoalCommand, CommandError>) -> Result<CommandView, CommandErrorView> {
    match r {
        Ok(command) => Ok(command@),
        Err(error) => Err(error@),
    }
}

fn bare_command(action: GoalCommandAction) -> (r: GoalCommand)
    ensures
        r@ == bare(action),
        r.action == action,
        r.objective is None,
        r.task_id is None,
        r.resume_reason is None,
        r.budgets == no_overrides(),
{
    GoalCommand { action, objective: None, task_id: None, resume_reason: None, budgets: GoalBudgetOverrides::default() }
}

fn parse_action<F: Fn(&str) -> Option<Usd>>(action: &str, rest: &str, read_amount: &F) -> (r: Result<
    GoalCommand,
    CommandError,
>)
    requires
        reads_all(*read_amount),
    ensures
        forall|cost: spec_fn(Seq<char>) -> Option<Usd>| #[trigger]
            agrees(*read_amount, cost) ==> said_command(r) == action_command(action@, rest@, cost),
{
    if same_text(action, "help") || same_text(action, "--help") || same_text(action, "-h") {
        Ok(bare_command(GoalCommandAction::Help))
    } else if same_text(action, "start") {
        match parse_start_payload(rest, read_amount) {
            Err(error) => Err(error),
            Ok((budgets, objective)) => {
                if objective.as_str().unicode_len() == 0 {
                    return Err(faultless(CommandFault::MissingObjective));
                }
                let mut command = bare_command(GoalCommandAction::Start);
                command.objective = Some(objective);
                command.budgets = budgets;
                Ok(command)
            },
        }
    } else if same_text(action, "objective") {
        match parse_objective_payload(rest) {
            Err(error) => Err(error),
            Ok(objective) => {
                let mut command = bare_command(GoalCommandAction::Objective);
                command.objective = Some(objective);
                Ok(command)
            },
        }
    } else if same_text(action, "status") {
        match parse_optional_task_id(rest) {
            Err(error) => Err(error),
            Ok(task_id) => {
                let mut command = bare_command(GoalCommandAction::Status);
                command.task_id = task_id;
                Ok(command)
            },
        }
    } else if same_text(action, "budget") {
        match parse_budget_payload(rest, read_amount) {
            Err(error) => Err(error),
            Ok(budgets) => {
                let mut command = bare_command(GoalCommandAction::Budget);
                command.budgets = budgets;
                Ok(command)
            },
        }
    } else if same_text(action, "pause") {
        let mut command = bare_command(GoalCommandAction::Pause);
        command.objective = nonempty(rest);
        Ok(command)
    } else if same_text(action, "resume") {
        let mut command = bare_command(GoalCommandAction::Resume);
        command.resume_reason = parse_resume_payload(rest);
        Ok(command)
    } else if same_text(action, "cancel") {
        match parse_optional_task_id(rest) {
            Err(error) => Err(error),
            Ok(task_id) => {
                let mut command = bare_command(GoalCommandAction::Cancel);
                command.task_id = task_id;
                Ok(command)
            },
        }
    } else {
        Err(faulty(CommandFault::UnknownAction, action))
    }
}

/// Reads a goal command. `names_goal` says whether the command catalogue takes
/// the input's first word for the goal command; `read_amount` reads the digits
/// of an amount.
pub fn parse_goal_command<F: Fn(&str) -> Option<Usd>>(input: &str, names_goal: bool, read_amount: F) -> (r: Result<
    GoalCommand,
    CommandError,
>)
    requires
        reads_all(read_amount),
    ensures
        forall|cost: spec_fn(Seq<char>) -> Option<Usd>| #[trigger]
            agrees(read_amount, cost) ==> said_command(r) == spelled_command(input@, names_goal, cost),
{
    let without_prefix = match strip_goal_command_prefix(input, names_goal) {
        Err(error) => {
            return Err(error);
        },
        Ok(rest) => rest,
    };
    let (action, rest) = match split_at_whitespace(without_prefix) {
        Some((action, rest)) => (action, rest),
        None => {
            proof {
                reveal_strlit("");
                assert(without_prefix@.take(without_prefix@.len() as int) =~= without_prefix@);
                assert(""@ =~= Seq::<char>::empty());
            }
            (without_prefix, "")
        },
    };
    assert(action@ == head(without_prefix@));
    assert(rest@ == tail(without_prefix@));
    if action.unicode_len() == 0 {
        return Err(faultless(CommandFault::MissingAction));
    }
    let lowered = to_ascii_lowercase(action);
    parse_action(lowered.as_str(), trim(rest), &read_amount)
}

/// Whatever follows the flags of a start is its objective, word for word: only
/// white space at its ends is dropped, and no text in it is taken for a flag.
pub proof fn law_objective_is_untrusted_payload(objective: Seq<char>, cost: spec_fn(Seq<char>) -> Option<Usd>)
    requires
        !"--"@.is_prefix_of(trimmed(objective)),
        trimmed(objective).len() > 0,
    ensures
        action_command("start"@, objective, cost) == Ok::<CommandView, CommandErrorView>(
            CommandView { objective: Some(trimmed(objective)), ..bare(GoalCommandAction::Start) },
        ),
{
    reveal_strlit("start");
    reveal_strlit("help");
    reveal_strlit("--help");
    reveal_strlit("-h");
    assert("start"@.len() == 5 && "help"@.len() == 4 && "--help"@.len() == 6 && "-h"@.len() == 2);
    crate::text::law_trim_idempotent(objective);
}

/// Limits that a command can set are limits that a goal can carry.
pub proof fn law_parsed_limits_are_positive(
    flag: Seq<char>,
    budgets: GoalBudgetOverrides,
    cost: spec_fn(Seq<char>) -> Option<Usd>,
)
    requires
        budgets.token_limit matches GoalBudgetValue::Limited(limit) ==> limit > 0,
        budgets.cost_limit_usd matches GoalBudgetValue::Limited(limit) ==> limit.valid_limit(),
        flag_value(flag, budgets, cost) is Ok,
    ensures
        ({
            let after = flag_value(flag, budgets, cost)->Ok_0;
            &&& after.token_limit matches GoalBudgetValue::Limited(limit) ==> limit > 0
            &&& after.cost_limit_usd matches GoalBudgetValue::Limited(limit) ==> limit.valid_limit()
        }),
{
}

} // verus!
