//! What the parts of a command's text mean when it is put together.
use vstd::prelude::*;
#[allow(unused_imports)]
use vstd::string::*;

use super::command::{
    action_command, budget_payload, cost_value, fault_text, flag_value, head, no_overrides, spelled_command,
    start_payload, tail, task_selector, token_value, CommandError, CommandErrorView, CommandFault, CommandView,
    GoalBudgetOverrides, GoalBudgetValue, GoalCommandAction,
};
use crate::message::{Args, Text};
use crate::text::{
    ascii_lowered, decimal_text, is_mark, law_trim_idempotent, law_written_number_reads_back, mark_position,
    parsed_u64, position_from, trimmed, trimmed_start, whitespace, whitespace_position,
};
use crate::usd::Usd;

verus! {

/// Something, and no white space in it.
pub open spec fn is_word(s: Seq<char>) -> bool {
    s.len() > 0 && forall|i: int| 0 <= i < s.len() ==> !whitespace(#[trigger] s[i])
}

/// A fault of a command.
pub open spec fn wrong<T>(kind: CommandFault, part: Seq<char>) -> Result<T, CommandErrorView> {
    Err(CommandErrorView { fault: kind, part })
}

// ---------------------------------------------------------------- pieces
proof fn lemma_first(s: Seq<char>, p: spec_fn(char) -> bool, k: int, from: int)
    requires
        0 <= from <= k <= s.len(),
        forall|i: int| 0 <= i < k ==> !p(#[trigger] s[i]),
        k < s.len() ==> p(s[k]),
    ensures
        position_from(s, p, from) == k,
    decreases k - from,
{
    if from < k {
        lemma_first(s, p, k, from + 1);
    }
}

/// A word is its own head, and so it is in front of white space.
proof fn lemma_word(word: Seq<char>, space: char, rest: Seq<char>)
    requires
        forall|i: int| 0 <= i < word.len() ==> !whitespace(#[trigger] word[i]),
        whitespace(space),
    ensures
        whitespace_position(word) == word.len(),
        head(word) == word,
        tail(word) == Seq::<char>::empty(),
        whitespace_position(word.push(space) + rest) == word.len(),
        head(word.push(space) + rest) == word,
        tail(word.push(space) + rest) == rest,
{
    let p = |c: char| whitespace(c);
    let s = word.push(space) + rest;
    assert forall|i: int| 0 <= i < word.len() implies !p(#[trigger] s[i]) by {
        assert(s[i] == word[i]);
    }
    assert(s[word.len() as int] == space);
    lemma_first(word, p, word.len() as int, 0);
    lemma_first(s, p, word.len() as int, 0);
    assert(word.take(word.len() as int) =~= word);
    assert(s.take(word.len() as int) =~= word);
    assert(s.skip(word.len() as int + 1) =~= rest);
}

proof fn lemma_named(name: Seq<char>, value: Seq<char>)
    requires
        forall|i: int| 0 <= i < name.len() ==> #[trigger] name[i] != '=',
    ensures
        mark_position(name.push('=') + value, '=') == name.len(),
        (name.push('=') + value).take(name.len() as int) == name,
        (name.push('=') + value).skip(name.len() as int + 1) == value,
{
    let s = name.push('=') + value;
    assert forall|i: int| 0 <= i < name.len() implies !is_mark('=')(#[trigger] s[i]) by {
        assert(s[i] == name[i]);
    }
    assert(s[name.len() as int] == '=');
    lemma_first(s, is_mark('='), name.len() as int, 0);
    assert(s.take(name.len() as int) =~= name);
    assert(s.skip(name.len() as int + 1) =~= value);
}

/// A text that begins and ends with something else than white space is its own
/// trimmed form.
proof fn lemma_tight(s: Seq<char>)
    requires
        s.len() > 0 ==> !whitespace(s[0]) && !whitespace(s.last()),
    ensures
        trimmed(s) == s,
        trimmed_start(s) == s,
{
}

// ---------------------------------------------------------------- limits
/// A token limit in a command: any case of `unlimited`, or a positive number in
/// decimal; white space around it does not count, and what is refused is named
/// without it.
pub proof fn law_token_limit_is_read(value: Seq<char>)
    ensures
        token_value(value) == token_value(trimmed(value)),
        ascii_lowered(trimmed(value)) == "unlimited"@ ==> token_value(value) == Ok::<
            GoalBudgetValue<u64>,
            CommandErrorView,
        >(GoalBudgetValue::Unlimited),
        ascii_lowered(trimmed(value)) != "unlimited"@ ==> match parsed_u64(trimmed(value)) {
            Some(n) => if n > 0 {
                token_value(value) == Ok::<GoalBudgetValue<u64>, CommandErrorView>(GoalBudgetValue::Limited(n))
            } else {
                token_value(value) == wrong::<GoalBudgetValue<u64>>(CommandFault::InvalidTokenBudget, trimmed(value))
            },
            None => token_value(value) == wrong::<GoalBudgetValue<u64>>(
                CommandFault::InvalidTokenBudget,
                trimmed(value),
            ),
        },
{
    law_trim_idempotent(value);
}

/// A number written out is read as the limit that it is; zero is none.
pub proof fn law_written_token_limit(n: u64)
    ensures
        n > 0 ==> token_value(decimal_text(n as nat)) == Ok::<GoalBudgetValue<u64>, CommandErrorView>(
            GoalBudgetValue::Limited(n),
        ),
        token_value(decimal_text(0)) is Err,
{
    lemma_digits_are_tight(n as nat);
    lemma_digits_are_tight(0);
    law_written_number_reads_back(n);
    law_written_number_reads_back(0);
}

proof fn lemma_digits_are_tight(n: nat)
    ensures
        trimmed(decimal_text(n)) == decimal_text(n),
        ascii_lowered(decimal_text(n)) != "unlimited"@,
{
    crate::text::lemma_written_digits(n);
    let s = decimal_text(n);
    assert(crate::text::ascii_digit(s[0]));
    assert(crate::text::ascii_digit(s.last()));
    lemma_tight(s);
    reveal_strlit("unlimited");
    assert(ascii_lowered(s)[0] == s[0]);
    assert("unlimited"@[0] == 'u');
}

/// A cost limit in a command: any case of `unlimited`, or an amount that a
/// budget can carry.
pub proof fn law_cost_limit_is_read(value: Seq<char>, cost: spec_fn(Seq<char>) -> Option<Usd>)
    ensures
        cost_value(value, cost) == cost_value(trimmed(value), cost),
        ascii_lowered(trimmed(value)) == "unlimited"@ ==> cost_value(value, cost) == Ok::<
            GoalBudgetValue<Usd>,
            CommandErrorView,
        >(GoalBudgetValue::Unlimited),
        ascii_lowered(trimmed(value)) != "unlimited"@ ==> match cost(trimmed(value)) {
            Some(amount) => if amount.finite() && amount.rank() > 0 {
                cost_value(value, cost) == Ok::<GoalBudgetValue<Usd>, CommandErrorView>(
                    GoalBudgetValue::Limited(amount),
                )
            } else {
                cost_value(value, cost) == wrong::<GoalBudgetValue<Usd>>(
                    CommandFault::InvalidCostBudget,
                    trimmed(value),
                )
            },
            None => cost_value(value, cost) == wrong::<GoalBudgetValue<Usd>>(
                CommandFault::InvalidCostBudget,
                trimmed(value),
            ),
        },
{
    law_trim_idempotent(value);
}

/// A flag that gives a token limit.
pub open spec fn tokens_flag(value: Seq<char>) -> Seq<char> {
    "tokens"@.push('=') + value
}

/// A flag that gives a cost limit.
pub open spec fn cost_flag(value: Seq<char>) -> Seq<char> {
    "cost"@.push('=') + value
}

/// Each flag sets its own limit and leaves the other as it was read before.
pub proof fn law_flag_sets_its_own_limit(
    value: Seq<char>,
    budgets: GoalBudgetOverrides,
    cost: spec_fn(Seq<char>) -> Option<Usd>,
)
    ensures
        match token_value(value) {
            Ok(limit) => flag_value(tokens_flag(value), budgets, cost) matches Ok(after) && after.token_limit == limit
                && after.cost_limit_usd == budgets.cost_limit_usd,
            Err(error) => flag_value(tokens_flag(value), budgets, cost) == Err::<
                GoalBudgetOverrides,
                CommandErrorView,
            >(error),
        },
        match cost_value(value, cost) {
            Ok(limit) => flag_value(cost_flag(value), budgets, cost) matches Ok(after) && after.cost_limit_usd == limit
                && after.token_limit == budgets.token_limit,
            Err(error) => flag_value(cost_flag(value), budgets, cost) == Err::<GoalBudgetOverrides, CommandErrorView>(
                error,
            ),
        },
{
    reveal_strlit("tokens");
    reveal_strlit("cost");
    lemma_named("tokens"@, value);
    lemma_named("cost"@, value);
    assert("tokens"@.len() != "cost"@.len());
}

/// The limits that two flags of different names give do not depend on their
/// order.
pub proof fn law_flags_come_in_any_order(
    tokens: Seq<char>,
    dollars: Seq<char>,
    budgets: GoalBudgetOverrides,
    cost: spec_fn(Seq<char>) -> Option<Usd>,
)
    requires
        token_value(tokens) is Ok,
        cost_value(dollars, cost) is Ok,
    ensures
        ({
            let both = GoalBudgetOverrides {
                token_limit: token_value(tokens)->Ok_0,
                cost_limit_usd: cost_value(dollars, cost)->Ok_0,
            };
            &&& flag_value(tokens_flag(tokens), budgets, cost) matches Ok(first) && flag_value(
                cost_flag(dollars),
                first,
                cost,
            ) == Ok::<GoalBudgetOverrides, CommandErrorView>(both)
            &&& flag_value(cost_flag(dollars), budgets, cost) matches Ok(first) && flag_value(
                tokens_flag(tokens),
                first,
                cost,
            ) == Ok::<GoalBudgetOverrides, CommandErrorView>(both)
        }),
{
    law_flag_sets_its_own_limit(tokens, budgets, cost);
    law_flag_sets_its_own_limit(dollars, budgets, cost);
    law_flag_sets_its_own_limit(tokens, flag_value(cost_flag(dollars), budgets, cost)->Ok_0, cost);
    law_flag_sets_its_own_limit(dollars, flag_value(tokens_flag(tokens), budgets, cost)->Ok_0, cost);
}

/// Any other flag is refused and named.
pub proof fn law_other_flags_are_refused(
    flag: Seq<char>,
    budgets: GoalBudgetOverrides,
    cost: spec_fn(Seq<char>) -> Option<Usd>,
)
    requires
        !"tokens"@.push('=').is_prefix_of(flag),
        !"cost"@.push('=').is_prefix_of(flag),
    ensures
        flag_value(flag, budgets, cost) == wrong::<GoalBudgetOverrides>(CommandFault::InvalidBudgetFlag, flag),
{
    let k = mark_position(flag, '=');
    lemma_mark_found(flag, 0);
    if k < flag.len() {
        assert(flag.take(k + 1) =~= flag.take(k).push('='));
        assert(flag.take(k + 1).is_prefix_of(flag));
    }
}

proof fn lemma_mark_found(s: Seq<char>, from: int)
    requires
        0 <= from <= s.len(),
    ensures
        ({
            let k = position_from(s, is_mark('='), from);
            from <= k <= s.len() && (k < s.len() ==> s[k] == '=')
        }),
    decreases s.len() - from,
{
    if from < s.len() && s[from] != '=' {
        lemma_mark_found(s, from + 1);
    }
}

// ---------------------------------------------------------------- payloads
/// A start reads flag after flag, each with its two hyphens and white space
/// behind it, on top of what it has read; what is left is the objective.
pub proof fn law_start_reads_flags_first(
    flag: Seq<char>,
    space: char,
    rest: Seq<char>,
    budgets: GoalBudgetOverrides,
    cost: spec_fn(Seq<char>) -> Option<Usd>,
)
    requires
        is_word(flag),
        whitespace(space),
    ensures
        match flag_value(flag, budgets, cost) {
            Ok(after) => start_payload("--"@ + (flag.push(space) + rest), budgets, cost) == start_payload(
                trimmed_start(rest),
                after,
                cost,
            ) && start_payload("--"@ + flag, budgets, cost) == Ok::<(GoalBudgetOverrides, Seq<char>), CommandErrorView>(
                (after, Seq::empty()),
            ),
            Err(error) => start_payload("--"@ + (flag.push(space) + rest), budgets, cost) == Err::<
                (GoalBudgetOverrides, Seq<char>),
                CommandErrorView,
            >(error),
        },
        !"--"@.is_prefix_of(rest) ==> start_payload(rest, budgets, cost) == Ok::<
            (GoalBudgetOverrides, Seq<char>),
            CommandErrorView,
        >((budgets, trimmed(rest))),
{
    reveal_strlit("--");
    lemma_word(flag, space, rest);
    let s = "--"@ + (flag.push(space) + rest);
    assert(s.skip(2) =~= flag.push(space) + rest);
    assert("--"@.is_prefix_of(s));
    let t = "--"@ + flag;
    assert(t.skip(2) =~= flag);
    assert("--"@.is_prefix_of(t));
    lemma_tight(Seq::<char>::empty());
    if flag_value(flag, budgets, cost) is Ok {
        assert(start_payload(Seq::<char>::empty(), flag_value(flag, budgets, cost)->Ok_0, cost) == Ok::<
            (GoalBudgetOverrides, Seq<char>),
            CommandErrorView,
        >((flag_value(flag, budgets, cost)->Ok_0, Seq::empty())));
    }
}

/// A start with both limits, in either order, has both limits and its
/// objective.
pub proof fn law_start_takes_both_limits(
    tokens: Seq<char>,
    dollars: Seq<char>,
    objective: Seq<char>,
    cost: spec_fn(Seq<char>) -> Option<Usd>,
)
    requires
        is_word(tokens),
        is_word(dollars),
        token_value(tokens) is Ok,
        cost_value(dollars, cost) is Ok,
        objective.len() > 0,
        trimmed(objective) == objective,
        !"--"@.is_prefix_of(objective),
    ensures
        ({
            let both = GoalBudgetOverrides {
                token_limit: token_value(tokens)->Ok_0,
                cost_limit_usd: cost_value(dollars, cost)->Ok_0,
            };
            let result = Ok::<(GoalBudgetOverrides, Seq<char>), CommandErrorView>((both, objective));
            &&& start_payload(
                "--"@ + (tokens_flag(tokens).push(' ') + ("--"@ + (cost_flag(dollars).push(' ') + objective))),
                no_overrides(),
                cost,
            ) == result
            &&& start_payload(
                "--"@ + (cost_flag(dollars).push(' ') + ("--"@ + (tokens_flag(tokens).push(' ') + objective))),
                no_overrides(),
                cost,
            ) == result
        }),
{
    reveal_strlit("--");
    reveal_strlit("tokens");
    reveal_strlit("cost");
    let b = no_overrides();
    law_flags_come_in_any_order(tokens, dollars, b, cost);
    let t = tokens_flag(tokens);
    let c = cost_flag(dollars);
    assert forall|i: int| 0 <= i < t.len() implies !whitespace(#[trigger] t[i]) by {
        if i >= 7 {
            assert(t[i] == tokens[i - 7]);
        }
    }
    assert forall|i: int| 0 <= i < c.len() implies !whitespace(#[trigger] c[i]) by {
        if i >= 5 {
            assert(c[i] == dollars[i - 5]);
        }
    }
    law_trim_idempotent(objective);
    lemma_tight(objective);
    let after_t = "--"@ + (c.push(' ') + objective);
    let after_c = "--"@ + (t.push(' ') + objective);
    assert(after_t[0] == '-');
    assert(after_c[0] == '-');
    assert(trimmed_start(after_t) == after_t);
    assert(trimmed_start(after_c) == after_c);
    law_start_reads_flags_first(t, ' ', after_t, b, cost);
    law_start_reads_flags_first(c, ' ', after_c, b, cost);
    law_start_reads_flags_first(c, ' ', objective, flag_value(t, b, cost)->Ok_0, cost);
    law_start_reads_flags_first(t, ' ', objective, flag_value(c, b, cost)->Ok_0, cost);
}

/// A budget command reads flag after flag on top of what it has read, needs at
/// least one, and takes nothing else.
pub proof fn law_budget_reads_flags_only(
    flag: Seq<char>,
    space: char,
    rest: Seq<char>,
    budgets: GoalBudgetOverrides,
    saw: bool,
    cost: spec_fn(Seq<char>) -> Option<Usd>,
)
    requires
        is_word(flag),
        whitespace(space),
    ensures
        budget_payload("--"@ + (flag.push(space) + rest), budgets, saw, cost) == (match flag_value(flag, budgets, cost) {
            Ok(after) => budget_payload(rest, after, true, cost),
            Err(error) => Err(error),
        }),
        budget_payload("--"@ + flag, budgets, saw, cost) == (match flag_value(flag, budgets, cost) {
            Ok(after) => Ok::<GoalBudgetOverrides, CommandErrorView>(after),
            Err(error) => Err(error),
        }),
        trimmed_start(rest).len() == 0 ==> budget_payload(rest, budgets, true, cost) == Ok::<
            GoalBudgetOverrides,
            CommandErrorView,
        >(budgets) && budget_payload(rest, budgets, false, cost) == wrong::<GoalBudgetOverrides>(
            CommandFault::MissingBudget,
            Seq::empty(),
        ),
        !"--"@.is_prefix_of(flag) ==> budget_payload(flag.push(space) + rest, budgets, saw, cost) == wrong::<
            GoalBudgetOverrides,
        >(CommandFault::InvalidBudgetFlag, flag),
{
    reveal_strlit("--");
    let marked = "--"@ + flag;
    let s = "--"@ + (flag.push(space) + rest);
    assert(s =~= marked.push(space) + rest);
    assert(s[0] == '-');
    assert(trimmed_start(s) == s);
    assert(trimmed_start(marked) == marked) by {
        assert(marked[0] == '-');
    }
    assert forall|i: int| 0 <= i < marked.len() implies !whitespace(#[trigger] marked[i]) by {
        if i >= 2 {
            assert(marked[i] == flag[i - 2]);
        }
    }
    lemma_word(marked, space, rest);
    lemma_word(flag, space, rest);
    assert(marked.skip(2) =~= flag);
    assert("--"@.is_prefix_of(marked));
    lemma_tight(Seq::<char>::empty());
    let plain = flag.push(space) + rest;
    assert(plain[0] == flag[0]);
    assert(trimmed_start(plain) == plain);
    if flag_value(flag, budgets, cost) is Ok {
        let after = flag_value(flag, budgets, cost)->Ok_0;
        assert(budget_payload(Seq::<char>::empty(), after, true, cost) == Ok::<GoalBudgetOverrides, CommandErrorView>(
            after,
        ));
    }
}

/// A task is named by one word; more than one word is refused, and what follows
/// the first is named; nothing names no task.
pub proof fn law_task_is_named_by_one_word(word: Seq<char>, space: char, rest: Seq<char>)
    requires
        is_word(word),
        whitespace(space),
        rest.len() > 0,
        !whitespace(rest.last()),
    ensures
        task_selector(word) == Ok::<Option<Seq<char>>, CommandErrorView>(Some(word)),
        task_selector(Seq::<char>::empty()) == Ok::<Option<Seq<char>>, CommandErrorView>(None),
        task_selector(word.push(space) + rest) == wrong::<Option<Seq<char>>>(
            CommandFault::UnexpectedArguments,
            trimmed(rest),
        ),
{
    lemma_word(word, space, rest);
    let s = word.push(space) + rest;
    assert(s[0] == word[0]);
    assert(s.last() == rest.last());
    lemma_tight(s);
    lemma_tight(word);
    lemma_tight(Seq::<char>::empty());
}

// ---------------------------------------------------------------- commands
/// A command is its token, an action in any case, and what the action takes.
#[verifier::spinoff_prover]
#[verifier::rlimit(60)]
pub proof fn law_command_is_token_action_rest(
    token: Seq<char>,
    action: Seq<char>,
    rest: Seq<char>,
    cost: spec_fn(Seq<char>) -> Option<Usd>,
)
    requires
        is_word(token),
        is_word(action),
        rest.len() > 0,
        !whitespace(rest[0]),
        !whitespace(rest.last()),
    ensures
        ({
            let input = token.push(' ') + (action.push(' ') + rest);
            let short = token.push(' ') + action;
            if token[0] == '/' {
                &&& spelled_command(input, true, cost) == action_command(ascii_lowered(action), rest, cost)
                &&& spelled_command(short, true, cost) == action_command(ascii_lowered(action), Seq::empty(), cost)
                &&& spelled_command(token, true, cost) == wrong::<CommandView>(
                    CommandFault::MissingAction,
                    Seq::empty(),
                )
                &&& spelled_command(input, false, cost) == wrong::<CommandView>(CommandFault::InvalidCommand, token)
            } else {
                spelled_command(input, true, cost) == wrong::<CommandView>(CommandFault::InvalidCommand, token)
            }
        }),
{
    reveal_strlit("/");
    let second = action.push(' ') + rest;
    let input = token.push(' ') + second;
    let short = token.push(' ') + action;
    assert(input[0] == token[0] && input.last() == rest.last());
    assert(second[0] == action[0] && second.last() == rest.last());
    assert(short[0] == token[0] && short.last() == action.last());
    lemma_tight(input);
    lemma_tight(second);
    lemma_tight(short);
    lemma_tight(token);
    lemma_tight(action);
    lemma_tight(rest);
    lemma_tight(Seq::<char>::empty());
    lemma_word(token, ' ', second);
    lemma_word(token, ' ', action);
    lemma_word(action, ' ', rest);
    lemma_word(Seq::<char>::empty(), ' ', rest);
    assert("/"@ =~= seq!['/']);
    assert("/"@.is_prefix_of(token) == (token[0] == '/')) by {
        if token[0] == '/' {
            assert(token.subrange(0, 1) =~= "/"@);
        }
    }
}

/// A command that was read, with the parts that it has and no others.
pub open spec fn reads_as(
    result: Result<CommandView, CommandErrorView>,
    action: GoalCommandAction,
    objective: Option<Seq<char>>,
    task_id: Option<Seq<char>>,
    reason: Option<Seq<char>>,
    tokens: GoalBudgetValue<u64>,
    dollars: GoalBudgetValue<Usd>,
) -> bool {
    result matches Ok(command) && command.action == action && command.objective == objective && command.task_id
        == task_id && command.resume_reason == reason && command.budgets.token_limit == tokens
        && command.budgets.cost_limit_usd == dollars
}

pub open spec fn said_or_none(s: Seq<char>) -> Option<Seq<char>> {
    if trimmed(s).len() == 0 {
        None
    } else {
        Some(trimmed(s))
    }
}

/// Each action word reads as its action, and takes what it takes: a start its
/// flags and objective, an objective its text, a budget its flags, a pause its
/// explanation, a resume its reason, a status and a cancel at most a task. Any
/// other word is refused and named.
#[verifier::spinoff_prover]
pub proof fn law_each_action_takes_its_own(
    action: Seq<char>,
    rest: Seq<char>,
    cost: spec_fn(Seq<char>) -> Option<Usd>,
)
    ensures
        ({
            let result = action_command(action, rest, cost);
            let none = GoalBudgetValue::<u64>::Default;
            let free = GoalBudgetValue::<Usd>::Default;
            &&& action == "help"@ || action == "--help"@ || action == "-h"@ ==> reads_as(
                result,
                GoalCommandAction::Help,
                None,
                None,
                None,
                none,
                free,
            )
            &&& action == "start"@ ==> match start_payload(trimmed(rest), no_overrides(), cost) {
                Err(error) => result == Err::<CommandView, CommandErrorView>(error),
                Ok((budgets, objective)) => if objective.len() == 0 {
                    result == wrong::<CommandView>(CommandFault::MissingObjective, Seq::empty())
                } else {
                    reads_as(
                        result,
                        GoalCommandAction::Start,
                        Some(objective),
                        None,
                        None,
                        budgets.token_limit,
                        budgets.cost_limit_usd,
                    )
                },
            }
            &&& action == "objective"@ ==> if trimmed(rest).len() == 0 {
                result == wrong::<CommandView>(CommandFault::MissingObjective, Seq::empty())
            } else {
                reads_as(result, GoalCommandAction::Objective, Some(trimmed(rest)), None, None, none, free)
            }
            &&& action == "status"@ ==> match task_selector(rest) {
                Ok(task) => reads_as(result, GoalCommandAction::Status, None, task, None, none, free),
                Err(error) => result == Err::<CommandView, CommandErrorView>(error),
            }
            &&& action == "cancel"@ ==> match task_selector(rest) {
                Ok(task) => reads_as(result, GoalCommandAction::Cancel, None, task, None, none, free),
                Err(error) => result == Err::<CommandView, CommandErrorView>(error),
            }
            &&& action == "budget"@ ==> match budget_payload(rest, no_overrides(), false, cost) {
                Ok(budgets) => reads_as(
                    result,
                    GoalCommandAction::Budget,
                    None,
                    None,
                    None,
                    budgets.token_limit,
                    budgets.cost_limit_usd,
                ),
                Err(error) => result == Err::<CommandView, CommandErrorView>(error),
            }
            &&& action == "pause"@ ==> reads_as(
                result,
                GoalCommandAction::Pause,
                said_or_none(rest),
                None,
                None,
                none,
                free,
            )
            &&& action == "resume"@ ==> reads_as(
                result,
                GoalCommandAction::Resume,
                None,
                None,
                said_or_none(rest),
                none,
                free,
            )
            &&& !(action == "help"@ || action == "--help"@ || action == "-h"@ || action == "start"@ || action
                == "objective"@ || action == "status"@ || action == "cancel"@ || action == "budget"@ || action
                == "pause"@ || action == "resume"@) ==> result == wrong::<CommandView>(
                CommandFault::UnknownAction,
                action,
            )
            &&& no_overrides().token_limit is Default && no_overrides().cost_limit_usd is Default
        }),
{
    reveal_strlit("help");
    reveal_strlit("--help");
    reveal_strlit("-h");
    reveal_strlit("start");
    reveal_strlit("objective");
    reveal_strlit("status");
    reveal_strlit("cancel");
    reveal_strlit("budget");
    reveal_strlit("pause");
    reveal_strlit("resume");
    assert("help"@.len() == 4 && "--help"@.len() == 6 && "-h"@.len() == 2 && "start"@.len() == 5 && "objective"@.len()
        == 9 && "status"@.len() == 6 && "cancel"@.len() == 6 && "budget"@.len() == 6 && "pause"@.len() == 5
        && "resume"@.len() == 6);
    assert("start"@[0] == 's' && "pause"@[0] == 'p');
    assert("status"@[0] == 's' && "cancel"@[0] == 'c' && "budget"@[0] == 'b' && "resume"@[0] == 'r' && "--help"@[0]
        == '-');
}

/// A refusal tells what is wrong, and names the part that is.
pub proof fn law_faults_are_told(error: CommandError)
    ensures
        ({
            let text = fault_text(error);
            let named = |key: &'static str, name: &'static str|
                Text::Message(key, Box::new(Args::Arg(name, Text::Plain(error.part), Box::new(Args::End))));
            let bare = |key: &'static str| Text::Message(key, Box::new(Args::End));
            match error.fault {
                CommandFault::InvalidCommand => text == named("goal-command-error-invalid-command", "command"),
                CommandFault::MissingAction => text == bare("goal-command-error-missing-action"),
                CommandFault::UnknownAction => text == named("goal-command-error-unknown-action", "action"),
                CommandFault::MissingObjective => text == bare("goal-command-error-missing-objective"),
                CommandFault::InvalidBudgetFlag => text == named("goal-command-error-invalid-budget-flag", "flag"),
                CommandFault::MissingBudget => text == bare("goal-command-error-missing-budget"),
                CommandFault::UnexpectedArguments => text == named("goal-command-error-unexpected-arguments", "args"),
                CommandFault::InvalidTokenBudget => text == named("goal-command-error-invalid-token-budget", "value"),
                CommandFault::InvalidCostBudget => text == named("goal-command-error-invalid-cost-budget", "value"),
            }
        }),
{
}

} // verus!
