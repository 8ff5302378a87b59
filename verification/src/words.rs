//! What stored words, rows and messages say.
use vstd::prelude::*;
#[allow(unused_imports)]
use vstd::string::*;

use crate::error::{failure, in_context, GoalError};
use crate::goal_task::{
    accounting_state_from_db, accounting_state_of_word, accounting_state_to_db, pause_reason_from_db,
    pause_reason_of_word, pause_reason_to_db, GoalAccountingState, GoalPauseReason, GoalTaskView,
};
use crate::message::{
    blank_text, items_spelled_out, label, message1, message2, message3, message4, spelled_out, Args, Text, Texts,
};
use crate::payload::{json_count, json_dollars, Json};
use crate::store::error::{error_text, phrase, StoreError};
use crate::store::limits::{cost_limit_fault, LimitFault};
use crate::store::rows::{row_error, row_record, stores, RowError, StoredGoal};
use crate::task::{status_from_db, status_of_word, status_to_db, TaskStatus};
use crate::text::{decimal_text, trimmed};
use crate::usd::Usd;

verus! {

/// Each status is stored under its own word.
pub proof fn law_status_words(status: TaskStatus)
    ensures
        status.word() == match status {
            TaskStatus::Running => "running",
            TaskStatus::Paused => "paused",
            TaskStatus::Completed => "completed",
            TaskStatus::Failed => "failed",
            TaskStatus::Cancelled => "cancelled",
            TaskStatus::Lost => "lost",
            TaskStatus::TimedOut => "timed_out",
        },
        status.terminal() == (status != TaskStatus::Running && status != TaskStatus::Paused),
        status.active() == !status.terminal(),
        forall|word: Seq<char>| (#[trigger] status_of_word(word)) == Some(status) ==> word == status.word()@,
{
}

/// Each reason of a pause is stored under its own word, and read from no other
/// but the older word for a restart.
pub proof fn law_pause_reason_words(reason: GoalPauseReason)
    ensures
        reason.word() == match reason {
            GoalPauseReason::OperatorPaused => "operator_paused",
            GoalPauseReason::NeedsUserInput => "needs_user_input",
            GoalPauseReason::HumanEscalation => "human_escalation",
            GoalPauseReason::ExternalDependency => "external_dependency",
            GoalPauseReason::ProviderUnavailable => "provider_unavailable",
            GoalPauseReason::VerifierBlocked => "verifier_blocked",
            GoalPauseReason::BudgetExhausted => "budget_exhausted",
            GoalPauseReason::BudgetUnavailable => "budget_unavailable",
            GoalPauseReason::DaemonRestart => "daemon_restarted",
        },
        forall|word: Seq<char>| (#[trigger] pause_reason_of_word(word)) == Some(reason) ==> word == reason.word()@ || (
        reason is DaemonRestart && word == "daemon_restart"@),
{
}

/// Each state of accounting is stored under its own word, and read from no
/// other.
pub proof fn law_accounting_words(state: GoalAccountingState)
    ensures
        state.word() == match state {
            GoalAccountingState::Complete => "complete",
            GoalAccountingState::Missing => "missing",
            GoalAccountingState::Invalid => "invalid",
            GoalAccountingState::OutcomeUnknown => "outcome_unknown",
        },
        forall|word: Seq<char>| (#[trigger] accounting_state_of_word(word)) == Some(state) ==> word == state.word()@,
{
}

/// A row is read column by column, each into its own part; it cannot be read
/// where its reason, a limit, its blockers or its accounting cannot, and the
/// first of these is named.
pub proof fn law_what_a_row_holds(row: StoredGoal)
    ensures
        ({
            let reason = row.pause_reason is Some ==> pause_reason_of_word(row.pause_reason->Some_0@) is Some;
            let tokens = row.effective_token_limit is Some ==> row.effective_token_limit->Some_0 >= 0;
            let cost = row.effective_cost_limit_usd is Some ==> row.effective_cost_limit_usd->Some_0.finite()
                && row.effective_cost_limit_usd->Some_0.rank() >= 0;
            let accounting = accounting_state_of_word(row.accounting_state@) is Some;
            let error = row_error(row);
            &&& error is None <==> reason && tokens && cost && row.blockers is Ok && accounting
            &&& !reason ==> error == Some(RowError::UnknownPauseReason(row.pause_reason->Some_0))
            &&& reason && !tokens ==> error == Some(
                RowError::Limit(LimitFault::NegativeTokens { tokens: row.effective_token_limit->Some_0 }),
            )
            &&& reason && tokens && !cost ==> error == Some(
                RowError::Limit(LimitFault::InvalidCost { cost: row.effective_cost_limit_usd->Some_0 }),
            )
            &&& reason && tokens && cost && row.blockers is Err ==> error == Some(
                RowError::Blockers(row.blockers->Err_0),
            )
            &&& reason && tokens && cost && row.blockers is Ok && !accounting ==> error == Some(
                RowError::UnknownAccountingState(row.accounting_state),
            )
        }),
        ({
            let read = row_record(row);
            &&& read.task_id == row.task_id
            &&& read.objective == row.objective
            &&& read.effective_token_limit is Some == row.effective_token_limit is Some
            &&& row.effective_token_limit is Some && row.effective_token_limit->Some_0 >= 0
                ==> read.effective_token_limit->Some_0 == row.effective_token_limit->Some_0
            &&& read.effective_cost_limit_usd == row.effective_cost_limit_usd
            &&& row.pause_reason is None ==> read.pause_reason is None
            &&& row.pause_reason matches Some(word) ==> read.pause_reason == pause_reason_of_word(word@)
            &&& read.pause_description == row.pause_description
            &&& row.blockers matches Ok(blockers) ==> read.blockers == blockers@
            &&& read.pending_call_id == row.pending_call_id
            &&& read.pending_call_epoch == row.pending_call_epoch
            &&& read.pending_tool_batch_id is None
            &&& read.pending_tool_epoch is None
            &&& accounting_state_of_word(row.accounting_state@) matches Some(state) ==> read.accounting_state == state
        }),
{
}

/// Two rows that hold one record hold the same in every column.
pub proof fn law_record_determines_its_row(a: StoredGoal, b: StoredGoal, record: GoalTaskView)
    requires
        stores(a, record),
        stores(b, record),
    ensures
        a.task_id == b.task_id,
        a.objective == b.objective,
        a.effective_token_limit == b.effective_token_limit,
        a.effective_cost_limit_usd == b.effective_cost_limit_usd,
        crate::text::opt_view(a.pause_reason) == crate::text::opt_view(b.pause_reason),
        a.pause_description == b.pause_description,
        a.blockers->Ok_0@ == b.blockers->Ok_0@,
        a.pending_call_id == b.pending_call_id,
        a.pending_call_epoch == b.pending_call_epoch,
        a.accounting_state@ == b.accounting_state@,
{
}

// ---------------------------------------------------------------- messages
/// A message holds its key and its arguments, in their order.
pub proof fn law_messages_hold_their_arguments(
    key: &'static str,
    n1: &'static str,
    v1: Text,
    n2: &'static str,
    v2: Text,
    n3: &'static str,
    v3: Text,
    n4: &'static str,
    v4: Text,
)
    ensures
        label(key) == Text::Message(key, Box::new(Args::End)),
        message1(key, n1, v1) == Text::Message(key, Box::new(Args::Arg(n1, v1, Box::new(Args::End)))),
        message2(key, n1, v1, n2, v2) == Text::Message(
            key,
            Box::new(Args::Arg(n1, v1, Box::new(Args::Arg(n2, v2, Box::new(Args::End))))),
        ),
        message3(key, n1, v1, n2, v2, n3, v3) == Text::Message(
            key,
            Box::new(Args::Arg(n1, v1, Box::new(Args::Arg(n2, v2, Box::new(Args::Arg(n3, v3, Box::new(Args::End))))))),
        ),
        message4(key, n1, v1, n2, v2, n3, v3, n4, v4) == Text::Message(
            key,
            Box::new(
                Args::Arg(
                    n1,
                    v1,
                    Box::new(
                        Args::Arg(
                            n2,
                            v2,
                            Box::new(Args::Arg(n3, v3, Box::new(Args::Arg(n4, v4, Box::new(Args::End))))),
                        ),
                    ),
                ),
            ),
        ),
{
}

/// A text is spelled out by its parts: words as they are, counts in decimal, a
/// trimmed text without white space at its ends, and a list with its separator
/// between the items.
pub proof fn law_texts_are_spelled_out(words: String, n: u64, inner: Text, first: Text, rest: Texts, between: &'static str)
    ensures
        spelled_out(Text::Plain(words)) == Some(words@),
        spelled_out(Text::Number(n)) == Some(decimal_text(n as nat)),
        spelled_out(Text::Fixed(between)) == Some(between@),
        spelled_out(inner) matches Some(s) ==> spelled_out(Text::Trimmed(Box::new(inner))) == Some(trimmed(s)),
        spelled_out(inner) is None ==> spelled_out(Text::Trimmed(Box::new(inner))) is None,
        items_spelled_out(between@, Texts::End) == Some(Seq::<char>::empty()),
        spelled_out(first) matches Some(head) ==> items_spelled_out(
            between@,
            Texts::Item(first, Box::new(Texts::End)),
        ) == Some(head),
        spelled_out(first) is Some && items_spelled_out(between@, rest) is Some && !(rest is End)
            ==> spelled_out(Text::Joined(between, Box::new(Texts::Item(first, Box::new(rest))))) == Some(
            spelled_out(first)->Some_0 + between@ + items_spelled_out(between@, rest)->Some_0,
        ),
        blank_text(inner) == (spelled_out(inner) matches Some(s) && trimmed(s).len() == 0),
{
    let one = Texts::Item(first, Box::new(Texts::End));
    assert(items_spelled_out(between@, Texts::End) == Some(Seq::<char>::empty()));
    assert(items_spelled_out(between@, one) == spelled_out(first));
    let items = Texts::Item(first, Box::new(rest));
    if spelled_out(first) is Some && items_spelled_out(between@, rest) is Some && !(rest is End) {
        assert(items_spelled_out(between@, items) == Some(
            spelled_out(first)->Some_0 + between@ + items_spelled_out(between@, rest)->Some_0,
        ));
        assert(spelled_out(Text::Joined(between, Box::new(items))) == items_spelled_out(between@, items));
    }
}

/// A status, a reason and an accounting state that are written are read back;
/// a reason that cannot be read is handed back.
pub proof fn law_words_are_read_back(
    status: TaskStatus,
    status_word: &'static str,
    status_text: &str,
    status_back: Option<TaskStatus>,
    reason: GoalPauseReason,
    reason_word: &'static str,
    reason_text: String,
    reason_back: Result<Option<GoalPauseReason>, String>,
    state: GoalAccountingState,
    state_word: &'static str,
    state_text: &str,
    state_back: Option<GoalAccountingState>,
)
    requires
        call_ensures(status_to_db, (status,), status_word),
        call_ensures(status_from_db, (status_text,), status_back),
        call_ensures(pause_reason_to_db, (reason,), reason_word),
        call_ensures(pause_reason_from_db, (Some(reason_text),), reason_back),
        call_ensures(accounting_state_to_db, (state,), state_word),
        call_ensures(accounting_state_from_db, (state_text,), state_back),
    ensures
        status_text@ == status_word@ <==> status_back == Some(status),
        reason_text@ == reason_word@ ==> reason_back == Ok::<Option<GoalPauseReason>, String>(Some(reason)),
        reason_back is Err ==> reason_back == Err::<Option<GoalPauseReason>, String>(reason_text),
        state_text@ == state_word@ <==> state_back == Some(state),
{
    crate::task::law_status_word_round_trip(status);
    crate::goal_task::law_pause_reason_round_trip(reason);
    crate::goal_task::law_accounting_state_round_trip(state);
    law_status_words(status);
    law_pause_reason_words(reason);
    law_accounting_words(state);
}

/// A failure says its words; one that puts another in context says its own
/// words first and keeps the other as its cause.
pub proof fn law_failures_keep_their_causes(text: Text, cause: GoalError)
    ensures
        failure(text).text == text && failure(text).cause is None,
        in_context(text, cause).text == text && in_context(text, cause).cause == Some(Box::new(cause)),
{
}

/// A count or an amount that is missing is null in a payload.
pub proof fn law_missing_values_are_null(n: u64, d: Usd)
    ensures
        json_count(Some(n)) == Json::Count(n),
        json_count(None) == Json::Null,
        json_dollars(Some(d)) == Json::Dollars(d),
        json_dollars(None) == Json::Null,
{
}

/// A limit in dollars is positive and finite, a stored one may be zero; both as
/// the amounts that they stand for. What is not a number is at least nothing.
pub proof fn law_which_amounts_are_limits(d: Usd, e: Usd)
    ensures
        d.finite() ==> d.valid_limit() == (d.units() > 0) && d.storable_limit() == (d.units() >= 0),
        !d.finite() ==> !d.valid_limit() && !d.storable_limit(),
        d.is_nan() || e.is_nan() ==> !d.at_least(e),
        cost_limit_fault(Some(d)) is None <==> d.storable_limit(),
        cost_limit_fault(None) is None,
{
    if d.finite() {
        crate::usd::law_order_is_numeric(d, d);
        crate::usd::law_order_is_numeric(d, Usd { bits: 0 });
        assert((Usd { bits: 0 }).units() == 0) by {
            crate::usd::law_order_is_numeric(Usd { bits: 0 }, Usd { bits: 0 });
        }
    }
}

/// What the tables refuse is told in words of its own, with what it is about.
pub proof fn law_store_refusals_are_told(task_id: String, goal_id: String, value: u64)
    ensures
        spelled_out(error_text(StoreError::SessionBound)) == Some(
            "session-bound goals require guarded goal transition APIs"@,
        ),
        spelled_out(error_text(StoreError::NotGoalKind { task_id })) == Some(
            "goal task "@ + task_id@ + " must use TaskKind::Goal"@,
        ),
        spelled_out(error_text(StoreError::IdMismatch { task_id, goal_task_id: goal_id })) == Some(
            "goal task id mismatch: TaskRecord id "@ + task_id@ + " does not match GoalTaskRecord task_id "@ + goal_id@,
        ),
        spelled_out(error_text(StoreError::SessionRequired)) == Some("new goal requires a nonblank session_id"@),
        spelled_out(error_text(StoreError::SessionBlankInTables)) == Some("goal tasks require a nonblank session_id"@),
        spelled_out(error_text(StoreError::NotFresh)) == Some(
            "new session goals must start running without terminal metadata"@,
        ),
        spelled_out(error_text(StoreError::ObjectiveRequired)) == Some("new session goals require an objective"@),
        spelled_out(error_text(StoreError::PendingOrIncomplete)) == Some(
            "new session goals must not include pending or incomplete state"@,
        ),
        spelled_out(error_text(StoreError::IdExists)) == Some("new session goal task id already exists"@),
        spelled_out(error_text(StoreError::TaskIdTaken)) == Some("UNIQUE constraint failed: tasks.id"@),
        spelled_out(error_text(StoreError::ContextTaken)) == Some(
            "UNIQUE constraint failed: index 'idx_tasks_active_goal_context'"@,
        ),
        spelled_out(error_text(StoreError::TokenLimitOutOfRange { value })) == Some(
            "effective token limit "@ + decimal_text(value as nat) + " exceeds SQLite INTEGER domain"@,
        ),
        spelled_out(error_text(StoreError::CostLimitInvalid)) == Some(
            "effective cost limit must be a non-negative finite value"@,
        ),
        spelled_out(error_text(StoreError::ExtensionMissing { task_id })) == Some(
            "goal task "@ + task_id@ + " has no goal extension row"@,
        ),
        spelled_out(error_text(StoreError::NotAGoal { task_id })) == Some(
            "goal task "@ + task_id@ + " has no canonical TaskKind::Goal row and goal extension"@,
        ),
        spelled_out(error_text(StoreError::NotTerminal)) == Some(
            "guarded goal finish requires a terminal task status"@,
        ),
        spelled_out(error_text(StoreError::BlankCallId)) == Some("goal pending call id must be nonblank"@),
        spelled_out(error_text(StoreError::PendingPairInvalid)) == Some(
            "goal pending call id and epoch must be paired and valid"@,
        ),
        spelled_out(error_text(StoreError::PendingCallTaken)) == Some(
            "UNIQUE constraint failed: goal_tasks.pending_call_id"@,
        ),
{
    lemma_phrase("goal task ", Text::Plain(task_id), " must use TaskKind::Goal");
    lemma_phrase("goal task ", Text::Plain(task_id), " has no goal extension row");
    lemma_phrase("goal task ", Text::Plain(task_id), " has no canonical TaskKind::Goal row and goal extension");
    reveal_strlit("");
    let rest = phrase(" does not match GoalTaskRecord task_id ", Text::Plain(goal_id), "");
    lemma_phrase(" does not match GoalTaskRecord task_id ", Text::Plain(goal_id), "");
    assert(spelled_out(Text::Joined("", Box::new(rest))) == items_spelled_out(""@, rest));
    let tail = items_spelled_out(""@, rest)->Some_0;
    let middle = Texts::Item(Text::Plain(task_id), Box::new(rest));
    assert(items_spelled_out(""@, middle) == Some(task_id@ + ""@ + tail));
    assert(spelled_out(Text::Fixed("goal task id mismatch: TaskRecord id ")) == Some(
        "goal task id mismatch: TaskRecord id "@,
    ));
    let whole = Texts::Item(Text::Fixed("goal task id mismatch: TaskRecord id "), Box::new(middle));
    assert(items_spelled_out(""@, whole) == Some(
        "goal task id mismatch: TaskRecord id "@ + ""@ + (task_id@ + ""@ + tail),
    ));
    assert("goal task id mismatch: TaskRecord id "@ + ""@ + (task_id@ + ""@ + tail)
        =~= "goal task id mismatch: TaskRecord id "@ + task_id@ + " does not match GoalTaskRecord task_id "@ + goal_id@);
    lemma_phrase("effective token limit ", Text::Number(value), " exceeds SQLite INTEGER domain");
}

proof fn lemma_phrase(before: &'static str, value: Text, after: &'static str)
    requires
        spelled_out(value) is Some,
    ensures
        spelled_out(Text::Joined("", Box::new(phrase(before, value, after)))) == Some(
            before@ + spelled_out(value)->Some_0 + after@,
        ),
{
    reveal_strlit("");
    let words = spelled_out(value)->Some_0;
    let last = Texts::Item(Text::Fixed(after), Box::new(Texts::End));
    let rest = Texts::Item(value, Box::new(last));
    assert(items_spelled_out(""@, Texts::End) == Some(Seq::<char>::empty()));
    assert(spelled_out(Text::Fixed(after)) == Some(after@));
    assert(spelled_out(Text::Fixed(before)) == Some(before@));
    assert(items_spelled_out(""@, last) == Some(after@));
    assert(items_spelled_out(""@, rest) == Some(words + ""@ + after@));
    assert(items_spelled_out(""@, phrase(before, value, after)) == Some(before@ + ""@ + (words + ""@ + after@)));
    assert(before@ + ""@ + (words + ""@ + after@) =~= before@ + words + after@);
}

} // verus!
