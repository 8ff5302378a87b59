//! Terminal reasons as they are stored and as they are shown.
use vstd::prelude::*;
#[allow(unused_imports)]
use vstd::string::*;

use crate::text::{chars_of, join, law_trim_idempotent, mark_position, opt_view, same_text, split_at_mark, trim, trimmed, whitespace};

verus! {

/// Why a goal ended, as far as it is safe to say.
#[derive(Clone, Copy, Debug, PartialEq, Eq, Structural)]
pub enum GoalTerminalReason {
    VerifiedCompletion,
    AccountingOutcomeUnknown,
    AccountingMissingOrInvalid,
    PricingUnavailable,
    CandidateEmpty,
    ParentOperationFailed,
    ParentContextWindowExceeded,
    VerifierOperationFailed,
    VerifierProtocolInvalid,
    ExecutorFailed,
    ExecutorStartFailed,
    InitialNoticeFailed,
    GoalToolPairingIncomplete,
    GoalToolLoopSafetyLimit,
    PolicyRevoked,
    SessionDisposed,
    Unspecified,
}

/// The reason that a stored code stands for.
pub open spec fn reason_of_code(code: Seq<char>) -> GoalTerminalReason {
    if code == "verified completion"@ {
        GoalTerminalReason::VerifiedCompletion
    } else if code == "accounting_outcome_unknown"@ {
        GoalTerminalReason::AccountingOutcomeUnknown
    } else if code == "accounting_missing_or_invalid"@ {
        GoalTerminalReason::AccountingMissingOrInvalid
    } else if code == "pricing_unavailable"@ {
        GoalTerminalReason::PricingUnavailable
    } else if code == "candidate_empty"@ {
        GoalTerminalReason::CandidateEmpty
    } else if code == "parent_operation_failed"@ {
        GoalTerminalReason::ParentOperationFailed
    } else if code == "parent_context_window_exceeded"@ {
        GoalTerminalReason::ParentContextWindowExceeded
    } else if code == "verifier_operation_failed"@ {
        GoalTerminalReason::VerifierOperationFailed
    } else if code == "verifier_protocol_invalid"@ {
        GoalTerminalReason::VerifierProtocolInvalid
    } else if code == "executor_failed"@ {
        GoalTerminalReason::ExecutorFailed
    } else if code == "executor_start_failed"@ {
        GoalTerminalReason::ExecutorStartFailed
    } else if code == "initial_goal_notice_failed"@ {
        GoalTerminalReason::InitialNoticeFailed
    } else if code == "goal_tool_pairing_incomplete"@ {
        GoalTerminalReason::GoalToolPairingIncomplete
    } else if code == "goal_tool_loop_safety_limit"@ {
        GoalTerminalReason::GoalToolLoopSafetyLimit
    } else if code == "policy_revoked"@ {
        GoalTerminalReason::PolicyRevoked
    } else if code == "session_disposed"@ {
        GoalTerminalReason::SessionDisposed
    } else {
        GoalTerminalReason::Unspecified
    }
}

/// Characters of a provider label that is safe to show.
pub open spec fn provider_char(c: char) -> bool {
    ('a' <= c <= 'z') || ('A' <= c <= 'Z') || ('0' <= c <= '9') || c == '.' || c == '_' || c == '-'
}

/// A provider label that is safe to show: 1 to 128 letters, digits, dots,
/// underscores and hyphens.
pub open spec fn safe_provider(text: Seq<char>) -> Option<Seq<char>> {
    let t = trimmed(text);
    if 0 < t.len() <= 128 && (forall|i: int| 0 <= i < t.len() ==> provider_char(#[trigger] t[i])) {
        Some(t)
    } else {
        None
    }
}

/// The first line of a stored record.
pub open spec fn first_line(record: Seq<char>) -> Seq<char> {
    record.take(mark_position(record, '\n'))
}

/// What follows the first line of a stored record, if there is more.
pub open spec fn further_lines(record: Seq<char>) -> Option<Seq<char>> {
    let k = mark_position(record, '\n');
    if k < record.len() {
        Some(record.skip(k + 1))
    } else {
        None
    }
}

/// The code of a stored record: its first line up to an `@`.
pub open spec fn reason_code(record: Seq<char>) -> Seq<char> {
    first_line(record).take(mark_position(first_line(record), '@'))
}

/// The provider that a stored record names and that is safe to show.
pub open spec fn named_provider(record: Seq<char>) -> Option<Seq<char>> {
    let line = first_line(record);
    let at = mark_position(line, '@');
    if at < line.len() {
        safe_provider(line.skip(at + 1))
    } else {
        None
    }
}

/// The provider that is shown: none for a reason that is not known, so that an
/// unknown record never blames a provider.
pub open spec fn shown_provider(record: Seq<char>) -> Option<Seq<char>> {
    if reason_of_code(reason_code(record)) is Unspecified {
        None
    } else {
        named_provider(record)
    }
}

/// Longest detail that is kept, in characters.
pub const MAX_DETAIL_CHARS: usize = 2048;

/// A detail that is safe to keep, given what the error sanitizer left of it:
/// trimmed, cut at the limit with an ellipsis, none if nothing is left.
pub open spec fn safe_detail(sanitized: Seq<char>) -> Option<Seq<char>> {
    let t = trimmed(sanitized);
    if t.len() == 0 {
        None
    } else if t.len() > MAX_DETAIL_CHARS {
        Some(t.take(MAX_DETAIL_CHARS as int) + "\u{2026}"@)
    } else {
        Some(t)
    }
}

fn is_provider_char(c: char) -> (r: bool)
    ensures
        r == provider_char(c),
{
    ('a' <= c && c <= 'z') || ('A' <= c && c <= 'Z') || ('0' <= c && c <= '9') || c == '.' || c == '_' || c == '-'
}

pub fn safe_terminal_provider(provider: &str) -> (r: Option<String>)
    ensures
        opt_view(r) == safe_provider(provider@),
{
    let label = trim(provider);
    let v = chars_of(label);
    let n: usize = v.len();
    if n == 0 || n > 128 {
        return None;
    }
    let mut i: usize = 0;
    while i < n
        invariant
            i <= n,
            n == v.len(),
            v@ == label@,
            label@ == trimmed(provider@),
            forall|k: int| 0 <= k < i ==> provider_char(#[trigger] label@[k]),
        decreases n - i,
    {
        if !is_provider_char(v[i]) {
            assert(!provider_char(label@[i as int]));
            return None;
        }
        i = i + 1;
    }
    Some(label.to_owned())
}

/// A detail that is safe to keep, given what the error sanitizer left of it.
pub fn safe_terminal_detail(sanitized: &str) -> (r: Option<String>)
    ensures
        opt_view(r) == safe_detail(sanitized@),
{
    let detail = trim(sanitized);
    let n: usize = detail.unicode_len();
    if n == 0 {
        return None;
    }
    if n > MAX_DETAIL_CHARS {
        let prefix = detail.substring_char(0, MAX_DETAIL_CHARS);
        assert(prefix@ =~= trimmed(sanitized@).take(MAX_DETAIL_CHARS as int));
        Some(join(prefix, "\u{2026}"))
    } else {
        Some(detail.to_owned())
    }
}

/// The part of a stored record that the error sanitizer has to see before it
/// is shown.
pub fn durable_detail(record: &str) -> (r: Option<&str>)
    ensures
        match r {
            Some(detail) => further_lines(record@) == Some(detail@),
            None => further_lines(record@) is None,
        },
{
    match split_at_mark(record, '\n') {
        Some((_, detail)) => Some(detail),
        None => None,
    }
}

/// The first line of a stored record, and its detail as far as it is safe to
/// show. `sanitized` is what the error sanitizer makes of the detail; it is
/// not looked at where there is none.
pub fn split_durable_terminal_record<'a>(record: &'a str, sanitized: &str) -> (r: (&'a str, Option<String>))
    ensures
        r.0@ == first_line(record@),
        opt_view(r.1) == shown_detail(record@, sanitized@),
{
    match split_at_mark(record, '\n') {
        Some((reason, _)) => (reason, safe_terminal_detail(sanitized)),
        None => {
            assert(record@.take(record@.len() as int) =~= record@);
            (record, None)
        },
    }
}

/// The detail of a stored record that is shown.
pub open spec fn shown_detail(record: Seq<char>, sanitized: Seq<char>) -> Option<Seq<char>> {
    if further_lines(record) is Some {
        safe_detail(sanitized)
    } else {
        None
    }
}

/// The record of a reason, given what the error sanitizer left of its detail.
pub open spec fn terminal_record(reason: Seq<char>, sanitized: Option<Seq<char>>) -> Seq<char> {
    match sanitized {
        Some(detail) => match safe_detail(detail) {
            Some(safe) => reason + "\n"@ + safe,
            None => reason,
        },
        None => reason,
    }
}

/// Composes the record of a reason.
pub fn durable_terminal_record(reason: &str, sanitized_detail: Option<&str>) -> (r: String)
    ensures
        r@ == terminal_record(
            reason@,
            match sanitized_detail {
                Some(detail) => Some(detail@),
                None => None,
            },
        ),
{
    match sanitized_detail {
        Some(detail) => match safe_terminal_detail(detail) {
            Some(safe) => {
                let mut record = join(reason, "\n");
                record.append(safe.as_str());
                record
            },
            None => reason.to_owned(),
        },
        None => reason.to_owned(),
    }
}

impl GoalTerminalReason {
    /// The reason behind a stored record, and the provider it may name.
    pub fn from_durable_reason(record: &str) -> (r: (GoalTerminalReason, Option<String>))
        ensures
            r.0 == reason_of_code(reason_code(record@)),
            opt_view(r.1) == shown_provider(record@),
    {
        let (line, _) = split_durable_terminal_record(record, "");
        let (code, provider) = match split_at_mark(line, '@') {
            Some((code, provider)) => (code, safe_terminal_provider(provider)),
            None => {
                assert(line@.take(line@.len() as int) =~= line@);
                (line, None)
            },
        };
        let reason = GoalTerminalReason::from_code(code);
        if reason == GoalTerminalReason::Unspecified {
            (reason, None)
        } else {
            (reason, provider)
        }
    }

    fn from_code(code: &str) -> (r: GoalTerminalReason)
        ensures
            r == reason_of_code(code@),
    {
        if same_text(code, "verified completion") {
            GoalTerminalReason::VerifiedCompletion
        } else if same_text(code, "accounting_outcome_unknown") {
            GoalTerminalReason::AccountingOutcomeUnknown
        } else if same_text(code, "accounting_missing_or_invalid") {
            GoalTerminalReason::AccountingMissingOrInvalid
        } else if same_text(code, "pricing_unavailable") {
            GoalTerminalReason::PricingUnavailable
        } else if same_text(code, "candidate_empty") {
            GoalTerminalReason::CandidateEmpty
        } else if same_text(code, "parent_operation_failed") {
            GoalTerminalReason::ParentOperationFailed
        } else if same_text(code, "parent_context_window_exceeded") {
            GoalTerminalReason::ParentContextWindowExceeded
        } else if same_text(code, "verifier_operation_failed") {
            GoalTerminalReason::VerifierOperationFailed
        } else if same_text(code, "verifier_protocol_invalid") {
            GoalTerminalReason::VerifierProtocolInvalid
        } else if same_text(code, "executor_failed") {
            GoalTerminalReason::ExecutorFailed
        } else if same_text(code, "executor_start_failed") {
            GoalTerminalReason::ExecutorStartFailed
        } else if same_text(code, "initial_goal_notice_failed") {
            GoalTerminalReason::InitialNoticeFailed
        } else if same_text(code, "goal_tool_pairing_incomplete") {
            GoalTerminalReason::GoalToolPairingIncomplete
        } else if same_text(code, "goal_tool_loop_safety_limit") {
            GoalTerminalReason::GoalToolLoopSafetyLimit
        } else if same_text(code, "policy_revoked") {
            GoalTerminalReason::PolicyRevoked
        } else if same_text(code, "session_disposed") {
            GoalTerminalReason::SessionDisposed
        } else {
            GoalTerminalReason::Unspecified
        }
    }
}

proof fn lemma_mark_position(s: Seq<char>, mark: char, from: int, k: int)
    requires
        0 <= from <= k <= s.len(),
        forall|i: int| from <= i < k ==> s[i] != mark,
        k < s.len() ==> s[k] == mark,
    ensures
        crate::text::position_from(s, crate::text::is_mark(mark), from) == k,
    decreases k - from,
{
    if from < k {
        lemma_mark_position(s, mark, from + 1, k);
    }
}

/// A detail that was made safe stays as it is when it is made safe again.
pub proof fn law_safe_detail_is_stable(sanitized: Seq<char>)
    requires
        safe_detail(sanitized) is Some,
    ensures
        safe_detail(safe_detail(sanitized)->Some_0) == safe_detail(sanitized),
{
    let t = trimmed(sanitized);
    law_trim_idempotent(sanitized);
    if t.len() > MAX_DETAIL_CHARS {
        reveal_strlit("\u{2026}");
        let u = t.take(MAX_DETAIL_CHARS as int) + "\u{2026}"@;
        assert(u.len() == MAX_DETAIL_CHARS + 1);
        assert(u.last() == '\u{2026}' && !whitespace(u.last()));
        assert(u[0] == t[0]);
        assert(trimmed(u) == u);
        assert(u.take(MAX_DETAIL_CHARS as int) =~= t.take(MAX_DETAIL_CHARS as int));
    }
}

/// A record that was composed from a one-line reason and a detail gives both
/// back, where the sanitizer leaves the stored detail alone.
pub proof fn law_terminal_record_reads_back(reason: Seq<char>, sanitized: Option<Seq<char>>)
    requires
        forall|i: int| 0 <= i < reason.len() ==> #[trigger] reason[i] != '\n',
    ensures
        ({
            let record = terminal_record(reason, sanitized);
            let kept = match sanitized {
                Some(detail) => safe_detail(detail),
                None => None,
            };
            &&& first_line(record) == reason
            &&& further_lines(record) == kept
            &&& kept matches Some(detail) ==> shown_detail(record, detail) == Some(detail)
        }),
{
    let record = terminal_record(reason, sanitized);
    let kept = match sanitized {
        Some(detail) => safe_detail(detail),
        None => None,
    };
    let n = reason.len() as int;
    reveal_strlit("\n");
    match kept {
        Some(safe) => {
            assert(record == reason + "\n"@ + safe);
            assert(record[n] == '\n');
            lemma_mark_position(record, '\n', 0, n);
            assert(record.take(n) =~= reason);
            assert(record.skip(n + 1) =~= safe);
            law_safe_detail_is_stable(sanitized->Some_0);
        },
        None => {
            lemma_mark_position(record, '\n', 0, n);
            assert(record.take(n) =~= reason);
        },
    }
}

/// A code and the reason that it stands for.
pub open spec fn stands_for(code: Seq<char>, reason: GoalTerminalReason) -> bool {
    match reason {
        GoalTerminalReason::VerifiedCompletion => code == "verified completion"@,
        GoalTerminalReason::AccountingOutcomeUnknown => code == "accounting_outcome_unknown"@,
        GoalTerminalReason::AccountingMissingOrInvalid => code == "accounting_missing_or_invalid"@,
        GoalTerminalReason::PricingUnavailable => code == "pricing_unavailable"@,
        GoalTerminalReason::CandidateEmpty => code == "candidate_empty"@,
        GoalTerminalReason::ParentOperationFailed => code == "parent_operation_failed"@,
        GoalTerminalReason::ParentContextWindowExceeded => code == "parent_context_window_exceeded"@,
        GoalTerminalReason::VerifierOperationFailed => code == "verifier_operation_failed"@,
        GoalTerminalReason::VerifierProtocolInvalid => code == "verifier_protocol_invalid"@,
        GoalTerminalReason::ExecutorFailed => code == "executor_failed"@,
        GoalTerminalReason::ExecutorStartFailed => code == "executor_start_failed"@,
        GoalTerminalReason::InitialNoticeFailed => code == "initial_goal_notice_failed"@,
        GoalTerminalReason::GoalToolPairingIncomplete => code == "goal_tool_pairing_incomplete"@,
        GoalTerminalReason::GoalToolLoopSafetyLimit => code == "goal_tool_loop_safety_limit"@,
        GoalTerminalReason::PolicyRevoked => code == "policy_revoked"@,
        GoalTerminalReason::SessionDisposed => code == "session_disposed"@,
        GoalTerminalReason::Unspecified => false,
    }
}

/// A code is read as a reason that it stands for, and as none only where it
/// stands for none.
pub proof fn law_codes_are_read(code: Seq<char>, reason: GoalTerminalReason)
    ensures
        !(reason_of_code(code) is Unspecified) ==> stands_for(code, reason_of_code(code)),
        stands_for(code, reason) ==> !(reason_of_code(code) is Unspecified),
{
}

/// A record names its code and, behind an `@`, a provider; the provider is
/// shown only with a reason that is known and only if its label is safe.
pub proof fn law_record_names_code_and_provider(code: Seq<char>, provider: Seq<char>)
    requires
        forall|i: int| 0 <= i < code.len() ==> #[trigger] code[i] != '@' && code[i] != '\n',
        forall|i: int| 0 <= i < provider.len() ==> #[trigger] provider[i] != '\n',
    ensures
        reason_code(code) == code,
        shown_provider(code) is None,
        reason_code(code.push('@') + provider) == code,
        shown_provider(code.push('@') + provider) == (if reason_of_code(code) is Unspecified {
            None
        } else {
            safe_provider(provider)
        }),
{
    let n = code.len() as int;
    let line = code.push('@') + provider;
    assert forall|i: int| 0 <= i < line.len() implies line[i] != '\n' by {
        if i < n {
            assert(line[i] == code[i]);
        } else if i > n {
            assert(line[i] == provider[i - n - 1]);
        }
    }
    lemma_mark_position(code, '\n', 0, n);
    lemma_mark_position(line, '\n', 0, line.len() as int);
    assert(code.take(n) =~= code);
    assert(line.take(line.len() as int) =~= line);
    lemma_mark_position(code, '@', 0, n);
    assert forall|i: int| 0 <= i < n implies line[i] != '@' by {
        assert(line[i] == code[i]);
    }
    assert(line[n] == '@');
    lemma_mark_position(line, '@', 0, n);
    assert(line.take(n) =~= code);
    assert(line.skip(n + 1) =~= provider);
}

/// What is safe to show of a provider: its label as it is, without white space
/// around it, if it is no longer than 128 characters and holds nothing but
/// ASCII letters, digits, dots, underscores and hyphens.
pub proof fn law_which_labels_are_safe(text: Seq<char>)
    ensures
        match safe_provider(text) {
            Some(label) => label == trimmed(text) && 1 <= label.len() <= 128 && forall|i: int|
                0 <= i < label.len() ==> (('a' <= #[trigger] label[i] <= 'z') || ('A' <= label[i] <= 'Z') || ('0'
                    <= label[i] <= '9') || label[i] == '.' || label[i] == '_' || label[i] == '-'),
            None => trimmed(text).len() == 0 || trimmed(text).len() > 128 || exists|i: int|
                0 <= i < trimmed(text).len() && !(('a' <= #[trigger] trimmed(text)[i] <= 'z') || ('A' <= trimmed(text)[i]
                    <= 'Z') || ('0' <= trimmed(text)[i] <= '9') || trimmed(text)[i] == '.' || trimmed(text)[i] == '_'
                    || trimmed(text)[i] == '-'),
        },
{
    if safe_provider(text) is None && 0 < trimmed(text).len() <= 128 {
        let t = trimmed(text);
        let i = choose|i: int| 0 <= i < t.len() && !provider_char(#[trigger] t[i]);
        assert(!provider_char(t[i]));
    }
}

/// What is kept of a detail: nothing of a blank one, all of it up to 2048
/// characters, and of a longer one the first 2048 and an ellipsis.
pub proof fn law_how_much_detail_is_kept(sanitized: Seq<char>)
    ensures
        ({
            let t = trimmed(sanitized);
            match safe_detail(sanitized) {
                None => t.len() == 0,
                Some(kept) => t.len() > 0 && if t.len() <= 2048 {
                    kept == t
                } else {
                    kept.len() == 2049 && kept.take(2048) == t.take(2048) && kept.last() == '\u{2026}'
                },
            }
        }),
{
    reveal_strlit("\u{2026}");
    let t = trimmed(sanitized);
    if t.len() > 2048 {
        let kept = t.take(2048) + "\u{2026}"@;
        assert(kept.take(2048) =~= t.take(2048));
    }
}

} // verus!
