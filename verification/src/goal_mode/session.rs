//! Sessions, the identities that speak in them, and execution scopes.
//!
//! None of these types can be printed: session ids and identities stay out of
//! logs.
use vstd::prelude::*;
#[allow(unused_imports)]
use vstd::string::*;

use crate::error::{failure, fixed_pair, two_words, GoalError};
use crate::message::Text;
use crate::text::{
    blank, is_blank, join, law_trim_idempotent, opt_view, same_text, starts_with, trim, trimmed,
};

verus! {

/// A transport that goals can live on.
#[derive(Clone, Copy, Debug, PartialEq, Eq, Structural)]
pub enum GoalSurface {
    Matrix,
    ZeroCode,
}

/// The session that a goal belongs to.
#[derive(PartialEq, Eq)]
pub enum GoalSessionKey {
    Matrix { history_key: String },
    ZeroCode { raw_session_id: String },
}

/// Who speaks.
#[derive(PartialEq, Eq)]
pub enum GoalIngressPrincipal {
    Matrix { raw_mxid: String },
    ZeroCode { tui_id: String },
}

/// Who speaks where, as a trusted transport established it.
#[derive(PartialEq, Eq)]
pub struct GoalIngressContext {
    session_key: GoalSessionKey,
    agent: String,
    route: String,
    principal: GoalIngressPrincipal,
}

/// The session that a lease is for.
#[derive(PartialEq, Eq)]
pub struct GoalSessionBinding {
    pub session_key: GoalSessionKey,
}

/// A binding that is valid as long as its guard lives.
pub struct GoalSessionLease<G> {
    pub binding: GoalSessionBinding,
    pub validity_guard: G,
}

/// The exact goal, session and epoch that an execution works for.
#[derive(PartialEq, Eq)]
pub struct GoalExecutionScope {
    task_id: String,
    session_id: String,
    execution_epoch: i64,
}

/// One operation of an execution.
#[derive(PartialEq, Eq)]
pub struct GoalOperationScope {
    pub execution: GoalExecutionScope,
}

/// A text that can be an identity: not blank, no white space at its ends.
pub open spec fn canonical(value: Seq<char>) -> bool {
    !blank(value) && trimmed(value) == value
}

/// Why a text cannot be an identity: blank, or with white space at its ends.
pub open spec fn identity_error(name: &'static str, value: Seq<char>) -> Option<GoalError> {
    if blank(value) {
        Some(failure(two_words(name, " is blank")))
    } else if trimmed(value) != value {
        Some(failure(two_words(name, " is not canonical")))
    } else {
        None
    }
}

pub fn require_nonblank(name: &'static str, value: &str) -> (r: Result<(), GoalError>)
    ensures
        r == (if blank(value@) {
            Err::<(), GoalError>(failure(two_words(name, " is blank")))
        } else {
            Ok::<(), GoalError>(())
        }),
{
    if is_blank(value) {
        Err(GoalError::new(fixed_pair(name, " is blank")))
    } else {
        Ok(())
    }
}

/// The text without white space at its ends, unless nothing is left.
pub fn required(name: &'static str, value: String) -> (r: Result<String, GoalError>)
    ensures
        match r {
            Ok(text) => !blank(value@) && text@ == trimmed(value@),
            Err(error) => blank(value@) && error == failure(two_words(name, " is blank")),
        },
{
    match require_nonblank(name, value.as_str()) {
        Err(error) => Err(error),
        Ok(()) => Ok(trim(value.as_str()).to_owned()),
    }
}

pub fn require_canonical_nonblank(name: &'static str, value: &str) -> (r: Result<(), GoalError>)
    ensures
        match r {
            Ok(_) => identity_error(name, value@) is None,
            Err(error) => identity_error(name, value@) == Some(error),
        },
{
    match require_nonblank(name, value) {
        Err(error) => {
            return Err(error);
        },
        Ok(()) => {},
    }
    if !same_text(trim(value), value) {
        return Err(GoalError::new(fixed_pair(name, " is not canonical")));
    }
    Ok(())
}

/// The text as it is, if it can be an identity.
pub fn canonical_nonblank(name: &'static str, value: String) -> (r: Result<String, GoalError>)
    ensures
        match identity_error(name, value@) {
            Some(error) => r == Err::<String, GoalError>(error),
            None => r == Ok::<String, GoalError>(value),
        },
{
    match require_canonical_nonblank(name, value.as_str()) {
        Err(error) => Err(error),
        Ok(()) => Ok(value),
    }
}

impl GoalSessionKey {
    pub open spec fn on(self) -> GoalSurface {
        match self {
            GoalSessionKey::Matrix { .. } => GoalSurface::Matrix,
            GoalSessionKey::ZeroCode { .. } => GoalSurface::ZeroCode,
        }
    }

    /// The durable id of the session.
    pub open spec fn id(self) -> Seq<char> {
        match self {
            GoalSessionKey::Matrix { history_key } => history_key@,
            GoalSessionKey::ZeroCode { raw_session_id } => "rpc_"@ + raw_session_id@,
        }
    }

    /// What the key says.
    pub open spec fn words(self) -> (GoalSurface, Seq<char>) {
        match self {
            GoalSessionKey::Matrix { history_key } => (GoalSurface::Matrix, history_key@),
            GoalSessionKey::ZeroCode { raw_session_id } => (GoalSurface::ZeroCode, raw_session_id@),
        }
    }

    /// A canonical key; on Matrix, one of the Matrix namespace.
    pub open spec fn well_formed(self) -> bool {
        match self {
            GoalSessionKey::Matrix { history_key } => canonical(history_key@) && "matrix_"@.is_prefix_of(history_key@),
            GoalSessionKey::ZeroCode { raw_session_id } => canonical(raw_session_id@),
        }
    }

    /// A Matrix session: its history key, and what the session-key sanitizer
    /// makes of that key.
    pub fn matrix(history_key: String, sanitized: &str) -> (r: Result<GoalSessionKey, GoalError>)
        ensures
            r == (match matrix_key_error(history_key@, sanitized@) {
                Some(error) => Err::<GoalSessionKey, GoalError>(error),
                None => Ok::<GoalSessionKey, GoalError>(GoalSessionKey::Matrix { history_key }),
            }),
            r matches Ok(key) ==> key.well_formed(),
    {
        let history_key = match canonical_nonblank("Matrix history key", history_key) {
            Err(error) => {
                return Err(error);
            },
            Ok(key) => key,
        };
        if !same_text(sanitized, history_key.as_str()) {
            return Err(GoalError::new(Text::Fixed("Matrix Goal history key is not canonical")));
        }
        if !starts_with(history_key.as_str(), "matrix_") {
            return Err(GoalError::new(Text::Fixed("Matrix Goal history key is outside the Matrix namespace")));
        }
        Ok(GoalSessionKey::Matrix { history_key })
    }

    /// A ZeroCode session: its id, and what the session-key sanitizer makes of
    /// that id.
    pub fn zero_code(raw_session_id: String, sanitized: &str) -> (r: Result<GoalSessionKey, GoalError>)
        ensures
            r == (match zero_code_key_error(raw_session_id@, sanitized@) {
                Some(error) => Err::<GoalSessionKey, GoalError>(error),
                None => Ok::<GoalSessionKey, GoalError>(GoalSessionKey::ZeroCode { raw_session_id }),
            }),
            r matches Ok(key) ==> key.well_formed(),
    {
        let raw_session_id = match canonical_nonblank("ZeroCode session id", raw_session_id) {
            Err(error) => {
                return Err(error);
            },
            Ok(id) => id,
        };
        if !same_text(sanitized, raw_session_id.as_str()) {
            return Err(GoalError::new(Text::Fixed("ZeroCode Goal session id is not canonical")));
        }
        Ok(GoalSessionKey::ZeroCode { raw_session_id })
    }

    pub fn surface(&self) -> (r: GoalSurface)
        ensures
            r == self.on(),
    {
        match self {
            GoalSessionKey::Matrix { .. } => GoalSurface::Matrix,
            GoalSessionKey::ZeroCode { .. } => GoalSurface::ZeroCode,
        }
    }

    /// The id under which the task tables know the session.
    pub fn durable_id(&self) -> (r: String)
        ensures
            r@ == self.id(),
    {
        match self {
            GoalSessionKey::Matrix { history_key } => history_key.clone(),
            GoalSessionKey::ZeroCode { raw_session_id } => join("rpc_", raw_session_id.as_str()),
        }
    }

    /// The same key again.
    pub fn copy(&self) -> (r: GoalSessionKey)
        ensures
            r == *self,
    {
        match self {
            GoalSessionKey::Matrix { history_key } => GoalSessionKey::Matrix { history_key: history_key.clone() },
            GoalSessionKey::ZeroCode { raw_session_id } => GoalSessionKey::ZeroCode {
                raw_session_id: raw_session_id.clone(),
            },
        }
    }

    /// Whether both keys say the same.
    pub fn same(&self, other: &GoalSessionKey) -> (r: bool)
        ensures
            r == (self.words() == other.words()),
    {
        match (self, other) {
            (GoalSessionKey::Matrix { history_key: a }, GoalSessionKey::Matrix { history_key: b }) => same_text(
                a.as_str(),
                b.as_str(),
            ),
            (
                GoalSessionKey::ZeroCode { raw_session_id: a },
                GoalSessionKey::ZeroCode { raw_session_id: b },
            ) => same_text(a.as_str(), b.as_str()),
            _ => false,
        }
    }
}

/// Why a text is no Matrix history key.
pub open spec fn matrix_key_error(key: Seq<char>, sanitized: Seq<char>) -> Option<GoalError> {
    match identity_error("Matrix history key", key) {
        Some(error) => Some(error),
        None => if sanitized != key {
            Some(failure(Text::Fixed("Matrix Goal history key is not canonical")))
        } else if !"matrix_"@.is_prefix_of(key) {
            Some(failure(Text::Fixed("Matrix Goal history key is outside the Matrix namespace")))
        } else {
            None
        },
    }
}

/// Why a text is no ZeroCode session id.
pub open spec fn zero_code_key_error(id: Seq<char>, sanitized: Seq<char>) -> Option<GoalError> {
    match identity_error("ZeroCode session id", id) {
        Some(error) => Some(error),
        None => if sanitized != id {
            Some(failure(Text::Fixed("ZeroCode Goal session id is not canonical")))
        } else {
            None
        },
    }
}

impl GoalIngressPrincipal {
    pub open spec fn on(self) -> GoalSurface {
        match self {
            GoalIngressPrincipal::Matrix { .. } => GoalSurface::Matrix,
            GoalIngressPrincipal::ZeroCode { .. } => GoalSurface::ZeroCode,
        }
    }

    pub open spec fn name(self) -> Seq<char> {
        match self {
            GoalIngressPrincipal::Matrix { raw_mxid } => raw_mxid@,
            GoalIngressPrincipal::ZeroCode { tui_id } => tui_id@,
        }
    }

    pub fn surface(&self) -> (r: GoalSurface)
        ensures
            r == self.on(),
    {
        match self {
            GoalIngressPrincipal::Matrix { .. } => GoalSurface::Matrix,
            GoalIngressPrincipal::ZeroCode { .. } => GoalSurface::ZeroCode,
        }
    }

    pub fn validate(&self) -> (r: Result<(), GoalError>)
        ensures
            match r {
                Ok(_) => identity_error("Goal ingress principal", self.name()) is None,
                Err(error) => identity_error("Goal ingress principal", self.name()) == Some(error),
            },
    {
        match self {
            GoalIngressPrincipal::Matrix { raw_mxid } => require_canonical_nonblank(
                "Goal ingress principal",
                raw_mxid.as_str(),
            ),
            GoalIngressPrincipal::ZeroCode { tui_id } => require_canonical_nonblank(
                "Goal ingress principal",
                tui_id.as_str(),
            ),
        }
    }
}

/// Why an ingress is refused: the first of a principal of another surface, a
/// principal that is no identity, a blank agent, a blank route.
pub open spec fn ingress_error(
    session_key: GoalSessionKey,
    agent: Seq<char>,
    route: Seq<char>,
    principal: GoalIngressPrincipal,
) -> Option<GoalError> {
    if session_key.on() != principal.on() {
        Some(failure(Text::Fixed("Goal ingress principal does not match the session surface")))
    } else {
        match identity_error("Goal ingress principal", principal.name()) {
            Some(error) => Some(error),
            None => if blank(agent) {
                Some(failure(two_words("Goal ingress agent", " is blank")))
            } else if blank(route) {
                Some(failure(two_words("Goal ingress route", " is blank")))
            } else {
                None
            },
        }
    }
}

impl GoalIngressContext {
    /// The session that the speaker is in.
    pub closed spec fn key(self) -> GoalSessionKey {
        self.session_key
    }

    /// The agent that the speaker addresses.
    pub closed spec fn addressed(self) -> String {
        self.agent
    }

    /// The route that the speaker came by.
    pub closed spec fn came_by(self) -> String {
        self.route
    }

    /// The speaker.
    pub closed spec fn speaker(self) -> GoalIngressPrincipal {
        self.principal
    }

    /// A canonical speaker on the surface of the session.
    #[verifier::type_invariant]
    pub open spec fn well_formed(self) -> bool {
        &&& self.key().on() == self.speaker().on()
        &&& canonical(self.addressed()@)
        &&& canonical(self.came_by()@)
        &&& canonical(self.speaker().name())
    }

    /// The principal that a goal of this ingress is bound to: a Matrix user.
    /// A ZeroCode terminal is transient.
    pub open spec fn durable_principal(self) -> Option<String> {
        match self.speaker() {
            GoalIngressPrincipal::Matrix { raw_mxid } => Some(raw_mxid),
            GoalIngressPrincipal::ZeroCode { .. } => None,
        }
    }

    pub fn trusted(
        session_key: GoalSessionKey,
        agent: String,
        route: String,
        principal: GoalIngressPrincipal,
    ) -> (r: Result<GoalIngressContext, GoalError>)
        ensures
            match r {
                Ok(ingress) => {
                    &&& ingress_error(session_key, agent@, route@, principal) is None
                    &&& ingress.key() == session_key
                    &&& ingress.addressed()@ == trimmed(agent@)
                    &&& ingress.came_by()@ == trimmed(route@)
                    &&& ingress.speaker() == principal
                    &&& ingress.well_formed()
                },
                Err(error) => ingress_error(session_key, agent@, route@, principal) == Some(error),
            },
    {
        if session_key.surface() != principal.surface() {
            return Err(
                GoalError::new(Text::Fixed("Goal ingress principal does not match the session surface")),
            );
        }
        match principal.validate() {
            Err(error) => {
                return Err(error);
            },
            Ok(()) => {},
        }
        proof {
            law_trim_idempotent(agent@);
            law_trim_idempotent(route@);
        }
        let agent = match required("Goal ingress agent", agent) {
            Err(error) => {
                return Err(error);
            },
            Ok(agent) => agent,
        };
        let route = match required("Goal ingress route", route) {
            Err(error) => {
                return Err(error);
            },
            Ok(route) => route,
        };
        Ok(GoalIngressContext { session_key, agent, route, principal })
    }

    pub fn session_key(&self) -> (r: &GoalSessionKey)
        ensures
            *r == self.key(),
    {
        &self.session_key
    }

    pub fn surface(&self) -> (r: GoalSurface)
        ensures
            r == self.key().on(),
            r == self.speaker().on(),
    {
        proof {
            use_type_invariant(self);
        }
        self.session_key.surface()
    }

    pub fn agent(&self) -> (r: &str)
        ensures
            r@ == self.addressed()@,
            canonical(r@),
    {
        proof {
            use_type_invariant(self);
        }
        self.agent.as_str()
    }

    pub fn route(&self) -> (r: &str)
        ensures
            r@ == self.came_by()@,
            canonical(r@),
    {
        proof {
            use_type_invariant(self);
        }
        self.route.as_str()
    }

    pub fn principal(&self) -> (r: &GoalIngressPrincipal)
        ensures
            *r == self.speaker(),
            r.on() == self.key().on(),
            canonical(r.name()),
    {
        proof {
            use_type_invariant(self);
        }
        &self.principal
    }

    pub fn durable_principal_id(&self) -> (r: Option<String>)
        ensures
            r == self.durable_principal(),
    {
        match &self.principal {
            GoalIngressPrincipal::Matrix { raw_mxid } => Some(raw_mxid.clone()),
            GoalIngressPrincipal::ZeroCode { .. } => None,
        }
    }

    /// The agent and the route, for the task row of a goal.
    pub(crate) fn task_origin(&self) -> (r: (String, String))
        ensures
            r.0 == self.addressed(),
            r.1 == self.came_by(),
    {
        (self.agent.clone(), self.route.clone())
    }

    /// The same context again.
    pub fn copy(&self) -> (r: GoalIngressContext)
        ensures
            r == *self,
    {
        proof {
            use_type_invariant(self);
        }
        GoalIngressContext {
            session_key: self.session_key.copy(),
            agent: self.agent.clone(),
            route: self.route.clone(),
            principal: match &self.principal {
                GoalIngressPrincipal::Matrix { raw_mxid } => GoalIngressPrincipal::Matrix {
                    raw_mxid: raw_mxid.clone(),
                },
                GoalIngressPrincipal::ZeroCode { tui_id } => GoalIngressPrincipal::ZeroCode { tui_id: tui_id.clone() },
            },
        }
    }
}

impl GoalSessionBinding {
    pub fn new(session_key: GoalSessionKey) -> (r: GoalSessionBinding)
        ensures
            r == (GoalSessionBinding { session_key }),
    {
        GoalSessionBinding { session_key }
    }

    pub fn session_key(&self) -> (r: &GoalSessionKey)
        ensures
            *r == self.session_key,
    {
        &self.session_key
    }
}

impl<G> GoalSessionLease<G> {
    pub fn new(binding: GoalSessionBinding, validity_guard: G) -> (r: GoalSessionLease<G>)
        ensures
            r == (GoalSessionLease { binding, validity_guard }),
    {
        GoalSessionLease { binding, validity_guard }
    }

    pub fn binding(&self) -> (r: &GoalSessionBinding)
        ensures
            *r == self.binding,
    {
        &self.binding
    }
}

/// Why an execution scope is refused.
pub open spec fn scope_error(task_id: Seq<char>, session_id: Seq<char>, execution_epoch: i64) -> Option<GoalError> {
    if execution_epoch <= 0 {
        Some(failure(Text::Fixed("Goal execution epoch must be positive")))
    } else {
        match identity_error("Goal execution task id", task_id) {
            Some(error) => Some(error),
            None => identity_error("Goal execution session id", session_id),
        }
    }
}

impl GoalExecutionScope {
    /// The goal that is executed.
    pub closed spec fn goal(self) -> String {
        self.task_id
    }

    /// The session that it is executed in.
    pub closed spec fn session(self) -> String {
        self.session_id
    }

    /// The epoch that it is executed at.
    pub closed spec fn epoch(self) -> i64 {
        self.execution_epoch
    }

    /// A goal in a session, at an epoch that a goal can have.
    #[verifier::type_invariant]
    pub open spec fn well_formed(self) -> bool {
        self.epoch() > 0 && canonical(self.goal()@) && canonical(self.session()@)
    }

    pub fn new(task_id: String, session_id: String, execution_epoch: i64) -> (r: Result<GoalExecutionScope, GoalError>)
        ensures
            match scope_error(task_id@, session_id@, execution_epoch) {
                Some(error) => r == Err::<GoalExecutionScope, GoalError>(error),
                None => r matches Ok(scope) && {
                    &&& scope.goal() == task_id
                    &&& scope.session() == session_id
                    &&& scope.epoch() == execution_epoch
                    &&& scope.well_formed()
                },
            },
    {
        if execution_epoch <= 0 {
            return Err(GoalError::new(Text::Fixed("Goal execution epoch must be positive")));
        }
        let task_id = match canonical_nonblank("Goal execution task id", task_id) {
            Err(error) => {
                return Err(error);
            },
            Ok(id) => id,
        };
        let session_id = match canonical_nonblank("Goal execution session id", session_id) {
            Err(error) => {
                return Err(error);
            },
            Ok(id) => id,
        };
        Ok(GoalExecutionScope { task_id, session_id, execution_epoch })
    }

    pub fn task_id(&self) -> (r: &str)
        ensures
            r@ == self.goal()@,
            canonical(r@),
    {
        proof {
            use_type_invariant(self);
        }
        self.task_id.as_str()
    }

    pub fn session_id(&self) -> (r: &str)
        ensures
            r@ == self.session()@,
            canonical(r@),
    {
        proof {
            use_type_invariant(self);
        }
        self.session_id.as_str()
    }

    pub fn execution_epoch(&self) -> (r: i64)
        ensures
            r == self.epoch(),
            r > 0,
    {
        proof {
            use_type_invariant(self);
        }
        self.execution_epoch
    }

    /// The same scope again.
    pub fn copy(&self) -> (r: GoalExecutionScope)
        ensures
            r == *self,
    {
        proof {
            use_type_invariant(self);
        }
        GoalExecutionScope {
            task_id: self.task_id.clone(),
            session_id: self.session_id.clone(),
            execution_epoch: self.execution_epoch,
        }
    }
}

impl GoalOperationScope {
    pub fn new(execution: GoalExecutionScope) -> (r: GoalOperationScope)
        ensures
            r == (GoalOperationScope { execution }),
    {
        GoalOperationScope { execution }
    }

    pub fn execution(&self) -> (r: &GoalExecutionScope)
        ensures
            *r == self.execution,
    {
        &self.execution
    }
}

/// A principal that owns a stored goal: a Matrix goal is owned by exactly the
/// user that started it, a ZeroCode goal by its session.
pub open spec fn owns_task(ingress: GoalIngressContext, principal_id: Option<String>) -> bool {
    ingress.key().on() is ZeroCode || opt_view(principal_id) == opt_view(ingress.durable_principal())
}

/// Two sessions with the same key have the same durable id, and a Matrix
/// session shares its id with no ZeroCode session.
pub proof fn law_durable_ids(a: GoalSessionKey, b: GoalSessionKey)
    requires
        a is Matrix ==> "matrix_"@.is_prefix_of(a->history_key@),
        b is Matrix ==> "matrix_"@.is_prefix_of(b->history_key@),
    ensures
        (a.id() == b.id()) == (a.words() == b.words()),
{
    reveal_strlit("matrix_");
    reveal_strlit("rpc_");
    assert("matrix_"@[0] == 'm' && "rpc_"@[0] == 'r');
    assert("matrix_"@.len() == 7 && "rpc_"@.len() == 4);
    if a is Matrix {
        assert(a.id()[0] == 'm') by {
            assert(a->history_key@.subrange(0, 7)[0] == a->history_key@[0]);
        }
    }
    if b is Matrix {
        assert(b.id()[0] == 'm') by {
            assert(b->history_key@.subrange(0, 7)[0] == b->history_key@[0]);
        }
    }
    if a is ZeroCode {
        assert(a.id()[0] == 'r');
        assert(a.id().skip(4) =~= a->raw_session_id@);
    }
    if b is ZeroCode {
        assert(b.id()[0] == 'r');
        assert(b.id().skip(4) =~= b->raw_session_id@);
    }
}

} // verus!
