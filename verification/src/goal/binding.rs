//! The live binding of a turn to the goal it works for.
//!
//! A scope is entered with an admission context. At most one goal is bound to
//! it, once and for good, and while someone has reserved the binding nobody
//! else can take it.
use vstd::prelude::*;
#[allow(unused_imports)]
use vstd::string::*;

use super::context::GoalAdmissionContext;
use crate::error::{failure, GoalError};
use crate::message::Text;
use crate::text::{blank, is_blank, same_text};

verus! {

/// The admission context of a scope, and whether its binding is reserved.
#[derive(Debug, PartialEq, Eq)]
pub struct GoalAdmissionBindingState {
    pub context: Option<GoalAdmissionContext>,
    pub reserved_for_admission: bool,
}

/// The evaluation requests of turns, by their markers. Turns that carry the
/// same marker share its request.
#[derive(Debug, PartialEq, Eq)]
pub struct TurnMarkers {
    pub requested: Vec<bool>,
}

/// What is live while a turn runs.
#[derive(Debug, PartialEq, Eq)]
pub struct GoalRuntimeScope {
    pub admission_binding: GoalAdmissionBindingState,
    /// The marker of the turn; absent where nobody listens.
    pub turn_evaluation_requested: Option<usize>,
}

/// A reserved binding, until it is bound or given up.
#[derive(Debug, PartialEq, Eq)]
pub struct GoalTaskBindingReservation {
    pub active: bool,
}

/// The state once a goal is bound.
pub open spec fn bound_to(state: GoalAdmissionBindingState, id: String) -> GoalAdmissionBindingState {
    GoalAdmissionBindingState {
        context: Some(GoalAdmissionContext { goal_task_id: Some(id), ..state.context->Some_0 }),
        ..state
    }
}

/// The goal that a state is bound to.
pub open spec fn bound_goal_id(state: GoalAdmissionBindingState) -> Option<Seq<char>> {
    match state.context {
        Some(context) => match context.goal_task_id {
            Some(id) => Some(id@),
            None => None,
        },
        None => None,
    }
}

/// A binding can be made: the id says something, the binding is not reserved,
/// and the context is bound to no other goal.
pub open spec fn bindable(state: GoalAdmissionBindingState, task_id: Seq<char>) -> bool {
    &&& !blank(task_id)
    &&& !state.reserved_for_admission
    &&& state.context is Some
    &&& bound_goal_id(state) is None || bound_goal_id(state) == Some(task_id)
}

pub open spec fn context_unavailable() -> GoalError {
    failure(Text::Fixed("goal admission context unavailable"))
}

pub open spec fn already_bound() -> GoalError {
    failure(Text::Fixed("goal admission already has an exact live task binding"))
}

pub open spec fn binding_reserved() -> GoalError {
    failure(Text::Fixed("goal admission task binding is reserved"))
}

impl GoalRuntimeScope {
    /// A scope with a context, bound or not as the context says, and with
    /// someone listening for evaluation requests, or not. Nothing is reserved.
    pub fn new(admission_context: Option<GoalAdmissionContext>, turn_evaluation_requested: Option<usize>) -> (r:
        GoalRuntimeScope)
        ensures
            r == (GoalRuntimeScope {
                admission_binding: GoalAdmissionBindingState {
                    context: admission_context,
                    reserved_for_admission: false,
                },
                turn_evaluation_requested,
            }),
    {
        GoalRuntimeScope {
            admission_binding: GoalAdmissionBindingState { context: admission_context, reserved_for_admission: false },
            turn_evaluation_requested,
        }
    }

    /// The scope with a context of its own, bound or not as the context says.
    pub fn with_admission_context(self, context: Option<GoalAdmissionContext>) -> (r: GoalRuntimeScope)
        ensures
            r.admission_binding == (GoalAdmissionBindingState { context, reserved_for_admission: false }),
            r.turn_evaluation_requested == self.turn_evaluation_requested,
    {
        GoalRuntimeScope {
            admission_binding: GoalAdmissionBindingState { context, reserved_for_admission: false },
            turn_evaluation_requested: self.turn_evaluation_requested,
        }
    }

    /// The scope with someone listening for evaluation requests, or not.
    pub fn with_turn_evaluation_marker(self, marker: Option<usize>) -> (r: GoalRuntimeScope)
        ensures
            r == (GoalRuntimeScope { turn_evaluation_requested: marker, ..self }),
    {
        let mut scope = self;
        scope.turn_evaluation_requested = marker;
        scope
    }

    pub fn admission_context(&self) -> (r: Option<&GoalAdmissionContext>)
        ensures
            match r {
                Some(context) => self.admission_binding.context == Some(*context),
                None => self.admission_binding.context is None,
            },
    {
        self.admission_binding.context.as_ref()
    }
}

/// Binds the scope to a goal. True if it is bound to that goal now; whoever
/// follows bindings is told then.
pub fn bind_current_goal_task(scope: &mut Option<GoalRuntimeScope>, task_id: &str) -> (r: bool)
    ensures
        r == (*old(scope) matches Some(s) && bindable(s.admission_binding, task_id@)),
        match *old(scope) {
            None => *final(scope) is None,
            Some(before) => *final(scope) matches Some(after) && {
                &&& after.turn_evaluation_requested == before.turn_evaluation_requested
                &&& if r && bound_goal_id(before.admission_binding) is None {
                    &&& after.admission_binding.context matches Some(context)
                    &&& context.goal_task_id matches Some(id)
                    &&& id@ == task_id@
                    &&& after.admission_binding == bound_to(before.admission_binding, id)
                } else {
                    after.admission_binding == before.admission_binding
                }
            },
        },
{
    if is_blank(task_id) {
        return false;
    }
    match scope {
        None => false,
        Some(scope) => {
            if scope.admission_binding.reserved_for_admission {
                return false;
            }
            match &mut scope.admission_binding.context {
                None => false,
                Some(context) => {
                    match &context.goal_task_id {
                        Some(existing) => same_text(existing.as_str(), task_id),
                        None => {
                            context.goal_task_id = Some(task_id.to_owned());
                            true
                        },
                    }
                },
            }
        },
    }
}

/// Whether the scope's binding is free to be made.
pub fn ensure_current_goal_task_binding_available(scope: &Option<GoalRuntimeScope>) -> (r: Result<(), GoalError>)
    ensures
        r == (match *scope {
            None => Err::<(), GoalError>(context_unavailable()),
            Some(s) => if s.admission_binding.context is None {
                Err(context_unavailable())
            } else if s.admission_binding.reserved_for_admission || bound_goal_id(s.admission_binding) is Some {
                Err(already_bound())
            } else {
                Ok(())
            },
        }),
{
    match scope {
        None => Err(GoalError::new(Text::Fixed("goal admission context unavailable"))),
        Some(scope) => match &scope.admission_binding.context {
            None => Err(GoalError::new(Text::Fixed("goal admission context unavailable"))),
            Some(context) => if scope.admission_binding.reserved_for_admission || context.goal_task_id.is_some() {
                Err(GoalError::new(Text::Fixed("goal admission already has an exact live task binding")))
            } else {
                Ok(())
            },
        },
    }
}

/// Why a binding cannot be reserved.
pub open spec fn reservation_error(scope: Option<GoalRuntimeScope>) -> Option<GoalError> {
    match scope {
        None => Some(context_unavailable()),
        Some(s) => if s.admission_binding.context is None {
            Some(context_unavailable())
        } else if bound_goal_id(s.admission_binding) is Some {
            Some(already_bound())
        } else if s.admission_binding.reserved_for_admission {
            Some(binding_reserved())
        } else {
            None
        },
    }
}

/// The scope with its binding reserved, or free again.
pub open spec fn with_reservation(scope: GoalRuntimeScope, reserved: bool) -> GoalRuntimeScope {
    GoalRuntimeScope {
        admission_binding: GoalAdmissionBindingState {
            reserved_for_admission: reserved,
            ..scope.admission_binding
        },
        ..scope
    }
}

/// Reserves the binding of the scope.
pub fn reserve_current_goal_task_binding(scope: &mut Option<GoalRuntimeScope>) -> (r: Result<
    GoalTaskBindingReservation,
    GoalError,
>)
    ensures
        match reservation_error(*old(scope)) {
            Some(error) => r == Err::<GoalTaskBindingReservation, GoalError>(error) && *final(scope) == *old(scope),
            None => r == Ok::<GoalTaskBindingReservation, GoalError>(GoalTaskBindingReservation { active: true })
                && *final(scope) == Some(with_reservation(old(scope)->Some_0, true)),
        },
{
    match scope {
        None => Err(GoalError::new(Text::Fixed("goal admission context unavailable"))),
        Some(scope) => {
            match &scope.admission_binding.context {
                None => {
                    return Err(GoalError::new(Text::Fixed("goal admission context unavailable")));
                },
                Some(context) => {
                    if context.goal_task_id.is_some() {
                        return Err(
                            GoalError::new(Text::Fixed("goal admission already has an exact live task binding")),
                        );
                    }
                },
            }
            if scope.admission_binding.reserved_for_admission {
                return Err(GoalError::new(Text::Fixed("goal admission task binding is reserved")));
            }
            scope.admission_binding.reserved_for_admission = true;
            Ok(GoalTaskBindingReservation { active: true })
        },
    }
}

/// Whether the binding of the scope is reserved.
pub fn current_goal_task_binding_is_reserved(scope: &Option<GoalRuntimeScope>) -> (r: bool)
    ensures
        r == (scope matches Some(s) && s.admission_binding.reserved_for_admission),
{
    match scope {
        Some(scope) => scope.admission_binding.reserved_for_admission,
        None => false,
    }
}

/// A reservation that still holds the binding of a scope binds a goal to it.
pub open spec fn reservation_binds(
    reservation: GoalTaskBindingReservation,
    scope: GoalRuntimeScope,
    task_id: Seq<char>,
) -> bool {
    &&& reservation.active
    &&& task_id.len() > 0
    &&& scope.admission_binding.reserved_for_admission
    &&& scope.admission_binding.context is Some
    &&& bound_goal_id(scope.admission_binding) is None
}

/// The scope once its reservation has bound a goal.
pub open spec fn reservation_bound(scope: GoalRuntimeScope, task_id: String) -> GoalRuntimeScope {
    with_reservation(
        GoalRuntimeScope { admission_binding: bound_to(scope.admission_binding, task_id), ..scope },
        false,
    )
}

impl GoalTaskBindingReservation {
    /// Binds the reserved scope to a goal and gives the reservation up. True if
    /// the goal is bound by this; whoever follows bindings is told then. An
    /// empty id binds nothing and leaves the reservation to be released. A
    /// reservation that was given up has nothing left to bind.
    pub fn bind(&mut self, scope: &mut GoalRuntimeScope, task_id: String) -> (r: bool)
        ensures
            r == reservation_binds(*old(self), *old(scope), task_id@),
            final(self).active == (old(self).active && task_id@.len() == 0),
            *final(scope) == (if !old(self).active || task_id@.len() == 0 {
                *old(scope)
            } else if r {
                reservation_bound(*old(scope), task_id)
            } else {
                with_reservation(*old(scope), false)
            }),
    {
        if !self.active || task_id.as_str().unicode_len() == 0 {
            return false;
        }
        let mut bound = false;
        if scope.admission_binding.reserved_for_admission {
            match &mut scope.admission_binding.context {
                Some(context) => {
                    if context.goal_task_id.is_none() {
                        context.goal_task_id = Some(task_id);
                        bound = true;
                    }
                },
                None => {},
            }
        }
        self.active = false;
        scope.admission_binding.reserved_for_admission = false;
        bound
    }

    /// Gives the reservation up without binding anything.
    pub fn release(&mut self, scope: &mut GoalRuntimeScope)
        ensures
            !final(self).active,
            *final(scope) == (if old(self).active {
                with_reservation(*old(scope), false)
            } else {
                *old(scope)
            }),
    {
        if self.active {
            scope.admission_binding.reserved_for_admission = false;
            self.active = false;
        }
    }
}

impl TurnMarkers {
    /// No markers yet.
    pub fn new() -> (r: TurnMarkers)
        ensures
            r.requested@ == Seq::<bool>::empty(),
    {
        TurnMarkers { requested: Vec::new() }
    }

    /// A marker of its own, with nothing requested.
    pub fn add_marker(&mut self) -> (r: usize)
        ensures
            r == old(self).requested@.len(),
            final(self).requested@ == old(self).requested@.push(false),
    {
        let marker: usize = self.requested.len();
        self.requested.push(false);
        marker
    }
}

/// The marker that a turn carries; none outside a turn.
pub open spec fn marker_of(scope: Option<GoalRuntimeScope>) -> Option<usize> {
    match scope {
        Some(s) => s.turn_evaluation_requested,
        None => None,
    }
}

/// Whether a turn is to be evaluated.
pub open spec fn evaluation_requested(scope: Option<GoalRuntimeScope>, requested: Seq<bool>) -> bool {
    marker_of(scope) matches Some(marker) && marker < requested.len() && requested[marker as int]
}

/// The requests once a turn asks to be evaluated.
pub open spec fn marked(scope: Option<GoalRuntimeScope>, requested: Seq<bool>) -> Seq<bool> {
    match marker_of(scope) {
        Some(marker) => if marker < requested.len() {
            requested.update(marker as int, true)
        } else {
            requested
        },
        None => requested,
    }
}

/// Asks for the running turn to be evaluated, if anyone listens.
pub fn mark_current_goal_turn_for_evaluation(scope: &Option<GoalRuntimeScope>, markers: &mut TurnMarkers)
    ensures
        final(markers).requested@ == marked(*scope, old(markers).requested@),
{
    match scope {
        Some(scope) => match scope.turn_evaluation_requested {
            Some(marker) => {
                if marker < markers.requested.len() {
                    markers.requested.set(marker, true);
                }
            },
            None => {},
        },
        None => {},
    }
}

/// Whether the running turn asked to be evaluated.
pub fn current_goal_turn_evaluation_requested(scope: &Option<GoalRuntimeScope>, markers: &TurnMarkers) -> (r: bool)
    ensures
        r == evaluation_requested(*scope, markers.requested@),
{
    match scope {
        Some(scope) => match scope.turn_evaluation_requested {
            Some(marker) => marker < markers.requested.len() && markers.requested[marker],
            None => false,
        },
        None => false,
    }
}

/// The marker of the running turn, for work that belongs to the same turn.
pub fn current_goal_turn_evaluation_marker(scope: &Option<GoalRuntimeScope>) -> (r: Option<usize>)
    ensures
        r == marker_of(*scope),
{
    match scope {
        Some(scope) => scope.turn_evaluation_requested,
        None => None,
    }
}

/// Whether the current batch of tool calls starts a goal.
pub fn current_goal_start_tool_batch_requested(batch: Option<bool>) -> (r: bool)
    ensures
        r == (batch == Some(true)),
{
    match batch {
        Some(requested) => requested,
        None => false,
    }
}

/// What a nested batch of tool calls inherits: a batch that starts a goal does
/// so for everything within it.
pub fn scope_goal_start_tool_batch(outer: Option<bool>, contains_goal_admission_tool: bool) -> (r: Option<bool>)
    ensures
        r == Some(outer == Some(true) || contains_goal_admission_tool),
{
    Some(current_goal_start_tool_batch_requested(outer) || contains_goal_admission_tool)
}

/// While a binding is reserved nobody can reserve or make it; a bound scope
/// never takes another goal.
pub proof fn law_binding_is_exclusive(scope: GoalRuntimeScope, task_id: Seq<char>)
    ensures
        scope.admission_binding.reserved_for_admission ==> !bindable(scope.admission_binding, task_id)
            && reservation_error(Some(scope)) is Some,
        bound_goal_id(scope.admission_binding) matches Some(id) && id != task_id ==> !bindable(
            scope.admission_binding,
            task_id,
        ),
        bound_goal_id(scope.admission_binding) is Some ==> reservation_error(Some(scope)) is Some,
{
}

/// Reserving and giving up leaves the scope as it was, and free to be reserved
/// again.
pub proof fn law_release_undoes_reserve(scope: GoalRuntimeScope)
    requires
        reservation_error(Some(scope)) is None,
    ensures
        with_reservation(with_reservation(scope, true), false) == scope,
{
}

/// A binding that was reserved and left alone since is bound by its
/// reservation, to the goal that was admitted meanwhile; the scope is reserved
/// no longer. A reservation that was given up binds nothing.
pub proof fn law_reservation_binds_what_was_admitted(scope: GoalRuntimeScope, task_id: String)
    requires
        reservation_error(Some(scope)) is None,
        task_id@.len() > 0,
    ensures
        ({
            let reserved = with_reservation(scope, true);
            let after = reservation_bound(reserved, task_id);
            &&& reservation_binds(GoalTaskBindingReservation { active: true }, reserved, task_id@)
            &&& bound_goal_id(after.admission_binding) == Some(task_id@)
            &&& !after.admission_binding.reserved_for_admission
            &&& !reservation_binds(GoalTaskBindingReservation { active: false }, reserved, task_id@)
        }),
{
}

/// A marker is shared, not copied: what one turn marks, every turn that
/// carries its marker sees, and no other turn does. A turn that took its marker
/// from another carries the same one.
pub proof fn law_marker_is_shared(
    parent: GoalRuntimeScope,
    child: GoalRuntimeScope,
    other: Option<GoalRuntimeScope>,
    requested: Seq<bool>,
)
    requires
        parent.turn_evaluation_requested matches Some(marker) && marker < requested.len(),
    ensures
        ({
            let child = GoalRuntimeScope { turn_evaluation_requested: marker_of(Some(parent)), ..child };
            &&& evaluation_requested(Some(parent), marked(Some(child), requested))
            &&& evaluation_requested(Some(child), marked(Some(parent), requested))
            &&& marker_of(other) != marker_of(Some(child)) ==> evaluation_requested(
                other,
                marked(Some(child), requested),
            ) == evaluation_requested(other, requested)
        }),
        marker_of(None) is None,
        marked(None, requested) == requested,
{
}

/// A live turn is bound to a goal by an id that says something, where nothing
/// holds the binding and the turn is not bound to another goal.
pub proof fn law_when_a_turn_can_be_bound(state: GoalAdmissionBindingState, task_id: Seq<char>)
    ensures
        bindable(state, task_id) == ({
            &&& crate::text::trimmed(task_id).len() > 0
            &&& state.reserved_for_admission == false
            &&& state.context matches Some(context) && (context.goal_task_id is None || context.goal_task_id->Some_0@
                == task_id)
        }),
{
}

/// A binding is reserved for a live turn with a context that is bound to no
/// goal, once; it is refused for the first of these that fails. A reservation
/// changes nothing but that the binding is held.
pub proof fn law_when_a_binding_is_reserved(scope: GoalRuntimeScope)
    ensures
        reservation_error(None) == Some(
            GoalError { text: Text::Fixed("goal admission context unavailable"), cause: None },
        ),
        reservation_error(Some(scope)) == (match scope.admission_binding.context {
            None => Some(GoalError { text: Text::Fixed("goal admission context unavailable"), cause: None }),
            Some(context) => if context.goal_task_id is Some {
                Some(
                    GoalError {
                        text: Text::Fixed("goal admission already has an exact live task binding"),
                        cause: None,
                    },
                )
            } else if scope.admission_binding.reserved_for_admission {
                Some(GoalError { text: Text::Fixed("goal admission task binding is reserved"), cause: None })
            } else {
                None
            },
        }),
        forall|held: bool|
            {
                let after = #[trigger] with_reservation(scope, held);
                &&& after.admission_binding.reserved_for_admission == held
                &&& after.admission_binding.context == scope.admission_binding.context
                &&& after.turn_evaluation_requested == scope.turn_evaluation_requested
            },
{
}

/// A reservation binds its turn to a goal as long as it holds the binding and
/// the turn is not bound. Then the turn works for that goal, nothing else of
/// its context changes, and the binding is free.
pub proof fn law_what_a_reservation_binds(
    reservation: GoalTaskBindingReservation,
    scope: GoalRuntimeScope,
    task_id: String,
)
    ensures
        reservation_binds(reservation, scope, task_id@) == (reservation.active && task_id@.len() > 0
            && scope.admission_binding.reserved_for_admission && (
        scope.admission_binding.context matches Some(context) && context.goal_task_id is None)),
        scope.admission_binding.context matches Some(context) ==> {
            let after = reservation_bound(scope, task_id);
            &&& after.admission_binding.context == Some(
                GoalAdmissionContext { goal_task_id: Some(task_id), ..context },
            )
            &&& !after.admission_binding.reserved_for_admission
            &&& after.turn_evaluation_requested == scope.turn_evaluation_requested
        },
{
}

} // verus!
