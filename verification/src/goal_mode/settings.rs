//! Commands, budgets and the settings of a goal host.
use vstd::prelude::*;
#[allow(unused_imports)]
use vstd::string::*;

use super::session::{canonical, required};
use crate::error::{failure, two_words, GoalError};
use crate::message::{Text, Texts};
use crate::text::{blank, law_trim_idempotent, trimmed};
use crate::usd::Usd;

verus! {

/// Limits of a goal; none means unlimited.
#[derive(Clone, Copy, Debug, PartialEq, Eq, Structural)]
pub struct GoalBudgetLimits {
    pub token_limit: Option<u64>,
    pub cost_limit_usd: Option<Usd>,
}

/// Which limits a command asks for.
#[derive(Clone, Copy, Debug, PartialEq, Eq, Structural)]
pub enum GoalBudgetSelection {
    Defaults,
    Limits(GoalBudgetLimits),
    Unlimited,
}

/// A command for the goal of a session.
#[derive(Debug, PartialEq, Eq)]
pub enum SessionGoalCommand {
    Start { budget: GoalBudgetSelection, objective: String },
    Status,
    Budget,
    SetBudget(GoalBudgetSelection),
    Pause,
    PauseNow,
    Resume { response: Option<String> },
    Cancel,
    Help,
}

/// Settings of the host that admits commands.
#[derive(Debug, PartialEq, Eq)]
pub struct GoalHostSettings {
    enabled: bool,
    default_limits: GoalBudgetLimits,
    owner_pid: u32,
    owner_boot_id: String,
}

/// A token limit that a goal can carry: positive, and within the store's range.
pub open spec fn valid_token_limit(limit: u64) -> bool {
    0 < limit <= i64::MAX
}

pub fn is_valid_finite_goal_token_limit(limit: u64) -> (r: bool)
    ensures
        r == valid_token_limit(limit),
{
    0 < limit && limit <= i64::MAX as u64
}

/// No limit at all.
pub open spec fn unlimited() -> GoalBudgetLimits {
    GoalBudgetLimits { token_limit: None, cost_limit_usd: None }
}

/// Each limit that is set can be carried.
pub open spec fn carriable(limits: GoalBudgetLimits) -> bool {
    &&& limits.token_limit matches Some(limit) ==> valid_token_limit(limit)
    &&& limits.cost_limit_usd matches Some(limit) ==> limit.valid_limit()
}

/// The word for a command.
pub fn goal_command_kind(command: &SessionGoalCommand) -> (r: &'static str)
    ensures
        r == (match *command {
            SessionGoalCommand::Start { .. } => "start",
            SessionGoalCommand::Status => "status",
            SessionGoalCommand::Budget => "budget",
            SessionGoalCommand::SetBudget(_) => "budget_set",
            SessionGoalCommand::Pause => "pause",
            SessionGoalCommand::PauseNow => "pause_now",
            SessionGoalCommand::Resume { .. } => "resume",
            SessionGoalCommand::Cancel => "cancel",
            SessionGoalCommand::Help => "help",
        }),
{
    match command {
        SessionGoalCommand::Start { .. } => "start",
        SessionGoalCommand::Status => "status",
        SessionGoalCommand::Budget => "budget",
        SessionGoalCommand::SetBudget(_) => "budget_set",
        SessionGoalCommand::Pause => "pause",
        SessionGoalCommand::PauseNow => "pause_now",
        SessionGoalCommand::Resume { .. } => "resume",
        SessionGoalCommand::Cancel => "cancel",
        SessionGoalCommand::Help => "help",
    }
}

/// Why default limits are refused, tokens before cost.
pub open spec fn default_limits_error(limits: GoalBudgetLimits) -> Option<GoalError> {
    if limits.token_limit is Some && !valid_token_limit(limits.token_limit->Some_0) {
        Some(
            failure(
                Text::Fixed("Goal default token limit must be positive and SQLite-representable when finite"),
            ),
        )
    } else if limits.cost_limit_usd is Some && !limits.cost_limit_usd->Some_0.valid_limit() {
        Some(failure(Text::Fixed("Goal default cost limit must be finite and positive when finite")))
    } else {
        None
    }
}

pub fn validate_default_limits(limits: GoalBudgetLimits) -> (r: Result<(), GoalError>)
    ensures
        match r {
            Ok(_) => default_limits_error(limits) is None,
            Err(error) => default_limits_error(limits) == Some(error),
        },
{
    match limits.token_limit {
        Some(limit) => {
            if !is_valid_finite_goal_token_limit(limit) {
                return Err(
                    GoalError::new(
                        Text::Fixed("Goal default token limit must be positive and SQLite-representable when finite"),
                    ),
                );
            }
        },
        None => {},
    }
    match limits.cost_limit_usd {
        Some(limit) => {
            if !limit.is_valid_limit() {
                return Err(
                    GoalError::new(Text::Fixed("Goal default cost limit must be finite and positive when finite")),
                );
            }
        },
        None => {},
    }
    Ok(())
}

/// Why settings given by hand are refused. Unlimited defaults have to come
/// from a validated configuration.
pub open spec fn settings_error(enabled: bool, limits: GoalBudgetLimits, boot_id: Seq<char>) -> Option<GoalError> {
    if enabled && limits == unlimited() {
        Some(
            failure(
                Text::Fixed("enabled Goal Mode unlimited defaults require validated configuration provenance"),
            ),
        )
    } else {
        configured_error(limits, boot_id)
    }
}

/// Why configured settings are refused.
pub open spec fn configured_error(limits: GoalBudgetLimits, boot_id: Seq<char>) -> Option<GoalError> {
    match default_limits_error(limits) {
        Some(error) => Some(error),
        None => if blank(boot_id) {
            Some(failure(two_words("Goal owner boot id", " is blank")))
        } else {
            None
        },
    }
}

/// The failure of a configuration that names no limits.
pub open spec fn invalid_configuration(detail: String) -> GoalError {
    failure(
        Text::Joined(
            "",
            Box::new(
                Texts::Item(
                    Text::Fixed("Goal configuration is invalid: "),
                    Box::new(Texts::Item(Text::Plain(detail), Box::new(Texts::End))),
                ),
            ),
        ),
    )
}

impl GoalHostSettings {
    /// Goals may be started and commanded.
    pub closed spec fn on(self) -> bool {
        self.enabled
    }

    /// The limits of a goal that is started without any.
    pub closed spec fn defaults(self) -> GoalBudgetLimits {
        self.default_limits
    }

    /// The process that owns the goals it starts.
    pub closed spec fn pid(self) -> u32 {
        self.owner_pid
    }

    /// The boot that owns the goals it starts.
    pub closed spec fn boot(self) -> String {
        self.owner_boot_id
    }

    /// Defaults that a goal can carry, under an owner with a name.
    #[verifier::type_invariant]
    pub open spec fn well_formed(self) -> bool {
        carriable(self.defaults()) && canonical(self.boot()@)
    }

    pub fn is_enabled(&self) -> (r: bool)
        ensures
            r == self.on(),
    {
        self.enabled
    }

    pub fn default_limits(&self) -> (r: GoalBudgetLimits)
        ensures
            r == self.defaults(),
            carriable(r),
    {
        proof {
            use_type_invariant(self);
        }
        self.default_limits
    }

    /// The process and the boot that own a goal.
    pub fn owner(&self) -> (r: (u32, String))
        ensures
            r.0 == self.pid(),
            r.1 == self.boot(),
            canonical(r.1@),
    {
        proof {
            use_type_invariant(self);
        }
        (self.owner_pid, self.owner_boot_id.clone())
    }

    /// What the settings hold.
    pub open spec fn holds(self, enabled: bool, limits: GoalBudgetLimits, owner_pid: u32, boot_id: Seq<char>) -> bool {
        &&& self.on() == enabled
        &&& self.defaults() == limits
        &&& self.pid() == owner_pid
        &&& self.boot()@ == trimmed(boot_id)
    }

    pub fn new(enabled: bool, default_limits: GoalBudgetLimits, owner_pid: u32, owner_boot_id: String) -> (r: Result<
        GoalHostSettings,
        GoalError,
    >)
        ensures
            match r {
                Ok(settings) => settings_error(enabled, default_limits, owner_boot_id@) is None && settings.holds(
                    enabled,
                    default_limits,
                    owner_pid,
                    owner_boot_id@,
                ),
                Err(error) => settings_error(enabled, default_limits, owner_boot_id@) == Some(error),
            },
            r matches Ok(settings) ==> settings.well_formed(),
    {
        if enabled && default_limits.token_limit.is_none() && default_limits.cost_limit_usd.is_none() {
            return Err(
                GoalError::new(
                    Text::Fixed("enabled Goal Mode unlimited defaults require validated configuration provenance"),
                ),
            );
        }
        GoalHostSettings::from_config(enabled, Ok(default_limits), owner_pid, owner_boot_id)
    }

    /// Settings of a configuration: whether goals are enabled, and the limits
    /// that it resolves to or why it resolves to none.
    pub fn from_config(
        enabled: bool,
        effective_limits: Result<GoalBudgetLimits, String>,
        owner_pid: u32,
        owner_boot_id: String,
    ) -> (r: Result<GoalHostSettings, GoalError>)
        ensures
            match effective_limits {
                Err(detail) => r == Err::<GoalHostSettings, GoalError>(invalid_configuration(detail)),
                Ok(limits) => match r {
                    Ok(settings) => configured_error(limits, owner_boot_id@) is None && settings.holds(
                        enabled,
                        limits,
                        owner_pid,
                        owner_boot_id@,
                    ),
                    Err(error) => configured_error(limits, owner_boot_id@) == Some(error),
                },
            },
            r matches Ok(settings) ==> settings.well_formed(),
    {
        let limits = match effective_limits {
            Ok(limits) => limits,
            Err(detail) => {
                return Err(
                    GoalError::new(
                        Text::Joined(
                            "",
                            Box::new(
                                Texts::Item(
                                    Text::Fixed("Goal configuration is invalid: "),
                                    Box::new(Texts::Item(Text::Plain(detail), Box::new(Texts::End))),
                                ),
                            ),
                        ),
                    ),
                );
            },
        };
        match validate_default_limits(limits) {
            Err(error) => {
                return Err(error);
            },
            Ok(()) => {},
        }
        proof {
            law_trim_idempotent(owner_boot_id@);
        }
        match required("Goal owner boot id", owner_boot_id) {
            Err(error) => Err(error),
            Ok(owner_boot_id) => Ok(
                GoalHostSettings { enabled, default_limits: limits, owner_pid, owner_boot_id },
            ),
        }
    }
}

/// The failure of limits in a command that a goal cannot carry.
pub open spec fn invalid_command_limits() -> GoalError {
    failure(Text::Fixed("Goal finite budget limits are invalid"))
}

/// Limits in a command: at least one is set, and each can be carried.
pub open spec fn acceptable(limits: GoalBudgetLimits) -> bool {
    carriable(limits) && limits != unlimited()
}

pub fn validate_command_limits(limits: GoalBudgetLimits) -> (r: Result<GoalBudgetLimits, GoalError>)
    ensures
        r == (if acceptable(limits) {
            Ok::<GoalBudgetLimits, GoalError>(limits)
        } else {
            Err::<GoalBudgetLimits, GoalError>(invalid_command_limits())
        }),
{
    let tokens_valid = match limits.token_limit {
        Some(limit) => is_valid_finite_goal_token_limit(limit),
        None => true,
    };
    let cost_valid = match limits.cost_limit_usd {
        Some(limit) => limit.is_valid_limit(),
        None => true,
    };
    if !tokens_valid || !cost_valid || (limits.token_limit.is_none() && limits.cost_limit_usd.is_none()) {
        return Err(GoalError::new(Text::Fixed("Goal finite budget limits are invalid")));
    }
    Ok(limits)
}

/// The limits that a new goal gets.
pub open spec fn selected_limits(defaults: GoalBudgetLimits, selection: GoalBudgetSelection) -> Result<
    GoalBudgetLimits,
    GoalError,
> {
    match selection {
        GoalBudgetSelection::Defaults => Ok(defaults),
        GoalBudgetSelection::Limits(limits) => if acceptable(limits) {
            Ok(limits)
        } else {
            Err(invalid_command_limits())
        },
        GoalBudgetSelection::Unlimited => Ok(unlimited()),
    }
}

pub fn select_limits(defaults: GoalBudgetLimits, selection: GoalBudgetSelection) -> (r: Result<
    GoalBudgetLimits,
    GoalError,
>)
    ensures
        r == selected_limits(defaults, selection),
{
    match selection {
        GoalBudgetSelection::Defaults => Ok(defaults),
        GoalBudgetSelection::Limits(limits) => validate_command_limits(limits),
        GoalBudgetSelection::Unlimited => Ok(GoalBudgetLimits { token_limit: None, cost_limit_usd: None }),
    }
}

/// The limits that an existing goal gets; the configured defaults are for new
/// goals only.
pub open spec fn updated_limits(selection: GoalBudgetSelection) -> Result<GoalBudgetLimits, GoalError> {
    match selection {
        GoalBudgetSelection::Defaults => Err(failure(Text::Fixed("Goal budget set cannot use configured defaults"))),
        GoalBudgetSelection::Limits(limits) => if acceptable(limits) {
            Ok(limits)
        } else {
            Err(invalid_command_limits())
        },
        GoalBudgetSelection::Unlimited => Ok(unlimited()),
    }
}

pub fn select_budget_update_limits(selection: GoalBudgetSelection) -> (r: Result<GoalBudgetLimits, GoalError>)
    ensures
        r == updated_limits(selection),
{
    match selection {
        GoalBudgetSelection::Defaults => Err(
            GoalError::new(Text::Fixed("Goal budget set cannot use configured defaults")),
        ),
        GoalBudgetSelection::Limits(limits) => validate_command_limits(limits),
        GoalBudgetSelection::Unlimited => Ok(GoalBudgetLimits { token_limit: None, cost_limit_usd: None }),
    }
}

/// Limits that were accepted, by either way, are limits that the store holds.
pub proof fn law_accepted_limits_are_storable(
    defaults: GoalBudgetLimits,
    selection: GoalBudgetSelection,
    limits: GoalBudgetLimits,
)
    requires
        default_limits_error(defaults) is None,
        selected_limits(defaults, selection) == Ok::<GoalBudgetLimits, GoalError>(limits) || updated_limits(selection)
            == Ok::<GoalBudgetLimits, GoalError>(limits),
    ensures
        crate::store::limits::limits_error(limits.token_limit, limits.cost_limit_usd) is None,
{
}

} // verus!
