//! Effective limits on their way into and out of the store.
use vstd::prelude::*;

use super::error::{phrase, phrase_of, StoreError};
use crate::message::Text;
use crate::usd::Usd;

verus! {

/// Why a stored limit cannot be read.
#[derive(Clone, Copy, Debug, PartialEq, Eq, Structural)]
pub enum LimitFault {
    /// A token limit below zero.
    NegativeTokens { tokens: i64 },
    /// A cost limit that is not finite, or below zero.
    InvalidCost { cost: Usd },
}

impl LimitFault {
    /// The words for a stored limit that cannot be read.
    pub open spec fn words(self) -> Text {
        match self {
            LimitFault::NegativeTokens { .. } => Text::Fixed(
                "Conversion error from type Integer at index: 0, out of range integral type conversion attempted",
            ),
            LimitFault::InvalidCost { cost } => Text::Joined(
                "",
                Box::new(
                    phrase(
                        "Conversion error from type Real at index: 0, invalid effective cost limit ",
                        Text::Bare(cost),
                        "",
                    ),
                ),
            ),
        }
    }

    pub fn text(self) -> (r: Text)
        ensures
            r == self.words(),
    {
        match self {
            LimitFault::NegativeTokens { .. } => Text::Fixed(
                "Conversion error from type Integer at index: 0, out of range integral type conversion attempted",
            ),
            LimitFault::InvalidCost { cost } => Text::Joined(
                "",
                Box::new(
                    phrase_of(
                        "Conversion error from type Real at index: 0, invalid effective cost limit ",
                        Text::Bare(cost),
                        "",
                    ),
                ),
            ),
        }
    }
}

/// A token limit that the store cannot hold, if the limit is one.
pub open spec fn token_limit_error(limit: Option<u64>) -> Option<StoreError> {
    match limit {
        Some(value) => if value > i64::MAX {
            Some(StoreError::TokenLimitOutOfRange { value })
        } else {
            None
        },
        None => None,
    }
}

pub open spec fn cost_limit_error(limit: Option<Usd>) -> Option<StoreError> {
    match limit {
        Some(value) => if value.storable_limit() {
            None
        } else {
            Some(StoreError::CostLimitInvalid)
        },
        None => None,
    }
}

/// The first limit that the store refuses, tokens before cost.
pub open spec fn limits_error(token_limit: Option<u64>, cost_limit: Option<Usd>) -> Option<StoreError> {
    match token_limit_error(token_limit) {
        Some(error) => Some(error),
        None => cost_limit_error(cost_limit),
    }
}

/// A token limit as the store holds it.
pub fn token_limit_to_db(value: u64) -> (r: Result<i64, StoreError>)
    ensures
        match r {
            Ok(stored) => stored == value && value <= i64::MAX,
            Err(error) => value > i64::MAX && error == (StoreError::TokenLimitOutOfRange { value }),
        },
{
    if value > i64::MAX as u64 {
        Err(StoreError::TokenLimitOutOfRange { value })
    } else {
        Ok(value as i64)
    }
}

/// A token limit as the store gives it back; none may be negative.
pub fn token_limit_from_db(value: Option<i64>) -> (r: Result<Option<u64>, LimitFault>)
    ensures
        match value {
            None => r == Ok::<Option<u64>, LimitFault>(None),
            Some(stored) => if stored >= 0 {
                r matches Ok(Some(limit)) && limit == stored
            } else {
                r == Err::<Option<u64>, LimitFault>(LimitFault::NegativeTokens { tokens: stored })
            },
        },
{
    match value {
        None => Ok(None),
        Some(stored) => if stored >= 0 {
            Ok(Some(stored as u64))
        } else {
            Err(LimitFault::NegativeTokens { tokens: stored })
        },
    }
}

/// A cost limit as the store holds it.
pub fn cost_limit_to_db(value: Usd) -> (r: Result<Usd, StoreError>)
    ensures
        r == (if value.storable_limit() {
            Ok::<Usd, StoreError>(value)
        } else {
            Err::<Usd, StoreError>(StoreError::CostLimitInvalid)
        }),
{
    if value.is_storable_limit() {
        Ok(value)
    } else {
        Err(StoreError::CostLimitInvalid)
    }
}

/// A stored cost limit that cannot be read, if the limit is one.
pub open spec fn cost_limit_fault(stored: Option<Usd>) -> Option<LimitFault> {
    match stored {
        Some(stored) => if stored.storable_limit() {
            None
        } else {
            Some(LimitFault::InvalidCost { cost: stored })
        },
        None => None,
    }
}

/// A cost limit as the store gives it back.
pub fn cost_limit_from_db(value: Option<Usd>) -> (r: Result<Option<Usd>, LimitFault>)
    ensures
        match cost_limit_fault(value) {
            Some(fault) => r == Err::<Option<Usd>, LimitFault>(fault),
            None => r == Ok::<Option<Usd>, LimitFault>(value),
        },
{
    match value {
        Some(stored) => if stored.is_storable_limit() {
            Ok(Some(stored))
        } else {
            Err(LimitFault::InvalidCost { cost: stored })
        },
        None => Ok(None),
    }
}

/// Both limits as the store holds them; the first refusal otherwise.
pub fn goal_limits_to_db(token_limit: Option<u64>, cost_limit_usd: Option<Usd>) -> (r: Result<
    (Option<i64>, Option<Usd>),
    StoreError,
>)
    ensures
        match r {
            Ok((tokens, cost)) => {
                &&& limits_error(token_limit, cost_limit_usd) is None
                &&& tokens is Some == token_limit is Some
                &&& token_limit matches Some(limit) ==> tokens == Some(limit as i64)
                &&& cost == cost_limit_usd
            },
            Err(error) => limits_error(token_limit, cost_limit_usd) == Some(error),
        },
{
    let tokens: Option<i64> = match token_limit {
        Some(value) => match token_limit_to_db(value) {
            Ok(stored) => Some(stored),
            Err(error) => {
                return Err(error);
            },
        },
        None => None,
    };
    match cost_limit_usd {
        Some(value) => match cost_limit_to_db(value) {
            Ok(stored) => Ok((tokens, Some(stored))),
            Err(error) => Err(error),
        },
        None => Ok((tokens, None)),
    }
}

/// A token limit that the store accepted comes back as it was.
pub proof fn law_token_limit_round_trip(limit: u64, stored: i64)
    requires
        limit <= i64::MAX,
        stored == limit as i64,
    ensures
        stored >= 0,
        stored as u64 == limit,
{
}

} // verus!
