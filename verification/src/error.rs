//! Failures with their causes.
use vstd::prelude::*;

use crate::message::{Text, Texts};

verus! {

/// A failure: what it says, and what it was caused by.
#[derive(Debug, PartialEq, Eq)]
pub struct GoalError {
    pub text: Text,
    pub cause: Option<Box<GoalError>>,
}

/// A failure without a cause.
pub open spec fn failure(text: Text) -> GoalError {
    GoalError { text, cause: None }
}

/// A failure that puts another into context.
pub open spec fn in_context(text: Text, cause: GoalError) -> GoalError {
    GoalError { text, cause: Some(Box::new(cause)) }
}

impl GoalError {
    pub fn new(text: Text) -> (r: GoalError)
        ensures
            r == failure(text),
    {
        GoalError { text, cause: None }
    }

    /// The same failure again.
    pub fn copy(&self) -> (r: GoalError)
        ensures
            r == *self,
        decreases self,
    {
        let cause = match &self.cause {
            Some(cause) => Some(Box::new(cause.copy())),
            None => None,
        };
        GoalError { text: self.text.copy(), cause }
    }

    /// This failure as the cause of another.
    pub fn context(self, text: Text) -> (r: GoalError)
        ensures
            r == in_context(text, self),
    {
        GoalError { text, cause: Some(Box::new(self)) }
    }
}

/// Two fixed texts after each other.
pub open spec fn two_words(first: &'static str, second: &'static str) -> Text {
    Text::Joined("", Box::new(Texts::Item(Text::Fixed(first), Box::new(Texts::Item(Text::Fixed(second), Box::new(Texts::End))))))
}

pub fn fixed_pair(first: &'static str, second: &'static str) -> (r: Text)
    ensures
        r == two_words(first, second),
{
    Text::Joined("", Box::new(Texts::Item(Text::Fixed(first), Box::new(Texts::Item(Text::Fixed(second), Box::new(Texts::End))))))
}

} // verus!
