//! Structured data attached to blockers.
use vstd::prelude::*;
#[allow(unused_imports)]
use vstd::string::*;

use crate::usd::Usd;

verus! {

/// A JSON value: built here from its parts, or carried as JSON text.
#[derive(Debug, PartialEq, Eq)]
pub enum Json {
    Null,
    Bool(bool),
    Count(u64),
    Dollars(Usd),
    Word(&'static str),
    Object(Box<Fields>),
    /// JSON text as it came from outside.
    Raw(String),
}

/// Members of a JSON object, in order.
#[derive(Debug, PartialEq, Eq)]
pub enum Fields {
    End,
    Field(&'static str, Json, Box<Fields>),
}

impl Json {
    /// The same value again.
    pub fn copy(&self) -> (r: Json)
        ensures
            r == *self,
        decreases self,
    {
        match self {
            Json::Null => Json::Null,
            Json::Bool(b) => Json::Bool(*b),
            Json::Count(n) => Json::Count(*n),
            Json::Dollars(d) => Json::Dollars(*d),
            Json::Word(w) => Json::Word(w),
            Json::Object(fields) => Json::Object(Box::new(fields.copy())),
            Json::Raw(s) => Json::Raw(s.clone()),
        }
    }
}

impl Fields {
    pub fn copy(&self) -> (r: Fields)
        ensures
            r == *self,
        decreases self,
    {
        match self {
            Fields::End => Fields::End,
            Fields::Field(name, value, rest) => Fields::Field(name, value.copy(), Box::new(rest.copy())),
        }
    }
}

/// A count, or null.
pub open spec fn json_count(o: Option<u64>) -> Json {
    match o {
        Some(n) => Json::Count(n),
        None => Json::Null,
    }
}

/// An amount, or null.
pub open spec fn json_dollars(o: Option<Usd>) -> Json {
    match o {
        Some(d) => Json::Dollars(d),
        None => Json::Null,
    }
}

pub fn count_or_null(o: Option<u64>) -> (r: Json)
    ensures
        r == json_count(o),
{
    match o {
        Some(n) => Json::Count(n),
        None => Json::Null,
    }
}

pub fn dollars_or_null(o: Option<Usd>) -> (r: Json)
    ensures
        r == json_dollars(o),
{
    match o {
        Some(d) => Json::Dollars(d),
        None => Json::Null,
    }
}

} // verus!
