//! Goal commands: parsing, policy, budgets and the lifecycle they drive.
pub mod accounting;
pub mod admission;
pub mod answers;
pub mod binding;
pub mod budget;
pub mod calls;
pub mod command;
pub mod context;
pub mod evaluation;
pub mod flow;
pub mod laws;
pub mod lifecycle;
pub mod outcomes;
pub mod policy;
pub mod race;
pub mod rules;
pub mod sight;
pub mod syntax;
pub mod visibility;
