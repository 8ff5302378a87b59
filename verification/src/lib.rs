//! Durable goal control plane.
pub mod clock;
pub mod error;
pub mod goal;
pub mod goal_mode;
pub mod goal_task;
pub mod message;
pub mod payload;
pub mod recovery;
pub mod store;
pub mod task;
pub mod text;
pub mod usd;
pub mod words;
