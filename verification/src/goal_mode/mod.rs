//! Goal mode: one durable goal per live session.
//!
//! A trusted transport hands over who is speaking in which session. The host
//! admits a command, the controller turns it into guarded transitions of the
//! task tables, and the answer says what the session's goal is now.
pub mod calls;
pub mod controller;
pub mod host;
pub mod identity;
pub mod laws;
pub mod meaning;
pub mod prompt;
pub mod session;
pub mod settings;
pub mod status;
pub mod terminal;
