//! Rules of a command-line client for a remote time-tracking service:
//! time-entry transitions, the classification of the service's answers,
//! the line protocol spoken with an interactive selector, and the
//! decisions taken between two pieces of outside work.

pub mod api;
pub mod engine;
pub mod error;
pub mod models;
pub mod picker;
pub mod session;
pub mod text;
pub mod time;
