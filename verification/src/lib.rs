//! A task list with a dashboard state machine: the verified core of the `flow` tool.

pub mod clock;
pub mod text;
pub mod task;
pub mod app;
pub mod keys;
pub mod cli;
pub mod view;
pub mod layout;
pub mod laws;
