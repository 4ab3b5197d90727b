//! Command routing for a terminal-multiplexer pane bridge: a cache of pane and
//! tab state fed by host notifications, a decoder from named requests to typed
//! commands, a guard that shields the controller's own pane, and an executor
//! that turns each command into one host action and one response.
pub mod text;
pub mod json;
pub mod command;
pub mod state;
pub mod exec;
pub mod laws;
