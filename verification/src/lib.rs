//! Verified core of the interactive front end of the Pi agent.
//!
//! The modules hold the decisions that the front end takes on plain values: what an extension's
//! dialog shows and what an answer to it means, where an extension's message is delivered, what
//! an extension may read from and write to the session, and the text helpers around them. Locks,
//! channels, clocks and files belong to the program around this library.
pub mod commands;
pub mod config;
pub mod conversation;
pub mod credentials;
pub mod diff;
pub mod ext_session;
pub mod extension_ui;
pub mod host_actions;
pub mod host_calls;
pub mod json;
pub mod members;
pub mod messages;
pub mod permissions;
pub mod policy;
pub mod preview;
pub mod scoped_models;
pub mod session;
pub mod share;
pub mod text;
pub mod thinking;
