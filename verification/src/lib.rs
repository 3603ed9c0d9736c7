//! Core logic of a slider controller bridge: the controller state, the
//! Brokenithm wire protocol and HTTP routing, and the output configuration.

pub mod text;
pub mod state;
pub mod protocol;
pub mod config;
pub mod http;
pub mod session;
pub mod job;
pub mod context;
pub mod worker;
