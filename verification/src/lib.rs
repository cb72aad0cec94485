//! Bridge between a host application and an embedded command interpreter.
//!
//! The host hands over a block of script text, a stream of input data and two
//! optional configuration overrides; the bridge builds a fresh interpreter
//! context, applies the overrides, parses the text, commits the new
//! declarations, evaluates the parsed block against the input and translates
//! an embedded error value into the call's error channel.

pub mod collector;
pub mod context;
pub mod errors;
pub mod evaluate;
pub mod interp;
pub mod overrides;
pub mod plugin;
