//! A library for turning free-form text into shell commands through a
//! pluggable conversion backend, centred on a verified interactive
//! session state machine.

pub mod converter;
pub mod executor;
pub mod openai;
pub mod session;
