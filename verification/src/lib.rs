//! A stream editor library: literal and regex find/replace over lines of
//! text, with structured diffs, undo records and a JSON request protocol.

pub mod text;
pub mod operation;
pub mod error;
pub mod case;
pub mod matcher;
pub mod diff;
pub mod undo;
pub mod engine;
pub mod suggestion;
pub mod config;
pub mod schema;
pub mod request;
pub mod response;
pub mod detect;
pub mod paths;
pub mod lock;
pub mod writer;
pub mod reader;
pub mod discovery;
pub mod cli;
pub mod step;
pub mod script;
pub mod laws;
