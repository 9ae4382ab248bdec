//! A verification engine: an ordered list of independent rules is run against
//! an input, and the reasons of the rules that failed are collected. A time
//! source may block the run altogether, and a logger may be told the verdict.

pub mod engine;
pub mod health;
pub mod logged;
pub mod mocking;
pub mod password;
pub mod rules;
pub mod timed;
pub mod weekday;
