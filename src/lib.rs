//! Decisions and reports of a small operations tool: which command was asked
//! for, which processes and requests each command makes, and what it prints
//! for each outcome. Processes and HTTP requests are run by the caller.

pub mod command;
pub mod json;
pub mod lines;
pub mod probe;
pub mod process;
