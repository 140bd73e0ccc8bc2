//! Decision logic for running wrapped commands: run options, tracking labels,
//! the output guard and the step machine that drives one command run.

pub mod guard;
pub mod labels;
pub mod options;
pub mod rules_dev;
pub mod runner;
pub mod text;
