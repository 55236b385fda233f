//! A registry of yes/no polls keyed by their question, with a single admin
//! configuration record, written as a verified state machine.

pub mod contract;
pub mod laws;
pub mod registry;
pub mod state;
