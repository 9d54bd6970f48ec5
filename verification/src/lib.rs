//! The verified core of a small desktop application shell: the one command the
//! user interface may invoke, and the decisions of the start-up sequence.

pub mod command;
pub mod sequencer;
pub mod setup;
