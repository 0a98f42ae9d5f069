//! The decisions of the commands that a user runs.

pub mod import;
