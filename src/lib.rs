//! A task journal: tasks with creation times, kept in an ordered store and
//! written to a JSON journal file.

pub mod cli;
pub mod journal;
pub mod store;
pub mod task;
pub mod text;
