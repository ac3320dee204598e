//! A small task tracker: task records, the operations on an ordered
//! collection of tasks, and the decisions behind each command.
pub mod collection;
pub mod command;
pub mod status;
pub mod task;
pub mod task_file;
pub mod timestamp;
