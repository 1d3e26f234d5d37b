//! A small personal task list: the tasks, the changes made to them, the JSON
//! text they are kept in, and the messages shown for each command.

pub mod task;
pub mod text;
pub mod codec;
pub mod store;
pub mod command;
