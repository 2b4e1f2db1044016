//! A small task tracker: the task record and the operations that transform
//! a task collection, with the parsing of user input they depend on.
pub mod input;
pub mod listing;
pub mod ops;
pub mod task;
