//! An in-memory task tracker: tasks with a description and a status, kept in
//! an ordered list that is addressed by position.

pub mod laws;
pub mod menu;
pub mod render;
pub mod todo;

pub use todo::{Status, Todo, TodoError, TodoList, TodoModel};
