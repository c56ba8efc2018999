//! A personal task list: the records and their store, the labels that group
//! them by day, the grouped listing and the state of the interactive view.

pub mod date;
pub mod listing;
pub mod session;
pub mod text;
pub mod todos;
