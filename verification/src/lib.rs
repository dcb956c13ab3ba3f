//! A small reducer-driven state container for a todo list: a state value, a
//! pure reducer that derives the next state from an action, and a store that
//! applies the reducer and then notifies its listeners.

pub mod command;
pub mod display;
pub mod laws;
pub mod store;
pub mod text;
pub mod todo;
