//! A small application core: a todo list whose state changes only through
//! `process_mod_event`, whose read-only snapshots come from `view`, and a
//! table that pairs the requests handed to the shell with their eventual
//! responses.
pub mod app_state;
pub mod command;
pub mod request;
pub mod shell;
pub mod todo_list;
