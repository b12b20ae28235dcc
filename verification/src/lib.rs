//! A verified core for a small todo-list manager kept in a SQLite table.
//!
//! Tasks are added, marked as done and listed. The table lives in a SQLite
//! database that is reached through `rusqlite`; what the engine answers is
//! taken as it comes, and everything that is made of its answers (the
//! failures, the order and the text of the listing, what a command shows) is
//! verified.

pub mod command;
pub mod engine;
pub mod error;
pub mod item;
pub mod listing;
pub mod order;
pub mod render;
pub mod store;

pub use command::{parse_command, Cli, Commands};
pub use error::StoreError;
pub use item::TodoItem;
