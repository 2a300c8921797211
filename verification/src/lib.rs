//! A shared movie watchlist and a title lookup for a chat bot.
//!
//! Members of a chat server add films to one watchlist, list it, and look
//! titles up in a dataset that is read once at start. This crate holds the
//! logic: what each command changes and answers. Connecting to the chat
//! platform, and reading and writing the files, is left to the program that
//! uses it.
//!
//! - [`watchlist`] and [`store`]: the list and the store that owns it.
//! - [`types`], [`dataset`] and [`index`]: the title dataset and its index.
//! - [`commands`]: the reply to each command.
//! - [`persist`]: what to make of the files at start and of a failed write.
//! - [`markup`] and [`text`]: message text and string helpers.
//! - [`error`]: the ways in which an operation fails.

pub mod commands;
pub mod dataset;
pub mod error;
pub mod index;
pub mod markup;
pub mod persist;
pub mod store;
pub mod text;
pub mod types;
pub mod watchlist;
