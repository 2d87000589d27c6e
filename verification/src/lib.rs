//! A personal code-snippet manager: snippet records (title, code, language,
//! free-text tags, favorite flag, timestamps) kept in one table of an embedded
//! SQLite database, with create / list / update / delete / search /
//! toggle-favorite operations whose effects are stated over a mathematical
//! model of the table.

pub mod commands;
pub mod db;
pub mod error;
pub mod model;
pub mod schema;
pub mod store;
