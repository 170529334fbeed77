//! A dialect-aware SQL query and schema builder.
//!
//! Statements are built as plain data through fluent calls and rendered to SQL text for
//! MySQL, PostgreSQL or SQLite. Every type has a mathematical model (its view); what a
//! call does is stated over that model, and the text of a statement is a function of its
//! model and the dialect.

pub mod types;
pub mod text;
pub mod model;
pub mod expr;
pub mod query;
pub mod render;
pub mod writer;
pub mod gate;
pub mod schema;
pub mod table;
pub mod logic;
pub mod laws;
