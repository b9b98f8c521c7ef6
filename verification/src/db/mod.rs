//! The relational storage: the statements that are sent to the database
//! and what its answers mean.
pub mod common;
pub mod sqlite;
pub mod sqlx_sqlite;
