//! A polling backend: entities, their identities and storage decisions, and the
//! tally of cast ballots.
pub mod authentication;
pub mod ballots;
pub mod common;
pub mod config;
pub mod criteria;
pub mod db;
pub mod error;
pub mod local;
pub mod persistence;
pub mod plumping;
pub mod remote;
pub mod routes;
pub mod serialize;
pub mod templates;
pub mod text;
pub mod time;
pub mod users;
pub mod validator;
pub mod votes;
