//! A small local persistence layer: a connection manager around one embedded
//! SQLite database, a generic row codec, a persisted schema-version counter,
//! and a migration driver that walks the stored version up to the target one
//! step at a time.

pub mod book;
pub mod db;
pub mod migration;
pub mod sql;
pub mod version;
