//! Bridge between a UI process and a supervised worker process that speaks a
//! line-delimited JSON protocol.

pub mod commands;
pub mod credentials;
pub mod discovery;
pub mod error;
pub mod json;
pub mod keyed;
pub mod migrations;
pub mod protocol;
pub mod providers;
pub mod reader;
pub mod router;
pub mod secure_storage;
pub mod settings;
pub mod supervisor;
pub mod tasks;
pub mod text;
