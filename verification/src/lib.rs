//! Core of a line-oriented text chat service: the shared data types, the
//! protocol messages, the registry of live sessions with its fan-out, the
//! persistence store, the server's request handler and the client's
//! command interpreter.

pub mod common;
pub mod text;
pub mod registry;
pub mod protocol;
pub mod error;
pub mod database;
pub mod ui;
pub mod membership;
pub mod fanout;
pub mod handler;
pub mod server;
pub mod statements;
