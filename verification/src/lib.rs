//! A query engine served over HTTP: configuration, content negotiation,
//! problem documents and the protocol that joins query execution to a
//! streamed response body.

pub mod bridge;
pub mod cli;
pub mod connection;
pub mod error;
pub mod format;
pub mod handler;
pub mod json;
pub mod text;
pub mod trace;
