//! Dispatch-and-streaming core of an RPC runtime that serves named methods over
//! one persistent, bidirectional connection per client.
pub mod connection;
pub mod connection_details;
pub mod contracts;
pub mod error;
pub mod extractors;
pub mod handler;
pub mod json;
pub mod lirpc_message;
pub mod service;
pub mod stream_manager;
