//! An embeddable RPC engine.
//!
//! A process exposes named remote procedures ("handlers") that peers invoke
//! over two transports: a unary request/response exchange and a persistent
//! bidirectional connection on which either side may initiate calls and
//! replies are correlated by id.  This crate holds the engine itself: the
//! handler registry and dispatch rules, the wire protocol for both
//! transports, the correlation table for outstanding calls, the connection
//! registry with its on-connect replay rule, and the caller ("target")
//! abstraction.  The transport plumbing (socket accept loops, HTTP serving)
//! lives outside the library and drives it with plain values.

pub mod text;
pub mod json;
pub mod strmap;
pub mod protocol;
pub mod errors;
pub mod handler;
pub mod registry;
pub mod pending;
pub mod connections;
pub mod engine;
pub mod target;
