//! Decision core of a small HTTP listener: which socket to bind, how the TLS
//! material is put together, which stages a request goes through and how the
//! listener winds down. Everything here works on plain values; sockets, files
//! and signals belong to the program that drives it.

pub mod cli;
pub mod endpoints;
pub mod listener;
pub mod pipeline;
pub mod tls;
