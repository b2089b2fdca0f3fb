//! The core of a local power-control daemon: the wire codec of its one-shot
//! JSON protocol, the dispatch of request kinds to power actions, the handling
//! of one connection's bytes, and the lifecycle of its listening socket.
//!
//! Everything here computes on plain values. Sockets, the system bus and the
//! task runtime live with the caller, which hands this library the bytes it
//! read and a provider of power actions, and gets back the bytes to write.

pub mod controllers;
pub mod interface;
pub mod services;
pub mod text;
