//! The socket side: one connection's request and the listener's lifecycle.

pub mod pwr_controller;
