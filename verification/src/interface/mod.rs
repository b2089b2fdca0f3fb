//! The wire protocol: its envelopes and their JSON encoding.

pub mod codec;
pub mod json;
pub mod model;
