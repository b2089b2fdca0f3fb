//! The power service: command dispatch against a provider of power actions.

pub mod provider;
pub mod pwr_service;
