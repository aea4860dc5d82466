//! Power-control gateway library: resolves bearer tokens to managed
//! hardware endpoints, prepares out-of-band power commands, and
//! classifies the management tool's textual output into typed results.

pub mod action;
pub mod classify;
pub mod config;
pub mod gateway;
pub mod strkit;
