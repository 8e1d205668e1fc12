//! Decisions of a sandboxing tool gateway: sandbox configuration, egress
//! control, and the line protocol of the local daemon.

pub mod config;
pub mod daemon;
pub mod egress;
pub mod execution;
pub mod env;
pub mod hosted;
pub mod limits;
pub mod text;
