//! Verified core of the `mgs-cli` runner manager: image naming, container
//! and request construction, platform rules and the decision logic that
//! drives the start-up of a runner.

pub mod cli;
pub mod config;
pub mod endpoint;
pub mod fmt;
pub mod grpc;
pub mod image;
pub mod platform;
pub mod runner;
pub mod tailscale;
pub mod text;
