//! The command line of the tool, as plain values.

use vstd::prelude::*;

verus! {

/// CPU cores offered to the runner when none are given.
pub const DEFAULT_CPU_CORES: u32 = 2;

/// RAM in MB offered to the runner when none is given.
pub const DEFAULT_MEMORY_MB: u64 = 4096;

/// Disk in MB offered to the runner when none is given.
pub const DEFAULT_DISK_MB: u64 = 20480;

/// The parsed command line.
#[derive(Debug)]
pub struct Cli {
    pub command: Commands,
}

/// The two command groups.
#[derive(Debug)]
pub enum Commands {
    /// Commands that manage users.
    User(UserCommands),
    /// Commands that manage the runner.
    Runner(RunnerCommands),
}

/// Arguments of the `user` group.
#[derive(Debug)]
pub struct UserCommands {
    pub command: UserAction,
}

/// Arguments of the `runner` group.
#[derive(Debug)]
pub struct RunnerCommands {
    pub command: RunnerAction,
}

/// What a user can do.
#[derive(Debug)]
pub enum UserAction {
    /// Connect the user to the mesh.
    Connect(UserConnectArgs),
}

/// What can be done with the runner.
#[derive(Debug)]
pub enum RunnerAction {
    /// Start the runner and its mesh sidecar.
    Start(RunnerStartArgs),
    /// Stop the runner.
    Stop,
    /// Show the runner's status.
    Status,
}

/// Arguments of `user connect`.
#[derive(Debug)]
pub struct UserConnectArgs {
    /// Address of the control plane.
    pub cp_address_user: String,
    pub join_secret: String,
}

/// Arguments of `runner start`.
#[derive(Debug)]
pub struct RunnerStartArgs {
    /// Address of the control plane.
    pub cp_address_runner: String,
    pub join_secret: String,
    pub host_data_path: String,
    pub host_data_bind: String,
    /// CPU cores available to the runner.
    pub cpu_cores: u32,
    /// RAM in MB.
    pub memory_mb: u64,
    /// Disk in MB.
    pub disk_mb: u64,
}

} // verus!
