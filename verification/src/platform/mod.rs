//! Rules that depend on the host operating system, and the checks of the
//! services the tool relies on.

pub mod unix;
pub mod windows;

use vstd::prelude::*;
use crate::fmt::decimal;

verus! {

/// The family of operating system the tool runs on.
#[derive(Clone, Copy, PartialEq, Eq, Structural)]
pub enum HostOs {
    Unix,
    Windows,
}

/// A device of the host made available inside a container.
#[derive(Debug)]
pub struct DeviceMapping {
    pub path_on_host: Option<String>,
    pub path_in_container: Option<String>,
    pub cgroup_permissions: Option<String>,
}

/// Why the group of the Docker socket could not be used.
#[derive(Clone, Copy, PartialEq, Eq, Structural, Debug)]
pub enum DockerGidError {
    /// The socket's metadata could not be read.
    SocketUnavailable,
    /// The socket belongs to the group root (id 0).
    RootGroup,
}

/// The user and group ids that the runner's files are written with:
/// `(1000, 1000)` on Windows, the process's own ids elsewhere.
pub open spec fn host_ids_for(os: HostOs, process_ids: (u32, u32)) -> (u32, u32) {
    match os {
        HostOs::Unix => process_ids,
        HostOs::Windows => (1000, 1000),
    }
}

/// The group id of the Docker socket on Unix, given the socket's group id as
/// read from its metadata (`None` where that read failed); always `0` on Windows.
pub open spec fn docker_gid_for(os: HostOs, socket_gid: Option<u32>) -> Result<u32, DockerGidError> {
    match os {
        HostOs::Unix => match socket_gid {
            None => Err(DockerGidError::SocketUnavailable),
            Some(g) => if g == 0 {
                Err(DockerGidError::RootGroup)
            } else {
                Ok(g)
            },
        },
        HostOs::Windows => Ok(0),
    }
}

/// The bind that gives a container the host's Docker endpoint.
pub open spec fn docker_sock_bind_for(os: HostOs) -> Seq<char> {
    match os {
        HostOs::Unix => "/var/run/docker.sock:/var/run/docker.sock"@,
        HostOs::Windows => "//./pipe/docker_engine://./pipe/docker_engine"@,
    }
}

/// Capabilities added to the mesh sidecar: `NET_ADMIN` on Unix, none on Windows.
pub open spec fn cap_add_for(os: HostOs) -> Option<Seq<Seq<char>>> {
    match os {
        HostOs::Unix => Some(seq!["NET_ADMIN"@]),
        HostOs::Windows => None,
    }
}

/// The view of a device mapping: host path, container path, permissions.
pub open spec fn device_view(d: DeviceMapping) -> (Option<Seq<char>>, Option<Seq<char>>, Option<Seq<char>>) {
    (
        match d.path_on_host { Some(s) => Some(s@), None => None },
        match d.path_in_container { Some(s) => Some(s@), None => None },
        match d.cgroup_permissions { Some(s) => Some(s@), None => None },
    )
}

/// The devices given to the mesh sidecar: the TUN device with `rwm` on Unix,
/// none on Windows.
pub open spec fn devices_for(os: HostOs) -> Option<Seq<(Option<Seq<char>>, Option<Seq<char>>, Option<Seq<char>>)>> {
    match os {
        HostOs::Unix => Some(seq![(Some("/dev/net/tun"@), Some("/dev/net/tun"@), Some("rwm"@))]),
        HostOs::Windows => None,
    }
}

/// The supplementary groups of the runner: the Docker socket's group on Unix,
/// none on Windows.
pub open spec fn group_add_for(os: HostOs, socket_gid: Option<u32>) -> Result<Option<Seq<Seq<char>>>, DockerGidError> {
    match os {
        HostOs::Unix => match docker_gid_for(os, socket_gid) {
            Ok(g) => Ok(Some(seq![decimal(g as nat)])),
            Err(e) => Err(e),
        },
        HostOs::Windows => Ok(None),
    }
}

/// The view of an optional list of strings.
pub open spec fn opt_strings_view(v: Option<Vec<String>>) -> Option<Seq<Seq<char>>> {
    match v {
        Some(v) => Some(v.deep_view()),
        None => None,
    }
}

/// The view of an optional list of devices.
pub open spec fn opt_devices_view(v: Option<Vec<DeviceMapping>>) -> Option<Seq<(Option<Seq<char>>, Option<Seq<char>>, Option<Seq<char>>)>> {
    match v {
        Some(v) => Some(v@.map_values(|d: DeviceMapping| device_view(d))),
        None => None,
    }
}

/// The user and group ids for the runner on `os`, where `process_ids` are the
/// ids of this process.
pub fn get_host_ids(os: HostOs, process_ids: (u32, u32)) -> (res: (u32, u32))
    ensures
        res == host_ids_for(os, process_ids),
        os == HostOs::Unix ==> res == process_ids,
        os == HostOs::Windows ==> res == (1000u32, 1000u32),
{
    match os {
        HostOs::Unix => unix::get_host_ids(process_ids),
        HostOs::Windows => windows::get_host_ids(),
    }
}

/// The group id of the Docker socket on `os`, where `socket_gid` is the group
/// read from the socket's metadata.
pub fn get_docker_gid(os: HostOs, socket_gid: Option<u32>) -> (res: Result<u32, DockerGidError>)
    ensures
        res == docker_gid_for(os, socket_gid),
{
    match os {
        HostOs::Unix => unix::get_docker_gid(socket_gid),
        HostOs::Windows => windows::get_docker_gid(),
    }
}

/// The devices of the mesh sidecar on `os`.
pub fn unix_only_devices(os: HostOs) -> (res: Option<Vec<DeviceMapping>>)
    ensures
        opt_devices_view(res) == devices_for(os),
{
    match os {
        HostOs::Unix => unix::unix_only_devices(),
        HostOs::Windows => windows::unix_only_devices(),
    }
}

/// The bind of the Docker endpoint on `os`.
pub fn docker_sock_bind(os: HostOs) -> (res: String)
    ensures
        res@ == docker_sock_bind_for(os),
{
    match os {
        HostOs::Unix => unix::docker_sock_bind(),
        HostOs::Windows => windows::docker_sock_bind(),
    }
}

/// The supplementary groups of the runner on `os`.
pub fn docker_group_add(os: HostOs, socket_gid: Option<u32>) -> (res: Result<Option<Vec<String>>, DockerGidError>)
    ensures
        match res {
            Ok(v) => group_add_for(os, socket_gid) == Ok::<Option<Seq<Seq<char>>>, DockerGidError>(opt_strings_view(v)),
            Err(e) => group_add_for(os, socket_gid) == Err::<Option<Seq<Seq<char>>>, DockerGidError>(e),
        },
{
    match os {
        HostOs::Unix => unix::docker_group_add(socket_gid),
        HostOs::Windows => windows::docker_group_add(),
    }
}

/// The capabilities of the mesh sidecar on `os`.
pub fn unix_only_cap_add(os: HostOs) -> (res: Option<Vec<String>>)
    ensures
        opt_strings_view(res) == cap_add_for(os),
{
    match os {
        HostOs::Unix => unix::unix_only_cap_add(),
        HostOs::Windows => windows::unix_only_cap_add(),
    }
}

/// Where the tailscale daemon was found.
#[derive(Clone, Copy, PartialEq, Eq, Structural, Debug)]
pub enum TailscaledSource {
    /// Reported active by systemd.
    Systemd,
    /// Found as a running process.
    Process,
}

/// The outcome of one step of the tailscale daemon check.
#[derive(Clone, Copy, PartialEq, Eq, Structural, Debug)]
pub enum TailscaledCheck {
    /// The daemon runs.
    Running(TailscaledSource),
    /// Systemd does not report it: look for the process.
    LookForProcess,
    /// The daemon does not run.
    NotRunning,
}

/// Decides whether the tailscale daemon runs: systemd is asked first
/// (`systemd_active`); only where it does not report the daemon active is the
/// process list searched, whose result is `process_found` (`None` while that
/// search has not been made).
pub fn check_tailscaled(systemd_active: bool, process_found: Option<bool>) -> (res: TailscaledCheck)
    ensures
        systemd_active ==> res == TailscaledCheck::Running(TailscaledSource::Systemd),
        !systemd_active && process_found == Some(true) ==> res == TailscaledCheck::Running(TailscaledSource::Process),
        !systemd_active && process_found == Some(false) ==> res == TailscaledCheck::NotRunning,
        !systemd_active && process_found is None ==> res == TailscaledCheck::LookForProcess,
{
    if systemd_active {
        TailscaledCheck::Running(TailscaledSource::Systemd)
    } else {
        match process_found {
            None => TailscaledCheck::LookForProcess,
            Some(true) => TailscaledCheck::Running(TailscaledSource::Process),
            Some(false) => TailscaledCheck::NotRunning,
        }
    }
}

/// On Unix the runner's files are written as this process's own user and
/// group, whatever they are (root included); on Windows always as 1000/1000.
pub proof fn law_host_ids(process_ids: (u32, u32))
    ensures
        host_ids_for(HostOs::Unix, process_ids) == process_ids,
        host_ids_for(HostOs::Windows, process_ids) == (1000u32, 1000u32),
{
}

/// On Unix the Docker group is the socket's group exactly when that group
/// could be read and is not root; an unreadable socket and a root-owned one
/// are told apart. On Windows the group is always 0.
pub proof fn law_docker_gid(socket_gid: Option<u32>)
    ensures
        (docker_gid_for(HostOs::Unix, socket_gid) is Ok) <==> (socket_gid matches Some(g) && g != 0),
        docker_gid_for(HostOs::Unix, socket_gid) matches Ok(g) ==> socket_gid == Some(g),
        socket_gid is None ==> docker_gid_for(HostOs::Unix, socket_gid) == Err::<u32, DockerGidError>(
            DockerGidError::SocketUnavailable,
        ),
        socket_gid == Some(0u32) ==> docker_gid_for(HostOs::Unix, socket_gid) == Err::<u32, DockerGidError>(
            DockerGidError::RootGroup,
        ),
        docker_gid_for(HostOs::Windows, socket_gid) == Ok::<u32, DockerGidError>(0),
{
}

/// On Unix the runner's only supplementary group is the Docker socket's group,
/// in decimal, exactly when that group could be read and is not root; the
/// errors are those of the group itself. On Windows there is none.
pub proof fn law_group_add(socket_gid: Option<u32>)
    ensures
        socket_gid matches Some(g) ==> (g != 0 ==> group_add_for(HostOs::Unix, socket_gid)
            == Ok::<Option<Seq<Seq<char>>>, DockerGidError>(Some(seq![decimal(g as nat)]))),
        socket_gid is None ==> group_add_for(HostOs::Unix, socket_gid) == Err::<Option<Seq<Seq<char>>>, DockerGidError>(
            DockerGidError::SocketUnavailable,
        ),
        socket_gid == Some(0u32) ==> group_add_for(HostOs::Unix, socket_gid) == Err::<
            Option<Seq<Seq<char>>>,
            DockerGidError,
        >(DockerGidError::RootGroup),
        group_add_for(HostOs::Windows, socket_gid) == Ok::<Option<Seq<Seq<char>>>, DockerGidError>(None),
{
}

} // verus!
