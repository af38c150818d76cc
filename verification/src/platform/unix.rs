//! The platform rules on Unix hosts.

use vstd::prelude::*;
use super::{DeviceMapping, DockerGidError, device_view};
use crate::fmt::{decimal, decimal_string};

verus! {

/// The runner writes files as this process's own user and group.
pub fn get_host_ids(process_ids: (u32, u32)) -> (res: (u32, u32))
    ensures
        res == process_ids,
{
    process_ids
}

/// The group of the Docker socket, where `socket_gid` is the group read from
/// its metadata (`None` where that read failed); the root group is refused.
pub fn get_docker_gid(socket_gid: Option<u32>) -> (res: Result<u32, DockerGidError>)
    ensures
        res == match socket_gid {
            None => Err(DockerGidError::SocketUnavailable),
            Some(g) => if g == 0 {
                Err(DockerGidError::RootGroup)
            } else {
                Ok(g)
            },
        },
{
    match socket_gid {
        None => Err(DockerGidError::SocketUnavailable),
        Some(g) => {
            if g == 0 {
                Err(DockerGidError::RootGroup)
            } else {
                Ok(g)
            }
        },
    }
}

/// The TUN device, read, write and mknod.
pub fn unix_only_devices() -> (res: Option<Vec<DeviceMapping>>)
    ensures
        res matches Some(v) && v@.len() == 1 && device_view(v@[0]) == (
            Some("/dev/net/tun"@),
            Some("/dev/net/tun"@),
            Some("rwm"@),
        ),
{
    let mut v: Vec<DeviceMapping> = Vec::new();
    v.push(
        DeviceMapping {
            path_on_host: Some("/dev/net/tun".to_owned()),
            path_in_container: Some("/dev/net/tun".to_owned()),
            cgroup_permissions: Some("rwm".to_owned()),
        },
    );
    Some(v)
}

/// The Docker socket, bound at the same path.
pub fn docker_sock_bind() -> (res: String)
    ensures
        res@ == "/var/run/docker.sock:/var/run/docker.sock"@,
{
    "/var/run/docker.sock:/var/run/docker.sock".to_owned()
}

/// The Docker socket's group, in decimal, as the only supplementary group.
pub fn docker_group_add(socket_gid: Option<u32>) -> (res: Result<Option<Vec<String>>, DockerGidError>)
    ensures
        match socket_gid {
            None => res == Err::<Option<Vec<String>>, DockerGidError>(DockerGidError::SocketUnavailable),
            Some(g) => if g == 0 {
                res == Err::<Option<Vec<String>>, DockerGidError>(DockerGidError::RootGroup)
            } else {
                res matches Ok(Some(v)) && v.deep_view() == seq![decimal(g as nat)]
            },
        },
{
    let gid = match get_docker_gid(socket_gid) {
        Ok(g) => g,
        Err(e) => return Err(e),
    };
    let mut v: Vec<String> = Vec::new();
    v.push(decimal_string(gid));
    assert(v.deep_view() =~= seq![decimal(gid as nat)]);
    Ok(Some(v))
}

/// The capability to manage network interfaces.
pub fn unix_only_cap_add() -> (res: Option<Vec<String>>)
    ensures
        res matches Some(v) && v.deep_view() == seq!["NET_ADMIN"@],
{
    let mut v: Vec<String> = Vec::new();
    v.push("NET_ADMIN".to_owned());
    assert(v.deep_view() =~= seq!["NET_ADMIN"@]);
    Some(v)
}

} // verus!
