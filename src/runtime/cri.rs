use vstd::prelude::*;

use crate::runtime::model::{ContainerHealth, ContainerStatus};
use crate::text::{join2, owned};

verus! {

pub const DEFAULT_SOCKET_PATH: &'static str = "/run/containerd/containerd.sock";

/// Socket of a CRI runtime; none means the default socket.
#[derive(Debug)]
pub enum ConnectionConfig {
    Socket(Option<String>),
}

impl ConnectionConfig {
    pub fn default_socket() -> (r: ConnectionConfig)
        ensures
            r == ConnectionConfig::Socket(None),
    {
        ConnectionConfig::Socket(None)
    }

    pub fn socket(path: String) -> (r: ConnectionConfig)
        ensures
            r == ConnectionConfig::Socket(Some(path)),
    {
        ConnectionConfig::Socket(Some(path))
    }

    pub open spec fn spec_describe(self) -> Seq<char> {
        match self {
            ConnectionConfig::Socket(Some(p)) => "unix://"@ + p@,
            ConnectionConfig::Socket(None) => "unix://"@ + DEFAULT_SOCKET_PATH@,
        }
    }

    /// `unix://` followed by the socket path.
    pub fn describe(&self) -> (r: String)
        ensures
            r@ == self.spec_describe(),
    {
        match self {
            ConnectionConfig::Socket(Some(p)) => join2("unix://", p.as_str()),
            ConnectionConfig::Socket(None) => join2("unix://", DEFAULT_SOCKET_PATH),
        }
    }

    /// The socket path to connect to.
    pub fn socket_path(&self) -> (r: String)
        ensures
            r@ == match *self {
                ConnectionConfig::Socket(Some(p)) => p@,
                ConnectionConfig::Socket(None) => DEFAULT_SOCKET_PATH@,
            },
    {
        match self {
            ConnectionConfig::Socket(Some(p)) => p.clone(),
            ConnectionConfig::Socket(None) => owned(DEFAULT_SOCKET_PATH),
        }
    }
}

/// The default socket when it exists.
pub fn detect_connection_config(default_socket_exists: bool) -> (r: Option<ConnectionConfig>)
    ensures
        default_socket_exists ==> r == Some(ConnectionConfig::Socket(None)),
        !default_socket_exists ==> r is None,
{
    if default_socket_exists {
        Some(ConnectionConfig::default_socket())
    } else {
        None
    }
}

/// Status of a container from the CRI state number: 0 created, 1 running, 2 exited.
pub open spec fn status_of_cri_state(state: i32) -> ContainerStatus {
    if state == 0 {
        ContainerStatus::Created
    } else if state == 1 {
        ContainerStatus::Running(ContainerHealth::Unknown)
    } else if state == 2 {
        ContainerStatus::Exited
    } else {
        ContainerStatus::Unknown
    }
}

pub fn container_status(state: i32) -> (r: ContainerStatus)
    ensures
        r == status_of_cri_state(state),
{
    if state == 0 {
        ContainerStatus::Created
    } else if state == 1 {
        ContainerStatus::Running(ContainerHealth::Unknown)
    } else if state == 2 {
        ContainerStatus::Exited
    } else {
        ContainerStatus::Unknown
    }
}

} // verus!
