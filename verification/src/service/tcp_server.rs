//! Settings of the TCP server.
use vstd::prelude::*;

verus! {

/// Where the TCP server listens and how many clients it serves at once.
#[derive(Clone, Debug, PartialEq, Eq)]
pub struct TcpServerConfig {
    /// Network address to listen on.
    pub listen: String,
    /// Maximum number of connections.
    pub max_connections: usize,
}

/// `127.0.0.1:30051`
pub open spec fn spec_default_listen() -> Seq<char> {
    seq!['1', '2', '7', '.', '0', '.', '0', '.', '1', ':', '3', '0', '0', '5', '1']
}

/// Number of clients a server serves at once unless configured otherwise.
pub const DEFAULT_MAX_CONNECTIONS: usize = 10;

impl TcpServerConfig {
    /// The address listened on when the configuration names none.
    pub fn default_listen() -> (listen: String)
        ensures
            listen@ == spec_default_listen(),
    {
        proof {
            reveal_strlit("127.0.0.1:30051");
        }
        let listen = "127.0.0.1:30051".to_owned();
        assert(listen@ =~= spec_default_listen());
        listen
    }

    /// The connection limit used when the configuration names none.
    pub fn default_max_connections() -> (limit: usize)
        ensures
            limit == DEFAULT_MAX_CONNECTIONS,
    {
        DEFAULT_MAX_CONNECTIONS
    }

    /// Number of clients connected while `available_permits` of the
    /// connection limit are still free.
    pub fn active_client_count(&self, available_permits: usize) -> (active: usize)
        requires
            available_permits <= self.max_connections,
        ensures
            active == self.max_connections - available_permits,
    {
        self.max_connections - available_permits
    }
}

/// Where the Unix socket server listens and how many clients it serves.
#[derive(Clone, Debug, PartialEq, Eq)]
pub struct UnixServerConfig {
    /// Unix domain socket path to listen on.
    pub path: String,
    /// Maximum number of connections.
    pub max_connections: usize,
}

impl UnixServerConfig {
    /// The connection limit used when the configuration names none.
    pub fn default_max_connections() -> (limit: usize)
        ensures
            limit == DEFAULT_MAX_CONNECTIONS,
    {
        DEFAULT_MAX_CONNECTIONS
    }
}

} // verus!
