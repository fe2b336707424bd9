//! Settings of the Unix socket server.
use vstd::prelude::*;

verus! {

/// Where the Unix socket server listens.
#[derive(Clone, Debug, PartialEq, Eq)]
pub struct UnixServerConfig {
    /// Unix domain socket path to listen on.
    pub path: String,
}

/// `/tmp/glonax.sock`
pub open spec fn spec_default_socket_path() -> Seq<char> {
    seq!['/', 't', 'm', 'p', '/', 'g', 'l', 'o', 'n', 'a', 'x', '.', 's', 'o', 'c', 'k']
}

impl UnixServerConfig {
    /// The socket path used when the configuration names none.
    pub fn default_path() -> (path: String)
        ensures
            path@ == spec_default_socket_path(),
    {
        proof {
            reveal_strlit("/tmp/glonax.sock");
        }
        let path = "/tmp/glonax.sock".to_owned();
        assert(path@ =~= spec_default_socket_path());
        path
    }
}

impl Default for UnixServerConfig {
    fn default() -> (config: Self)
        ensures
            config.path@ == spec_default_socket_path(),
    {
        Self { path: Self::default_path() }
    }
}

} // verus!
