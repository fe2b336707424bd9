//! Settings and decision logic of the runtime services.
pub mod authority;
pub mod director;
pub mod gnss;
pub mod machine;
pub mod pipeline;
pub mod server;
pub mod session;
pub mod tcp_server;
