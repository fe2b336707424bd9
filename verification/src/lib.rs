//! Verified core of the glonax machine-control runtime.
//!
//! - [`transport`]: the frame protocol between the runtime and its clients,
//!   its packets, and what a remote session does with each frame.
//! - [`serial`]: serial line rates, their termios speed codes, and the
//!   termios flags of line settings.
//! - [`signal`]: scaling encoder readings from one range onto another.
//! - [`service`]: settings of the runtime services, how the servers treat
//!   client sessions and apply their control requests, the decisions of the
//!   J1939 network authority, and the component pipeline.
//! - [`config`]: machine-level settings and the services and pipeline the
//!   runtime runs for them.
//! - [`state`]: the simulated electronic control unit.
//! - [`cli`], [`ctl`], [`util`]: reading and writing words and addresses on
//!   the command line.
//! - [`buffer`], [`text`]: byte buffers and text helpers underneath.
pub mod buffer;
pub mod cli;
pub mod config;
pub mod ctl;
pub mod serial;
pub mod service;
pub mod signal;
pub mod state;
pub mod text;
pub mod transport;
pub mod util;
