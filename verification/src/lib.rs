//! Decision logic for redirecting one TCP listening port to a Unix domain
//! socket while the redirected descriptor keeps answering identity queries
//! as an IPv4 socket.
//!
//! Nothing here touches the operating system. Each intercepted call is
//! answered with a value that says what the caller has to do next, so the
//! same logic serves a preload shim, a test harness or a simulator.

pub mod address;
pub mod config;
pub mod tracker;
pub mod identity;
pub mod bind;
pub mod guarantees;
pub mod launcher;

pub use crate::bind::{bind, bind_resume};
pub use crate::config::init_hook;
pub use crate::identity::{getpeername, getsockname, getsockopt};
pub use crate::tracker::close;
