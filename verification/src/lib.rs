//! Transparent-proxy traffic interception for Linux.
//!
//! The crate compiles a configuration into the ordered list of firewall
//! operations and shell commands that installs (or removes) a TPROXY
//! intercept topology in the `mangle` table, and sequences their application
//! through a small state machine that stops at the first failure.
//!
//! Nothing in this crate touches the kernel: a driver performs each pending
//! step against the firewall and the shell and reports what happened.

pub mod chain;
pub mod config;
pub mod decimal;
pub mod hijack;
pub mod plan;
pub mod rules;
pub mod run;
pub mod shape;
pub mod step;
pub mod system;
pub mod tally;
pub mod topology;

pub use crate::chain::{Chain, Table};
pub use crate::config::Config;
pub use crate::hijack::{Builder, Hijacker};
pub use crate::run::{Event, Failure, Run, Status};
pub use crate::step::{Action, ActionKind, Stage, Step};
