//! mussh - run one command against a named group of hosts over SSH.
//!
//! The verified core: a catalog of host groups, hosts and commands; a
//! resolver that turns a (group, command) request into an ordered list of
//! work items; per-host outcome construction; a dry-run dispatcher; and a
//! run report that aggregates outcomes into a single status.

pub mod config;
pub mod dispatch;
pub mod report;
pub mod resolve;
pub mod session;

pub use config::{Alias, Command, Host, Hosts, MusshToml};
pub use dispatch::{dry_run, run_dry};
pub use report::{exit_code, summarize, AggregateStatus, FailReason, FailureDetail, RunReport};
pub use resolve::{resolve, ResolveError, ResolvedWorkItem};
pub use session::{
    auth_method, execute_dry, outcome_of_event, AuthMethod, HostOutcome, HostStatus, SessionEvent,
};
