//! Per-host session outcomes.  A session handles exactly one host for
//! exactly one command; every terminal state of it becomes exactly one
//! [`HostOutcome`].  The network work itself (TCP, SSH transport,
//! authentication, channel I/O) lives outside the engine; the engine turns
//! each session's terminal event into its outcome, and synthesizes the
//! outcome of a dry run without any network involvement.

use vstd::prelude::*;
use crate::config::Host;
use crate::resolve::ResolvedWorkItem;

verus! {

/// How a session authenticates.
#[derive(Debug)]
pub enum AuthMethod {
    /// Authenticate with the private key at this path.
    PrivateKey(String),
    /// Authenticate through an agent-held credential.
    Agent,
}

/// The authentication method a session uses for `host`, in order of
/// preference: the configured private-key credential when one is present,
/// else the agent.
pub fn auth_method(host: &Host) -> (r: AuthMethod)
    ensures
        match host.pem {
            Some(p) => r matches AuthMethod::PrivateKey(k) && k@ == p@,
            None => r is Agent,
        },
{
    match &host.pem {
        Some(p) => AuthMethod::PrivateKey(p.clone()),
        None => AuthMethod::Agent,
    }
}

/// The terminal status of one host's session.
#[derive(Clone, Copy, PartialEq, Eq, Structural, Debug)]
pub enum HostStatus {
    /// The remote command ran and exited with status zero.
    Success,
    /// The remote command ran and exited with the recorded nonzero status.
    Failure(i32),
    /// The connection, SSH negotiation or authentication failed; nothing
    /// ran on the host.
    ConnectionError,
    /// The remote command did not finish within the configured duration.
    Timeout,
    /// Dry run: nothing was attempted; the recorded output holds the
    /// command that would have run.
    Skipped,
}

/// Spec-level image of a [`HostOutcome`].
#[verifier::ext_equal]
pub struct OutcomeView {
    pub host: Seq<char>,
    pub status: HostStatus,
    pub stdout: Seq<char>,
    pub stderr: Seq<char>,
    pub elapsed_ms: u64,
}

/// The terminal result of running one work item: host identity, status,
/// captured output text, and elapsed time.
#[derive(Debug)]
pub struct HostOutcome {
    pub host: String,
    pub status: HostStatus,
    pub stdout: String,
    pub stderr: String,
    pub elapsed_ms: u64,
}

impl View for HostOutcome {
    type V = OutcomeView;

    open spec fn view(&self) -> OutcomeView {
        OutcomeView {
            host: self.host@,
            status: self.status,
            stdout: self.stdout@,
            stderr: self.stderr@,
            elapsed_ms: self.elapsed_ms,
        }
    }
}

/// The terminal event of one host's session, as the connection layer
/// reports it: either the remote command finished with an exit status and
/// captured output, or the attempt failed on the way there.
#[derive(Debug)]
pub enum SessionEvent {
    /// The command ran to completion with this exit status and output.
    Completed { exit: i32, stdout: String, stderr: String },
    /// The TCP connection or the SSH negotiation failed.
    ConnectFailed { detail: String },
    /// The transport came up but authentication was refused.
    AuthFailed { detail: String },
    /// The command did not finish in time; partial output is preserved.
    TimedOut { stdout: String, stderr: String },
}

/// The outcome a session records for its host once its terminal event is
/// known.  An exit status of zero is success, any other a failure with
/// that status; a connection or authentication failure is a connection
/// error and never propagates further; a timeout keeps the output captured
/// so far.
pub fn outcome_of_event(name: &String, event: SessionEvent, elapsed_ms: u64) -> (r: HostOutcome)
    ensures
        r.host@ == name@,
        r.elapsed_ms == elapsed_ms,
        match event {
            SessionEvent::Completed { exit, stdout, stderr } => r.status == (if exit == 0 {
                HostStatus::Success
            } else {
                HostStatus::Failure(exit)
            }) && r.stdout@ == stdout@ && r.stderr@ == stderr@,
            SessionEvent::ConnectFailed { detail } => r.status == HostStatus::ConnectionError
                && r.stdout@.len() == 0 && r.stderr@ == detail@,
            SessionEvent::AuthFailed { detail } => r.status == HostStatus::ConnectionError
                && r.stdout@.len() == 0 && r.stderr@ == detail@,
            SessionEvent::TimedOut { stdout, stderr } => r.status == HostStatus::Timeout
                && r.stdout@ == stdout@ && r.stderr@ == stderr@,
        },
{
    match event {
        SessionEvent::Completed { exit, stdout, stderr } => HostOutcome {
            host: name.clone(),
            status: if exit == 0 {
                HostStatus::Success
            } else {
                HostStatus::Failure(exit)
            },
            stdout,
            stderr,
            elapsed_ms,
        },
        SessionEvent::ConnectFailed { detail } => HostOutcome {
            host: name.clone(),
            status: HostStatus::ConnectionError,
            stdout: String::new(),
            stderr: detail,
            elapsed_ms,
        },
        SessionEvent::AuthFailed { detail } => HostOutcome {
            host: name.clone(),
            status: HostStatus::ConnectionError,
            stdout: String::new(),
            stderr: detail,
            elapsed_ms,
        },
        SessionEvent::TimedOut { stdout, stderr } => HostOutcome {
            host: name.clone(),
            status: HostStatus::Timeout,
            stdout,
            stderr,
            elapsed_ms,
        },
    }
}

/// The outcome of one work item under dry run: no network is touched; the
/// recorded output is exactly the command that would have run, and the
/// status is `Skipped`.
pub fn execute_dry(item: &ResolvedWorkItem) -> (r: HostOutcome)
    ensures
        r.host@ == item.name@,
        r.status == HostStatus::Skipped,
        r.stdout@ == item.command@,
        r.stderr@.len() == 0,
        r.elapsed_ms == 0,
{
    HostOutcome {
        host: item.name.clone(),
        status: HostStatus::Skipped,
        stdout: item.command.clone(),
        stderr: String::new(),
        elapsed_ms: 0,
    }
}

} // verus!
