//! Health of the link to a monitored node, and its time-based downgrade.

use vstd::prelude::*;
use vstd::string::StringExecFns;

verus! {

/// Health of the link to a monitored node.
#[derive(Debug, Clone, PartialEq, Eq)]
pub enum ConnectionStatus {
    Connected,
    Stale,
    Disconnected,
    Error(String),
}

/// The text that a display shows for a status; an error's message verbatim.
pub open spec fn status_text(status: ConnectionStatus) -> Seq<char> {
    match status {
        ConnectionStatus::Connected => "Connected"@,
        ConnectionStatus::Stale => "Stale"@,
        ConnectionStatus::Disconnected => "Disconnected"@,
        ConnectionStatus::Error(m) => "Error: "@ + m@,
    }
}

impl ConnectionStatus {
    /// The status as display text.
    pub fn label(&self) -> (r: String)
        ensures
            r@ == status_text(*self),
    {
        match self {
            ConnectionStatus::Connected => String::from_str("Connected"),
            ConnectionStatus::Stale => String::from_str("Stale"),
            ConnectionStatus::Disconnected => String::from_str("Disconnected"),
            ConnectionStatus::Error(m) => String::from_str("Error: ").concat(m.as_str()),
        }
    }

    pub fn is_connected(&self) -> (r: bool)
        ensures
            r == (*self is Connected),
    {
        matches!(self, ConnectionStatus::Connected)
    }
}

/// Whether a success at `last_ok` is older than `stale_after` at time `now`
/// (all on one clock; a reading before `last_ok` is never stale).
pub open spec fn is_overdue(last_ok: u64, now: u64, stale_after: u64) -> bool {
    now - last_ok > stale_after
}

/// The status that one staleness check leaves behind.
///
/// Only `Connected` and `Stale` are looked at; a link whose last success is
/// overdue becomes (or stays) `Stale`. Everything else is kept.
pub open spec fn status_after_check(
    status: ConnectionStatus,
    last_successful: Option<u64>,
    now: u64,
    stale_after: u64,
) -> ConnectionStatus {
    match status {
        ConnectionStatus::Connected | ConnectionStatus::Stale => match last_successful {
            Some(t) => if is_overdue(t, now, stale_after) {
                ConnectionStatus::Stale
            } else {
                status
            },
            None => status,
        },
        _ => status,
    }
}

/// Decides whether the staleness check moves the status to `Stale`.
pub fn becomes_stale(
    status: &ConnectionStatus,
    last_successful: Option<u64>,
    now: u64,
    stale_after: u64,
) -> (r: bool)
    ensures
        r ==> status_after_check(*status, last_successful, now, stale_after) is Stale,
        !r ==> status_after_check(*status, last_successful, now, stale_after) == *status,
{
    match status {
        ConnectionStatus::Connected | ConnectionStatus::Stale => match last_successful {
            Some(t) => now > t && now - t > stale_after,
            None => false,
        },
        _ => false,
    }
}

/// A `Stale` link is never brought back to `Connected` by the staleness
/// check: it stays `Stale` whatever the clock says.
pub proof fn lemma_stale_stays_stale(last_successful: Option<u64>, now: u64, stale_after: u64)
    ensures
        status_after_check(ConnectionStatus::Stale, last_successful, now, stale_after)
            == ConnectionStatus::Stale,
{
}

/// The staleness check only ever produces `Stale` or the status it was given,
/// so it never restores `Connected`.
pub proof fn lemma_check_never_connects(
    status: ConnectionStatus,
    last_successful: Option<u64>,
    now: u64,
    stale_after: u64,
)
    requires
        !(status is Connected),
    ensures
        !(status_after_check(status, last_successful, now, stale_after) is Connected),
{
}

} // verus!
