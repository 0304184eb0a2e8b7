//! Core data model: tab identifiers, tab snapshots, page requests and
//! responses, transport outcomes, and the error taxonomy of the navigation
//! core.

use vstd::prelude::*;
use vstd::string::StringExecFns;

verus! {

/// Identifier for a logical browser tab.
///
/// Identifiers are handed out by [`TabId::next`] from a monotonically
/// increasing counter, so they are unique for the lifetime of the process and
/// never reused.
#[derive(Debug, Clone, Copy, PartialEq, Eq, Hash, Structural)]
pub struct TabId(pub u64);

impl TabId {
    /// Allocates the next identifier from `counter` and advances the counter.
    pub fn next(counter: &mut u64) -> (id: Self)
        requires
            *old(counter) < u64::MAX,
        ensures
            id == TabId(*old(counter)),
            *final(counter) == *old(counter) + 1,
    {
        let id = *counter;
        *counter += 1;
        TabId(id)
    }
}

/// A navigation request initiated by the caller: which tab to load into and
/// the URL to fetch, in its normalized string form.
#[derive(Debug)]
pub struct PageRequest {
    pub tab: TabId,
    pub url: String,
}

impl Clone for PageRequest {
    fn clone(&self) -> (res: Self)
        ensures
            res == *self,
    {
        PageRequest { tab: self.tab, url: self.url.clone() }
    }
}

/// Minimal representation of a fetched document.
///
/// `title` is always `None` at construction: a derived title is committed to
/// the owning tab record, not echoed back in the response; callers that need
/// it re-read the tab snapshot. `received_at` is a timestamp in milliseconds.
#[derive(Debug)]
pub struct PageResponse {
    pub url: String,
    pub status: u16,
    pub mime_type: Option<String>,
    pub title: Option<String>,
    pub body: String,
    pub received_at: i64,
}

impl Clone for PageResponse {
    fn clone(&self) -> (res: Self)
        ensures
            res == *self,
    {
        PageResponse {
            url: self.url.clone(),
            status: self.status,
            mime_type: clone_opt_string(&self.mime_type),
            title: clone_opt_string(&self.title),
            body: self.body.clone(),
            received_at: self.received_at,
        }
    }
}

/// Snapshot of one tab's state, safe to hand across threads by value.
#[derive(Debug)]
pub struct TabSnapshot {
    pub id: TabId,
    pub title: String,
    pub url: Option<String>,
    pub last_loaded: Option<i64>,
}

impl TabSnapshot {
    /// The invariant of one registry entry: a tab's `url` and `last_loaded`
    /// are either both unset or both set, since they only ever transition
    /// together under one mutation.
    pub open spec fn consistent(self) -> bool {
        self.url is Some <==> self.last_loaded is Some
    }
}

impl Clone for TabSnapshot {
    fn clone(&self) -> (res: Self)
        ensures
            res == *self,
    {
        TabSnapshot {
            id: self.id,
            title: self.title.clone(),
            url: clone_opt_string(&self.url),
            last_loaded: self.last_loaded,
        }
    }
}

/// Clones an optional string, preserving its value exactly.
fn clone_opt_string(s: &Option<String>) -> (res: Option<String>)
    ensures
        res == *s,
{
    match s {
        Some(inner) => Some(inner.clone()),
        None => None,
    }
}

/// What the HTTP transport handed back for one request: either the delivered
/// response parts, or a transport-layer failure with its message.
pub enum TransportOutcome {
    Delivered { status: u16, mime_type: Option<String>, body: Vec<u8> },
    TransportFailed { message: String },
}

/// Errors surfaced by the browser core when satisfying navigation requests.
#[derive(Debug)]
pub enum BrowserError {
    /// A transport-layer failure (DNS, connect, TLS, redirect limit,
    /// timeout), carrying the underlying cause's message.
    Network(String),
    /// The response body was not valid UTF-8.
    InvalidBody,
    /// The navigation was cancelled before completion: the runtime shut down
    /// or dropped the reply channel before a result arrived.
    Cancelled,
}

impl BrowserError {
    /// Human-readable description of the error.
    pub fn message(&self) -> (r: String)
        ensures
            match self {
                BrowserError::Network(cause) => r@ == "network request failed: "@ + cause@,
                BrowserError::InvalidBody => r@ == "invalid UTF-8 body"@,
                BrowserError::Cancelled => r@ == "navigation was cancelled before completion"@,
            },
    {
        match self {
            BrowserError::Network(cause) => {
                String::from_str("network request failed: ").concat(cause.as_str())
            },
            BrowserError::InvalidBody => String::from_str("invalid UTF-8 body"),
            BrowserError::Cancelled => {
                String::from_str("navigation was cancelled before completion")
            },
        }
    }
}

/// Error returned synchronously when a command cannot be enqueued because the
/// runtime has already stopped.
#[derive(Debug, Clone, Copy, PartialEq, Eq, Structural)]
pub enum SubmissionError {
    RuntimeStopped,
}

impl SubmissionError {
    /// Human-readable description of the error.
    pub fn message(&self) -> (r: String)
        ensures
            r@ == "browser runtime is no longer running"@,
    {
        String::from_str("browser runtime is no longer running")
    }
}

} // verus!
