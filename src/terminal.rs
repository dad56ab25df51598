//! What a terminal session shows to its consumer: the outward events, the
//! session's errors and the snapshot of a session.
use vstd::prelude::*;
use vstd::string::*;
use crate::ssh::with_detail;

verus! {

/// An event on a session's outward stream.
#[derive(Debug, Clone)]
pub enum TerminalEvent {
    Data(String),
    Connected,
    Disconnected,
    Error(String),
    Latency(u32),
}

/// The abstract value of an outward event.
pub enum EventView {
    Data(Seq<char>),
    Connected,
    Disconnected,
    Error(Seq<char>),
    Latency(u32),
}

impl EventView {
    /// Whether the event ends a stream.
    pub open spec fn is_terminal(self) -> bool {
        self is Disconnected || self is Error
    }
}

impl View for TerminalEvent {
    type V = EventView;

    open spec fn view(&self) -> EventView {
        match self {
            TerminalEvent::Data(s) => EventView::Data(s@),
            TerminalEvent::Connected => EventView::Connected,
            TerminalEvent::Disconnected => EventView::Disconnected,
            TerminalEvent::Error(s) => EventView::Error(s@),
            TerminalEvent::Latency(ms) => EventView::Latency(*ms),
        }
    }
}

/// Errors of terminal sessions and of the registry.
#[derive(Debug)]
pub enum TerminalError {
    /// No session with this id is in the registry: there is none, or an
    /// operation on it is in progress.
    SessionNotFound(String),
    NotConnected,
    ConnectionFailed(String),
    /// Setting up the connection took longer than its timeout.
    Timeout,
    /// The server refused the credentials, or its host key was rejected.
    AuthenticationFailed,
    Ssh(String),
}

impl TerminalError {
    /// The human-readable text of each error.
    pub open spec fn text(&self) -> Seq<char> {
        match self {
            TerminalError::SessionNotFound(m) => with_detail("Session not found: "@, m@),
            TerminalError::NotConnected => "Not connected"@,
            TerminalError::ConnectionFailed(m) => with_detail("Connection failed: "@, m@),
            TerminalError::Timeout => "Timeout"@,
            TerminalError::AuthenticationFailed => "Authentication failed"@,
            TerminalError::Ssh(m) => with_detail("SSH error: "@, m@),
        }
    }

    /// Renders the error as text.
    pub fn message(&self) -> (r: String)
        ensures
            r@ == self.text(),
    {
        match self {
            TerminalError::SessionNotFound(m) => crate::ssh::prefixed("Session not found: ", m),
            TerminalError::NotConnected => String::from_str("Not connected"),
            TerminalError::ConnectionFailed(m) => crate::ssh::prefixed("Connection failed: ", m),
            TerminalError::Timeout => String::from_str("Timeout"),
            TerminalError::AuthenticationFailed => String::from_str("Authentication failed"),
            TerminalError::Ssh(m) => crate::ssh::prefixed("SSH error: ", m),
        }
    }
}

/// A snapshot of a session, as shown to the consumer.
#[derive(Debug, Clone)]
pub struct TerminalInfo {
    pub id: u128,
    pub host_id: u128,
    pub host_name: String,
    pub connected: bool,
    pub cols: u32,
    pub rows: u32,
}

} // verus!
