//! The closed event type the core emits to the surrounding application.
//!
//! The application owns the sink (a UI bridge, a log, anything); the core
//! only names the channel and carries a string payload. Message payloads are
//! transient and consumed once.
use vstd::prelude::*;

verus! {

/// One event emitted to the application's sink, tagged per protocol.
#[derive(Debug, PartialEq, Eq)]
pub enum Event {
    /// The line transport connected.
    LineConnected,
    /// One decoded line (delimiter re-appended) from the line transport.
    LineMessage(Vec<u8>),
    /// The line transport disconnected, or a connect attempt failed.
    LineDisconnected,
    /// One text frame from the WebSocket transport, verbatim.
    WsMessage(String),
    /// The WebSocket transport disconnected, or a connect or handshake
    /// attempt failed.
    WsDisconnected,
}

impl Event {
    /// The channel name the surrounding UI layer subscribes to.
    pub fn channel(&self) -> (name: &'static str)
        ensures
            name@ == match self {
                Event::LineConnected => "a-connected"@,
                Event::LineMessage(_) => "a-message"@,
                Event::LineDisconnected => "a-disconnected"@,
                Event::WsMessage(_) => "b-message"@,
                Event::WsDisconnected => "b-disconnected"@,
            },
    {
        match self {
            Event::LineConnected => "a-connected",
            Event::LineMessage(_) => "a-message",
            Event::LineDisconnected => "a-disconnected",
            Event::WsMessage(_) => "b-message",
            Event::WsDisconnected => "b-disconnected",
        }
    }
}

} // verus!
