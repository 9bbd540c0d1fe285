use vstd::prelude::*;

verus! {

/// The failures this library reports.
#[derive(Debug)]
pub enum RithmicApiError {
    /// The server side rejected a step, or a handshake or teardown failed.
    ServerErrorDebug(String),
    /// The caller misused the API: sent before connecting, named a plant that
    /// does not exist, or subscribed to a plant that never connected.
    ClientErrorDebug(String),
    /// The transport failed to connect, send or receive.
    WebSocket(String),
    /// A length-prefixed envelope was malformed or cut short.
    Io(String),
    /// A payload did not parse as the requested message type.
    ProtobufDecode(String),
    /// The server directory lacks an entry or holds one of the wrong shape.
    InvalidConfig(String),
    /// The server directory names a location that does not exist.
    InvalidServerName(String),
}

impl RithmicApiError {
    /// The human-readable text carried by the error.
    pub open spec fn text(self) -> Seq<char> {
        match self {
            RithmicApiError::ServerErrorDebug(m) => m@,
            RithmicApiError::ClientErrorDebug(m) => m@,
            RithmicApiError::WebSocket(m) => m@,
            RithmicApiError::Io(m) => m@,
            RithmicApiError::ProtobufDecode(m) => m@,
            RithmicApiError::InvalidConfig(m) => m@,
            RithmicApiError::InvalidServerName(m) => m@,
        }
    }

    /// Returns the text carried by the error.
    pub fn message(&self) -> (m: String)
        ensures
            m@ == self.text(),
    {
        match self {
            RithmicApiError::ServerErrorDebug(m) => m.clone(),
            RithmicApiError::ClientErrorDebug(m) => m.clone(),
            RithmicApiError::WebSocket(m) => m.clone(),
            RithmicApiError::Io(m) => m.clone(),
            RithmicApiError::ProtobufDecode(m) => m.clone(),
            RithmicApiError::InvalidConfig(m) => m.clone(),
            RithmicApiError::InvalidServerName(m) => m.clone(),
        }
    }

    /// True for the errors that blame the caller.
    pub fn is_client_error(&self) -> (b: bool)
        ensures
            b == (self is ClientErrorDebug),
    {
        match self {
            RithmicApiError::ClientErrorDebug(_) => true,
            _ => false,
        }
    }
}

} // verus!
