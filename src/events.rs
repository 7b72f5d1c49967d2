use vstd::prelude::*;

verus! {

/// The payload that carries the current latency to the server.
pub struct LatencyEventPayload {
    pub latency: u32,
}

/// The payload that carries a message from the server.
pub struct MessageEventPayload {
    pub message: String,
}

/// A connection-lifecycle notification for the observer.
pub enum NotificationEventPayload {
    LostConnection,
    Connected {
        /// Whether this is the first connection since start-up; `false` marks
        /// a reconnect.
        first_connection: bool,
    },
    Broadcast { message: String },
}

} // verus!
