//! How the daemon answers each kind of protocol request.

use vstd::prelude::*;
use vstd::string::StringExecFns;

verus! {

/// The kind of a protocol request, with what the answer depends on.
#[derive(Debug, Clone)]
pub enum RequestKind {
    Ping,
    Shutdown { reason: Option<String> },
    Auth,
    Monitor,
    Index,
    /// A request for one of the service clients.
    Service,
}

/// The answer to a request, before it is framed with the request's id.
#[derive(Debug, Clone)]
pub enum SessionReply {
    Pong,
    ShutdownAck,
    /// An internal error with its message.
    Internal(String),
}

/// The answer the daemon gives to each kind of request.
pub open spec fn reply_to(request: RequestKind) -> Option<Seq<char>> {
    match request {
        RequestKind::Ping | RequestKind::Shutdown { .. } => None,
        RequestKind::Auth => Some("auth handling not yet implemented"@),
        RequestKind::Monitor => Some("monitor handling not yet implemented"@),
        RequestKind::Index => Some("index handling not yet implemented"@),
        RequestKind::Service => Some("service dispatch not yet implemented"@),
    }
}

/// Request handler of the daemon's sessions.
#[derive(Debug, Clone, Copy)]
pub struct SessionHandler;

impl SessionHandler {
    /// Answers a request: a ping with a pong, a shutdown with its
    /// acknowledgement, every other kind with an internal error saying that
    /// it is not handled yet.
    pub fn handle(&self, request: &RequestKind) -> (r: SessionReply)
        ensures
            request is Ping ==> r is Pong,
            request is Shutdown ==> r is ShutdownAck,
            reply_to(*request) matches Some(m) ==> r matches SessionReply::Internal(msg) && msg@ == m,
    {
        match request {
            RequestKind::Ping => SessionReply::Pong,
            RequestKind::Shutdown { .. } => SessionReply::ShutdownAck,
            RequestKind::Auth => SessionReply::Internal(String::from_str("auth handling not yet implemented")),
            RequestKind::Monitor => SessionReply::Internal(
                String::from_str("monitor handling not yet implemented"),
            ),
            RequestKind::Index => SessionReply::Internal(String::from_str("index handling not yet implemented")),
            RequestKind::Service => SessionReply::Internal(
                String::from_str("service dispatch not yet implemented"),
            ),
        }
    }
}

} // verus!
