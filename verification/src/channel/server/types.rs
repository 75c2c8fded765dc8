//! The messages that travel between probers, the control plane and the
//! monitor.

use vstd::prelude::*;
use crate::channel::error::Error;
use crate::model::server::Server;

verus! {

/// What a probe that got an answer saw.
#[derive(Debug)]
pub enum ServerStatus {
    Unreachable { reason: String, body: Vec<u8>, status_code: u16 },
    Online { status_code: u16, body: Vec<u8> },
}

impl ServerStatus {
    pub fn unreachable(reason: &str, body: Vec<u8>, status_code: u16) -> (status: Self)
        ensures
            status matches ServerStatus::Unreachable { reason: r, body: b, status_code: c } && r@
                == reason@ && b == body && c == status_code,
    {
        ServerStatus::Unreachable { reason: reason.to_owned(), body, status_code }
    }
}

/// One observation, with a snapshot of the server it is about.
#[derive(Debug)]
pub enum ServerMessage {
    ServerStateChanged { status: ServerStatus, server: Server },
    ChannelError { error: Error, server: Server },
}

/// An observation as mathematics: texts and bytes in place of strings and
/// vectors.
pub enum ServerMessageView {
    Online { status_code: u16, body: Seq<u8>, server: Server },
    Unreachable { reason: Seq<char>, status_code: u16, body: Seq<u8>, server: Server },
    ChannelError { error: Error, server: Server },
}

impl View for ServerMessage {
    type V = ServerMessageView;

    open spec fn view(&self) -> ServerMessageView {
        match self {
            ServerMessage::ServerStateChanged {
                status: ServerStatus::Unreachable { reason, body, status_code },
                server,
            } => ServerMessageView::Unreachable {
                reason: reason@,
                status_code: *status_code,
                body: body@,
                server: *server,
            },
            ServerMessage::ServerStateChanged {
                status: ServerStatus::Online { status_code, body },
                server,
            } => ServerMessageView::Online {
                status_code: *status_code,
                body: body@,
                server: *server,
            },
            ServerMessage::ChannelError { error, server } => ServerMessageView::ChannelError {
                error: *error,
                server: *server,
            },
        }
    }
}

/// A command of the control plane.
#[derive(Debug)]
pub enum ControlMessage {
    AddServer(Server),
    RemoveServer(i64),
    ModifyServer(Server),
    Shutdown,
}

impl ServerMessage {
    pub fn unreachable(status: ServerStatus, server: Server) -> (msg: Self)
        ensures
            msg == (ServerMessage::ServerStateChanged { status, server }),
    {
        ServerMessage::ServerStateChanged { status, server }
    }

    pub fn error(error: Error, server: Server) -> (msg: Self)
        ensures
            msg == (ServerMessage::ChannelError { error, server }),
    {
        ServerMessage::ChannelError { error, server }
    }

    /// The server the observation is about.
    pub open spec fn server(&self) -> Server {
        match self {
            ServerMessage::ServerStateChanged { server, .. } => *server,
            ServerMessage::ChannelError { server, .. } => *server,
        }
    }

    /// The status code the observation counts as: the answer's own code, or
    /// `500` where no answer came.
    pub open spec fn code(&self) -> i64 {
        match self {
            ServerMessage::ServerStateChanged {
                status: ServerStatus::Unreachable { status_code, .. },
                ..
            } => *status_code as i64,
            ServerMessage::ServerStateChanged {
                status: ServerStatus::Online { status_code, .. },
                ..
            } => *status_code as i64,
            ServerMessage::ChannelError { .. } => 500,
        }
    }

    /// The reason the observation gives: none for a server that is online,
    /// the prober's reason for one that is unreachable, a fixed text where
    /// the probe itself failed.
    pub open spec fn reason(&self) -> Option<Seq<char>> {
        match self {
            ServerMessage::ServerStateChanged {
                status: ServerStatus::Unreachable { reason, .. },
                ..
            } => Some(reason@),
            ServerMessage::ServerStateChanged { status: ServerStatus::Online { .. }, .. } => None,
            ServerMessage::ChannelError { .. } => Some(FETCH_ERROR_REASON@),
        }
    }

    /// The bytes of the answer's body; empty where no answer came.
    pub open spec fn body(&self) -> Seq<u8> {
        match self {
            ServerMessage::ServerStateChanged {
                status: ServerStatus::Unreachable { body, .. },
                ..
            } => body@,
            ServerMessage::ServerStateChanged {
                status: ServerStatus::Online { body, .. },
                ..
            } => body@,
            ServerMessage::ChannelError { .. } => Seq::empty(),
        }
    }
}

/// The reason recorded when a probe failed before any answer came.
pub const FETCH_ERROR_REASON: &'static str = "Error occurred during fetching";

} // verus!
