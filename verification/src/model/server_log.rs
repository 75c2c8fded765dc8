//! What one observation of a server left behind.

use vstd::prelude::*;
use crate::model::server::Server;

verus! {

/// A stored observation together with the server it is about: what a
/// notification template is rendered against.
#[derive(Debug, Clone)]
pub struct ServerLogLine {
    pub server: Server,
    pub log: ServerLog,
}

impl ServerLogLine {
    pub fn new(server: Server, log: ServerLog) -> (line: Self)
        ensures
            line.server == server,
            line.log == log,
    {
        ServerLogLine { server, log }
    }
}

#[derive(Debug, Clone)]
pub struct ServerLog {
    pub id: i64,
    pub server_id: i64,
    pub failed: bool,
    pub status_code: i64,
    pub body: Option<String>,
    pub reason: Option<String>,
    pub created_at: String,
}

#[derive(Debug, Clone)]
pub struct ServerLogCreate {
    pub server_id: i64,
    pub failed: bool,
    pub status_code: i64,
    pub body: Option<String>,
    pub reason: Option<String>,
}

/// A log row to be written, as mathematics.
pub struct ServerLogCreateView {
    pub server_id: i64,
    pub failed: bool,
    pub status_code: i64,
    pub body: Option<Seq<char>>,
    pub reason: Option<Seq<char>>,
}

impl View for ServerLogCreate {
    type V = ServerLogCreateView;

    open spec fn view(&self) -> ServerLogCreateView {
        ServerLogCreateView {
            server_id: self.server_id,
            failed: self.failed,
            status_code: self.status_code,
            body: match self.body {
                Some(b) => Some(b@),
                None => None,
            },
            reason: match self.reason {
                Some(r) => Some(r@),
                None => None,
            },
        }
    }
}

impl ServerLogCreate {
    /// The row as it is stored, once the store has given it an id and a
    /// timestamp.
    pub fn into_log(self, id: i64, created_at: String) -> (log: ServerLog)
        ensures
            log.id == id,
            log.server_id == self.server_id,
            log.failed == self.failed,
            log.status_code == self.status_code,
            log.body == self.body,
            log.reason == self.reason,
            log.created_at == created_at,
    {
        ServerLog {
            id,
            server_id: self.server_id,
            failed: self.failed,
            status_code: self.status_code,
            body: self.body,
            reason: self.reason,
            created_at,
        }
    }

    pub fn new(
        server_id: i64,
        failed: bool,
        status_code: i64,
        body: Option<String>,
        reason: Option<String>,
    ) -> (slc: Self)
        ensures
            slc.server_id == server_id,
            slc.failed == failed,
            slc.status_code == status_code,
            slc.body == body,
            slc.reason == reason,
    {
        ServerLogCreate { server_id, failed, status_code, body, reason }
    }
}

} // verus!
