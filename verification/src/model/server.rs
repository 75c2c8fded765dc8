//! A monitored endpoint.

use vstd::prelude::*;

verus! {

#[derive(Debug)]
pub struct Server {
    pub id: i64,
    pub user_id: i64,
    pub name: String,
    pub url: String,
    /// Request timeout, in whole seconds.
    pub timeout: i64,
    /// Pause between probes, in whole seconds.
    pub interval: i64,
    pub last_seen_status_code: Option<i64>,
    pub last_seen_reason: Option<String>,
    pub is_turned_on: bool,
    pub created_at: String,
    pub updated_at: String,
}

impl Clone for Server {
    fn clone(&self) -> (copy: Self)
        ensures
            copy == *self,
    {
        Server {
            id: self.id,
            user_id: self.user_id,
            name: self.name.clone(),
            url: self.url.clone(),
            timeout: self.timeout,
            interval: self.interval,
            last_seen_status_code: self.last_seen_status_code,
            last_seen_reason: match &self.last_seen_reason {
                Some(r) => Some(r.clone()),
                None => None,
            },
            is_turned_on: self.is_turned_on,
            created_at: self.created_at.clone(),
            updated_at: self.updated_at.clone(),
        }
    }
}

impl Server {
    /// The server after a change: name and address are taken from the
    /// request, timeout, interval and the switch only where the request names
    /// them; what was last seen of the server stays.
    pub fn modified(self, change: ServerCreate, updated_at: String) -> (server: Server)
        ensures
            server.id == self.id,
            server.user_id == self.user_id,
            server.name == change.name,
            server.url == change.url,
            server.timeout == match change.timeout {
                Some(t) => t,
                None => self.timeout,
            },
            server.interval == match change.interval {
                Some(i) => i,
                None => self.interval,
            },
            server.last_seen_status_code == self.last_seen_status_code,
            server.last_seen_reason == self.last_seen_reason,
            server.is_turned_on == match change.is_turned_on {
                Some(on) => on,
                None => self.is_turned_on,
            },
            server.created_at == self.created_at,
            server.updated_at == updated_at,
    {
        Server {
            id: self.id,
            user_id: self.user_id,
            name: change.name,
            url: change.url,
            timeout: match change.timeout {
                Some(t) => t,
                None => self.timeout,
            },
            interval: match change.interval {
                Some(i) => i,
                None => self.interval,
            },
            last_seen_status_code: self.last_seen_status_code,
            last_seen_reason: self.last_seen_reason,
            is_turned_on: match change.is_turned_on {
                Some(on) => on,
                None => self.is_turned_on,
            },
            created_at: self.created_at,
            updated_at,
        }
    }

    /// The pause between two probes, in seconds: the server's interval, and
    /// one second where that is less.
    pub fn probe_interval(&self) -> (seconds: u64)
        ensures
            seconds == if self.interval >= 1 {
                self.interval
            } else {
                1
            },
    {
        if self.interval >= 1 {
            self.interval as u64
        } else {
            1
        }
    }

    /// The time a probe may take, in seconds: the server's timeout, and one
    /// second where that is less.
    pub fn probe_timeout(&self) -> (seconds: u64)
        ensures
            seconds == if self.timeout >= 1 {
                self.timeout
            } else {
                1
            },
    {
        if self.timeout >= 1 {
            self.timeout as u64
        } else {
            1
        }
    }

    /// The status the cache starts from for this server: the persisted code,
    /// or `0` where none was ever seen.
    pub open spec fn seed_code(&self) -> i64 {
        match self.last_seen_status_code {
            Some(code) => code,
            None => 0,
        }
    }

    /// The reason the cache starts from: the persisted one, or the empty
    /// text.
    pub open spec fn seed_reason(&self) -> Seq<char> {
        match self.last_seen_reason {
            Some(reason) => reason@,
            None => Seq::empty(),
        }
    }
}

#[derive(Debug, Clone)]
pub struct ServerCreate {
    pub name: String,
    pub url: String,
    pub timeout: Option<i64>,
    pub interval: Option<i64>,
    pub is_turned_on: Option<bool>,
}

/// The request timeout of a server that names none, in seconds.
pub const DEFAULT_TIMEOUT: i64 = 10;

/// The probe interval of a server that names none, in seconds.
pub const DEFAULT_INTERVAL: i64 = 60;

impl ServerCreate {
    /// The timeout the server is stored with: the one asked for, else ten
    /// seconds.
    pub open spec fn stored_timeout(&self) -> i64 {
        match self.timeout {
            Some(t) => t,
            None => DEFAULT_TIMEOUT,
        }
    }

    /// The interval the server is stored with: the one asked for, else a
    /// minute.
    pub open spec fn stored_interval(&self) -> i64 {
        match self.interval {
            Some(i) => i,
            None => DEFAULT_INTERVAL,
        }
    }

    /// Whether the server is stored as turned on: as asked for, else off.
    pub open spec fn stored_turned_on(&self) -> bool {
        match self.is_turned_on {
            Some(on) => on,
            None => false,
        }
    }

    /// A server can be probed only with a timeout and an interval of at
    /// least one second.
    pub open spec fn acceptable(&self) -> bool {
        self.stored_timeout() >= 1 && self.stored_interval() >= 1
    }

    /// Whether the request may be stored: its timeout and its interval, as
    /// they would be stored, are at least one second.
    pub fn is_acceptable(&self) -> (ok: bool)
        ensures
            ok == self.acceptable(),
    {
        let timeout = match self.timeout {
            Some(t) => t,
            None => DEFAULT_TIMEOUT,
        };
        let interval = match self.interval {
            Some(i) => i,
            None => DEFAULT_INTERVAL,
        };
        timeout >= 1 && interval >= 1
    }

    /// The server as it is stored for `user_id`, once the store has given it
    /// an id and its timestamps. Nothing was seen of it yet.
    pub fn into_server(
        self,
        user_id: i64,
        id: i64,
        created_at: String,
        updated_at: String,
    ) -> (server: Server)
        ensures
            server.id == id,
            server.user_id == user_id,
            server.name == self.name,
            server.url == self.url,
            server.timeout == self.stored_timeout(),
            server.interval == self.stored_interval(),
            server.last_seen_status_code == None::<i64>,
            server.last_seen_reason == None::<String>,
            server.is_turned_on == self.stored_turned_on(),
            server.created_at == created_at,
            server.updated_at == updated_at,
    {
        Server {
            id,
            user_id,
            timeout: match self.timeout {
                Some(t) => t,
                None => DEFAULT_TIMEOUT,
            },
            interval: match self.interval {
                Some(i) => i,
                None => DEFAULT_INTERVAL,
            },
            is_turned_on: match self.is_turned_on {
                Some(on) => on,
                None => false,
            },
            name: self.name,
            url: self.url,
            last_seen_status_code: None,
            last_seen_reason: None,
            created_at,
            updated_at,
        }
    }

    pub fn new(
        name: &str,
        url: &str,
        timeout: Option<i64>,
        interval: Option<i64>,
        is_turned_on: Option<bool>,
    ) -> (sc: Self)
        ensures
            sc.name@ == name@,
            sc.url@ == url@,
            sc.timeout == timeout,
            sc.interval == interval,
            sc.is_turned_on == is_turned_on,
    {
        ServerCreate { name: name.to_owned(), url: url.to_owned(), timeout, interval, is_turned_on }
    }
}

} // verus!
