//! The service's settings and what they default to.

use vstd::prelude::*;

verus! {

/// Where the HTTP interface listens.
#[derive(Debug)]
pub struct Network {
    host: String,
    port: u16,
}

/// Where the database file lies.
#[derive(Debug)]
pub struct Database {
    path: String,
}

/// How session tokens are signed and how long they last, in seconds.
#[derive(Debug)]
pub struct JWTSettings {
    jwt_secret: String,
    expire_time: i64,
}

#[derive(Debug)]
pub struct Application {
    jwt: JWTSettings,
}

#[derive(Debug)]
pub struct Settings {
    net: Network,
    app: Application,
    database: Database,
}

pub fn default_host() -> (host: String)
    ensures
        host@ == "127.0.0.1"@,
{
    "127.0.0.1".to_owned()
}

pub fn default_port() -> (port: u16)
    ensures
        port == 5000,
{
    5000
}

pub fn default_expire_time() -> (seconds: i64)
    ensures
        seconds == 3600,
{
    3600
}

pub fn default_database_path() -> (path: String)
    ensures
        path@ == "./rusty-response-api/sqlite.db"@,
{
    "./rusty-response-api/sqlite.db".to_owned()
}

impl Network {
    pub closed spec fn host_text(&self) -> Seq<char> {
        self.host@
    }

    pub closed spec fn port_number(&self) -> u16 {
        self.port
    }

    pub fn new(host: String, port: u16) -> (net: Self)
        ensures
            net.host_text() == host@,
            net.port_number() == port,
    {
        Network { host, port }
    }

    #[inline]
    pub fn host(&self) -> (host: &str)
        ensures
            host@ == self.host_text(),
    {
        self.host.as_str()
    }

    #[inline]
    pub fn port(&self) -> (port: u16)
        ensures
            port == self.port_number(),
    {
        self.port
    }
}

impl Default for Network {
    fn default() -> (net: Self)
        ensures
            net.host_text() == "127.0.0.1"@,
            net.port_number() == 5000,
    {
        Network { host: default_host(), port: default_port() }
    }
}

impl Database {
    pub closed spec fn path_text(&self) -> Seq<char> {
        self.path@
    }

    pub fn new(path: String) -> (database: Self)
        ensures
            database.path_text() == path@,
    {
        Database { path }
    }

    #[inline]
    pub fn path(&self) -> (path: &str)
        ensures
            path@ == self.path_text(),
    {
        self.path.as_str()
    }
}

impl Default for Database {
    fn default() -> (database: Self)
        ensures
            database.path_text() == "./rusty-response-api/sqlite.db"@,
    {
        Database { path: default_database_path() }
    }
}

impl JWTSettings {
    pub closed spec fn secret_text(&self) -> Seq<char> {
        self.jwt_secret@
    }

    pub closed spec fn lifetime(&self) -> i64 {
        self.expire_time
    }

    pub fn new(jwt_secret: String, expire_time: i64) -> (jwt: Self)
        ensures
            jwt.secret_text() == jwt_secret@,
            jwt.lifetime() == expire_time,
    {
        JWTSettings { jwt_secret, expire_time }
    }

    #[inline]
    pub fn jwt_secret(&self) -> (secret: &str)
        ensures
            secret@ == self.secret_text(),
    {
        self.jwt_secret.as_str()
    }

    #[inline]
    pub fn expire_time(&self) -> (seconds: i64)
        ensures
            seconds == self.lifetime(),
    {
        self.expire_time
    }
}

impl Default for JWTSettings {
    /// An empty secret and a lifetime of one hour.
    fn default() -> (jwt: Self)
        ensures
            jwt.secret_text() == Seq::<char>::empty(),
            jwt.lifetime() == 3600,
    {
        JWTSettings { jwt_secret: String::new(), expire_time: default_expire_time() }
    }
}

impl Application {
    pub closed spec fn jwt_settings(&self) -> JWTSettings {
        self.jwt
    }

    pub fn new(jwt: JWTSettings) -> (app: Self)
        ensures
            app.jwt_settings() == jwt,
    {
        Application { jwt }
    }

    #[inline]
    pub fn jwt(&self) -> (jwt: &JWTSettings)
        ensures
            *jwt == self.jwt_settings(),
    {
        &self.jwt
    }
}

impl Default for Application {
    fn default() -> (app: Self)
        ensures
            app.jwt_settings().secret_text() == Seq::<char>::empty(),
            app.jwt_settings().lifetime() == 3600,
    {
        Application { jwt: JWTSettings::default() }
    }
}

impl Settings {
    pub closed spec fn network(&self) -> Network {
        self.net
    }

    pub closed spec fn application(&self) -> Application {
        self.app
    }

    pub closed spec fn storage(&self) -> Database {
        self.database
    }

    pub fn new(net: Network, app: Application, database: Database) -> (settings: Self)
        ensures
            settings.network() == net,
            settings.application() == app,
            settings.storage() == database,
    {
        Settings { net, app, database }
    }

    #[inline]
    pub fn net(&self) -> (net: &Network)
        ensures
            *net == self.network(),
    {
        &self.net
    }

    #[inline]
    pub fn app(&self) -> (app: &Application)
        ensures
            *app == self.application(),
    {
        &self.app
    }

    #[inline]
    pub fn database(&self) -> (database: &Database)
        ensures
            *database == self.storage(),
    {
        &self.database
    }
}

impl Default for Settings {
    /// What the service runs with when no configuration can be read.
    fn default() -> (settings: Self)
        ensures
            settings.network().host_text() == "127.0.0.1"@,
            settings.network().port_number() == 5000,
            settings.application().jwt_settings().secret_text() == Seq::<char>::empty(),
            settings.application().jwt_settings().lifetime() == 3600,
            settings.storage().path_text() == "./rusty-response-api/sqlite.db"@,
    {
        Settings {
            net: Network::default(),
            app: Application::default(),
            database: Database::default(),
        }
    }
}

} // verus!
