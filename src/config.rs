use vstd::prelude::*;

verus! {

/// The port that the server listens on unless configured otherwise.
pub const DEFAULT_PORT: u16 = 55300;

/// Where the server listens.
#[derive(Clone, Copy, Debug, PartialEq, Eq)]
pub struct ServerConfig {
    /// The IPv4 address, octet by octet.
    pub host: [u8; 4],
    pub port: u16,
}

/// A relational database server.
#[derive(Clone, Debug, PartialEq, Eq)]
pub struct PostgresConfig {
    pub host: String,
    pub port: u16,
    pub user: String,
    pub password: String,
    pub name: String,
    pub ssl: bool,
    pub timezone: Option<String>,
}

/// An embedded database file.
#[derive(Clone, Debug, PartialEq, Eq)]
pub struct SqliteConfig {
    pub path: String,
    pub timezone: Option<String>,
}

/// The backend that stores the server's state.
#[derive(Clone, Debug, PartialEq, Eq)]
pub enum DatabaseConfig {
    Postgres(PostgresConfig),
    Sqlite(SqliteConfig),
}

/// Bounds on sessions.
#[derive(Clone, Copy, Debug, PartialEq, Eq, Structural)]
pub struct LimitsConfig {
    /// The number of sessions served at once.
    pub devices: u32,
    pub settings: u32,
    /// How long a session may stay silent, in seconds.
    pub stall_time: u64,
}

/// Bounds on the rate of requests and connections.
#[derive(Clone, Copy, Debug, PartialEq, Eq, Structural)]
pub struct RateLimitConfig {
    /// The length of the window, in seconds.
    pub time_frame: u64,
    /// Requests allowed to one session in one window.
    pub max_requests: usize,
    /// Connections accepted in one window.
    pub max_connections: usize,
}

/// The server's configuration.
#[derive(Clone, Debug, PartialEq, Eq)]
pub struct Config {
    pub server: ServerConfig,
    pub database: DatabaseConfig,
    pub limits: LimitsConfig,
    pub rate_limits: RateLimitConfig,
}

impl Default for ServerConfig {
    fn default() -> (r: Self)
        ensures
            r.host@ == seq![0u8, 0u8, 0u8, 0u8],
            r.port == DEFAULT_PORT,
    {
        let r = ServerConfig { host: [0u8; 4], port: DEFAULT_PORT };
        assert(r.host@ =~= seq![0u8, 0u8, 0u8, 0u8]);
        r
    }
}

impl Default for PostgresConfig {
    fn default() -> (r: Self)
        ensures
            r.host@ == "192.168.0.12"@,
            r.port == 5432,
            r.user@ == "root"@,
            r.password@ == "root"@,
            r.name@ == "pixelweather"@,
            !r.ssl,
            r.timezone is None,
    {
        PostgresConfig {
            host: String::from_str("192.168.0.12"),
            port: 5432,
            user: String::from_str("root"),
            password: String::from_str("root"),
            name: String::from_str("pixelweather"),
            ssl: false,
            timezone: None,
        }
    }
}

impl Default for SqliteConfig {
    fn default() -> (r: Self)
        ensures
            r.path@ == "/tmp/pixelweather.sqlite3"@,
            r.timezone is None,
    {
        SqliteConfig { path: String::from_str("/tmp/pixelweather.sqlite3"), timezone: None }
    }
}

impl Default for DatabaseConfig {
    fn default() -> (r: Self)
        ensures
            r matches DatabaseConfig::Postgres(p) && p.host@ == "192.168.0.12"@ && p.port == 5432,
    {
        DatabaseConfig::Postgres(PostgresConfig::default())
    }
}

impl Default for LimitsConfig {
    fn default() -> (r: Self)
        ensures
            r.devices == 10,
            r.settings == 10,
            r.stall_time == 10,
    {
        LimitsConfig { devices: 10, settings: 10, stall_time: 10 }
    }
}

impl Default for RateLimitConfig {
    fn default() -> (r: Self)
        ensures
            r.time_frame == 1,
            r.max_requests == 4,
            r.max_connections == 4,
    {
        RateLimitConfig { time_frame: 1, max_requests: 4, max_connections: 4 }
    }
}

impl Default for Config {
    fn default() -> (r: Self)
        ensures
            r.server.port == DEFAULT_PORT,
            r.database is Postgres,
            r.limits.devices == 10,
            r.limits.stall_time == 10,
            r.rate_limits.time_frame == 1,
            r.rate_limits.max_requests == 4,
            r.rate_limits.max_connections == 4,
    {
        Config {
            server: ServerConfig::default(),
            database: DatabaseConfig::default(),
            limits: LimitsConfig::default(),
            rate_limits: RateLimitConfig::default(),
        }
    }
}

/// Relies on `iana_time_zone::get_timezone`: the host's time zone, when it
/// can be found.
#[verifier::external_body]
fn system_timezone() -> Option<String> {
    iana_time_zone::get_timezone().ok()
}

/// The time zone set in a database's configuration, if any.
pub open spec fn configured_timezone_spec(db: DatabaseConfig) -> Option<String> {
    match db {
        DatabaseConfig::Postgres(p) => p.timezone,
        DatabaseConfig::Sqlite(s) => s.timezone,
    }
}

/// The name of the configuration file below a home directory.
pub open spec fn config_file_below(home: Seq<char>) -> Seq<char> {
    if home.len() > 0 && home.last() == '/' {
        home + ".pwmp-server/config.yml"@
    } else {
        home + "/.pwmp-server/config.yml"@
    }
}

impl Config {
    /// Where the configuration lives below the home directory `home`.
    pub fn default_path(home: &str) -> (r: String)
        ensures
            r@ == config_file_below(home@),
    {
        let n = home.unicode_len();
        let mut path = home.to_owned();
        if n > 0 && home.get_char(n - 1) == '/' {
            path.append(".pwmp-server/config.yml");
        } else {
            path.append("/.pwmp-server/config.yml");
        }
        path
    }

    /// The address and port to listen on.
    pub fn server_bind_addr(&self) -> (r: ([u8; 4], u16))
        ensures
            r.0 == self.server.host,
            r.1 == self.server.port,
    {
        (self.server.host, self.server.port)
    }

    /// A short name of the database: the server's host, or the file's path.
    pub fn short_db_identifier(&self) -> (r: String)
        ensures
            r@ == match self.database {
                DatabaseConfig::Postgres(p) => p.host@,
                DatabaseConfig::Sqlite(s) => s.path@,
            },
    {
        match &self.database {
            DatabaseConfig::Postgres(config) => config.host.clone(),
            DatabaseConfig::Sqlite(config) => config.path.clone(),
        }
    }

    /// The time zone set in the database's configuration, if any.
    pub fn configured_timezone(&self) -> (r: Option<String>)
        ensures
            r is Some <==> configured_timezone_spec(self.database) is Some,
            r is Some ==> r->0@ == configured_timezone_spec(self.database)->0@,
    {
        let tz = match &self.database {
            DatabaseConfig::Postgres(config) => &config.timezone,
            DatabaseConfig::Sqlite(config) => &config.timezone,
        };
        match tz {
            Some(t) => Some(t.clone()),
            None => None,
        }
    }

    /// The time zone for the database: the configured one, otherwise the
    /// host's, when it can be found.
    pub fn db_timezone(&self) -> (r: Option<String>)
        ensures
            configured_timezone_spec(self.database) is Some ==> r is Some && r->0@
                == configured_timezone_spec(self.database)->0@,
    {
        match self.configured_timezone() {
            Some(tz) => Some(tz),
            None => system_timezone(),
        }
    }
}

} // verus!
