use vstd::prelude::*;

use crate::decimal::{parse_u16, parse_u16_spec};
use crate::path::{join_path, join_spec};

verus! {

/// What looking up one environment variable as Unicode text gives.
pub enum EnvVar {
    /// The variable is not set.
    NotPresent,
    /// The variable is set, but its value is not valid Unicode; the value as
    /// the environment error writes it.
    NotUnicode(String),
    /// The variable's value.
    Value(String),
}

/// The environment variables that configuration reads, taken once by the
/// caller: `XDG_CONFIG_HOME`, `XDG_DATA_HOME`, `HOME` and
/// `TASKFORCE_SQLITE_PATH` as paths, `TASKFORCE_PORT` as text.
pub struct Environment {
    pub xdg_config_home: Option<String>,
    pub xdg_data_home: Option<String>,
    pub home: Option<String>,
    pub sqlite_path: Option<String>,
    pub port: EnvVar,
}

/// Why configuration could not be resolved.
pub enum ConfigError {
    /// `TASKFORCE_HOST` holds the given text, which is no IP address.
    InvalidHost(String),
    /// `TASKFORCE_PORT` holds the given text, which is no port number.
    InvalidPort(String),
    /// `TASKFORCE_PORT` is set to a value that is not valid Unicode, written
    /// as given.
    UnreadablePort(String),
    /// Neither `XDG_DATA_HOME` nor `HOME` is set.
    HomeNotSet,
}

/// An IP address, version 4 or 6.
#[derive(Debug, Clone, Copy, PartialEq, Eq)]
pub enum IpAddress {
    V4([u8; 4]),
    V6([u16; 8]),
}

/// An IP address with a port.
#[derive(Debug, Clone, Copy, PartialEq, Eq)]
pub struct SocketAddress {
    pub ip: IpAddress,
    pub port: u16,
}

/// The storage engine that holds the tasks.
#[derive(Debug, Clone, Copy, PartialEq, Eq, Structural)]
pub enum BackendKind {
    Sqlite,
}

/// The `[backend]` table of the configuration file.
pub struct BackendConfig {
    pub kind: BackendKind,
    pub sqlite_path: Option<String>,
}

/// The `[server]` table of the configuration file.
pub struct ServerConfig {
    pub host: Option<IpAddress>,
    pub port: Option<u16>,
}

/// The whole configuration file.
pub struct AppConfig {
    /// Legacy SQLite path. Prefer `[backend].sqlite_path` for new configs.
    pub sqlite_path: Option<String>,
    pub backend: BackendConfig,
    pub server: ServerConfig,
}

impl Default for BackendKind {
    fn default() -> (kind: Self)
        ensures
            kind == BackendKind::Sqlite,
    {
        BackendKind::Sqlite
    }
}

impl Default for BackendConfig {
    fn default() -> (config: Self)
        ensures
            config.kind == BackendKind::Sqlite,
            config.sqlite_path is None,
    {
        BackendConfig { kind: BackendKind::Sqlite, sqlite_path: None }
    }
}

impl Default for ServerConfig {
    fn default() -> (config: Self)
        ensures
            config.host is None,
            config.port is None,
    {
        ServerConfig { host: None, port: None }
    }
}

impl Default for AppConfig {
    fn default() -> (config: Self)
        ensures
            config.sqlite_path is None,
            config.backend.kind == BackendKind::Sqlite,
            config.backend.sqlite_path is None,
            config.server.host is None,
            config.server.port is None,
    {
        AppConfig {
            sqlite_path: None,
            backend: BackendConfig { kind: BackendKind::Sqlite, sqlite_path: None },
            server: ServerConfig { host: None, port: None },
        }
    }
}

/// The address that a server listens on when nothing else is configured.
pub open spec fn loopback() -> IpAddress {
    IpAddress::V4([127u8, 0u8, 0u8, 1u8])
}

/// The views of an optional path.
pub open spec fn opt_view(p: Option<String>) -> Option<Seq<char>> {
    match p {
        Some(s) => Some(s@),
        None => None,
    }
}

/// The directory that holds the configuration files.
pub open spec fn config_dir_spec(env: Environment) -> Option<Seq<char>> {
    match env.xdg_config_home {
        Some(x) => Some(join_spec(x@, "taskforce"@)),
        None => match env.home {
            Some(h) => Some(join_spec(join_spec(h@, ".config"@), "taskforce"@)),
            None => None,
        },
    }
}

/// The directory that holds the data files.
pub open spec fn data_dir_spec(env: Environment) -> Option<Seq<char>> {
    match env.xdg_data_home {
        Some(x) => Some(join_spec(x@, "taskforce"@)),
        None => match env.home {
            Some(h) => Some(join_spec(join_spec(join_spec(h@, ".local"@), "share"@), "taskforce"@)),
            None => None,
        },
    }
}

/// The database path that applies: the environment's, then the
/// `[backend]` table's, then the legacy top-level one, then the default one
/// in the data directory (none when no data directory is known).
pub open spec fn sqlite_path_spec(config: AppConfig, env: Environment) -> Option<Seq<char>> {
    if env.sqlite_path is Some {
        opt_view(env.sqlite_path)
    } else if config.backend.sqlite_path is Some {
        opt_view(config.backend.sqlite_path)
    } else if config.sqlite_path is Some {
        opt_view(config.sqlite_path)
    } else {
        match data_dir_spec(env) {
            Some(d) => Some(join_spec(d, "taskforce.db"@)),
            None => None,
        }
    }
}

fn config_dir(env: &Environment) -> (dir: Option<String>)
    ensures
        opt_view(dir) == config_dir_spec(*env),
{
    if let Some(xdg_home) = &env.xdg_config_home {
        return Some(join_path(xdg_home.as_str(), "taskforce"));
    }
    match &env.home {
        Some(home) => {
            let config = join_path(home.as_str(), ".config");
            Some(join_path(config.as_str(), "taskforce"))
        },
        None => None,
    }
}

/// The path of the configuration file, if a configuration directory is known.
pub fn config_path(env: &Environment) -> (path: Option<String>)
    ensures
        opt_view(path) == config_path_spec(*env),
{
    match config_dir(env) {
        Some(dir) => Some(join_path(dir.as_str(), "config.toml")),
        None => None,
    }
}

/// The path of the environment file, if a configuration directory is known.
pub fn env_file_path(env: &Environment) -> (path: Option<String>)
    ensures
        opt_view(path) == env_file_path_spec(*env),
{
    match config_dir(env) {
        Some(dir) => Some(join_path(dir.as_str(), "taskforce.env")),
        None => None,
    }
}

/// The configuration file and the environment file lie in one directory:
/// either both paths are known or neither is, and both are that directory
/// joined with their own names.
pub proof fn lemma_config_files_share_directory(env: Environment)
    ensures
        config_dir_spec(env) is Some <==> config_path_spec(env) is Some,
        config_dir_spec(env) is Some <==> env_file_path_spec(env) is Some,
        config_dir_spec(env) is Some ==> {
            let dir = config_dir_spec(env)->0;
            &&& config_path_spec(env)->0 == join_spec(dir, "config.toml"@)
            &&& env_file_path_spec(env)->0 == join_spec(dir, "taskforce.env"@)
        },
{
}

/// The path of the configuration file, if a configuration directory is known.
pub open spec fn config_path_spec(env: Environment) -> Option<Seq<char>> {
    match config_dir_spec(env) {
        Some(d) => Some(join_spec(d, "config.toml"@)),
        None => None,
    }
}

/// The path of the environment file, if a configuration directory is known.
pub open spec fn env_file_path_spec(env: Environment) -> Option<Seq<char>> {
    match config_dir_spec(env) {
        Some(d) => Some(join_spec(d, "taskforce.env"@)),
        None => None,
    }
}

/// The database path that `TASKFORCE_SQLITE_PATH` gives, if it is set.
pub fn sqlite_path_env(env: &Environment) -> (path: Result<Option<String>, ConfigError>)
    ensures
        path matches Ok(p) && opt_view(p) == opt_view(env.sqlite_path),
{
    match &env.sqlite_path {
        Some(path) => Ok(Some(path.clone())),
        None => Ok(None),
    }
}

/// The port that `TASKFORCE_PORT` gives: none when it is not set, an error
/// when it is not Unicode or not a port number.
pub fn server_port_env(var: &EnvVar) -> (port: Result<Option<u16>, ConfigError>)
    ensures
        match var {
            EnvVar::NotPresent => port matches Ok(None),
            EnvVar::NotUnicode(value) => port matches Err(ConfigError::UnreadablePort(v)) && v@
                == value@,
            EnvVar::Value(text) => match parse_u16_spec(text@) {
                Some(p) => port == Ok::<Option<u16>, ConfigError>(Some(p)),
                None => port matches Err(ConfigError::InvalidPort(t)) && t@ == text@,
            },
        },
{
    match var {
        EnvVar::Value(text) => match parse_u16(text.as_str()) {
            Some(p) => Ok(Some(p)),
            None => Err(ConfigError::InvalidPort(text.clone())),
        },
        EnvVar::NotPresent => Ok(None),
        EnvVar::NotUnicode(value) => Err(ConfigError::UnreadablePort(value.clone())),
    }
}

/// The data directory: `$XDG_DATA_HOME/taskforce`, else
/// `$HOME/.local/share/taskforce`, else an error.
pub fn data_dir(env: &Environment) -> (dir: Result<String, ConfigError>)
    ensures
        match data_dir_spec(*env) {
            Some(d) => dir matches Ok(p) && p@ == d,
            None => dir matches Err(ConfigError::HomeNotSet),
        },
{
    if let Some(xdg_home) = &env.xdg_data_home {
        return Ok(join_path(xdg_home.as_str(), "taskforce"));
    }
    match &env.home {
        Some(home) => {
            let local = join_path(home.as_str(), ".local");
            let share = join_path(local.as_str(), "share");
            Ok(join_path(share.as_str(), "taskforce"))
        },
        None => Err(ConfigError::HomeNotSet),
    }
}

/// The default database path, `taskforce.db` in the data directory.
pub fn default_sqlite_path(env: &Environment) -> (path: Result<String, ConfigError>)
    ensures
        match data_dir_spec(*env) {
            Some(d) => path matches Ok(p) && p@ == join_spec(d, "taskforce.db"@),
            None => path matches Err(ConfigError::HomeNotSet),
        },
{
    match data_dir(env) {
        Ok(dir) => Ok(join_path(dir.as_str(), "taskforce.db")),
        Err(e) => Err(e),
    }
}

fn clone_path(p: &Option<String>) -> (c: Option<String>)
    ensures
        opt_view(c) == opt_view(*p),
{
    match p {
        Some(s) => Some(s.clone()),
        None => None,
    }
}

impl AppConfig {
    /// The database path: `TASKFORCE_SQLITE_PATH`, else `[backend].sqlite_path`,
    /// else the legacy `sqlite_path`, else `taskforce.db` in the data
    /// directory; an error only when it comes to the data directory and no
    /// home is known.
    pub fn resolve_sqlite_path(&self, env: &Environment) -> (path: Result<String, ConfigError>)
        ensures
            match sqlite_path_spec(*self, *env) {
                Some(p) => path matches Ok(q) && q@ == p,
                None => path matches Err(ConfigError::HomeNotSet),
            },
    {
        if let Ok(Some(path)) = sqlite_path_env(env) {
            return Ok(path);
        }
        if let Some(path) = clone_path(&self.backend.sqlite_path) {
            return Ok(path);
        }
        if let Some(path) = clone_path(&self.sqlite_path) {
            return Ok(path);
        }
        default_sqlite_path(env)
    }
}

/// The address that a server binds: the host from `TASKFORCE_HOST`, else the
/// configured one, else 127.0.0.1; the port from `TASKFORCE_PORT`, else the
/// configured one, else 0. An error in the host comes first, then one in the
/// port.
pub open spec fn server_addr_spec(
    config: ServerConfig,
    host_env: Option<Result<IpAddress, ConfigError>>,
    port_env: Result<Option<u16>, ConfigError>,
) -> Result<SocketAddress, ConfigError> {
    match host_env {
        Some(Err(e)) => Err(e),
        _ => match port_env {
            Err(e) => Err(e),
            Ok(port) => {
                let ip = match host_env {
                    Some(Ok(ip)) => ip,
                    _ => match config.host {
                        Some(h) => h,
                        None => loopback(),
                    },
                };
                let port = match port {
                    Some(p) => p,
                    None => match config.port {
                        Some(p) => p,
                        None => 0u16,
                    },
                };
                Ok(SocketAddress { ip, port })
            },
        },
    }
}

/// The port that applies: `TASKFORCE_PORT`'s, else the configured one, else 0.
pub open spec fn resolved_port(configured: Option<u16>, port_env: Result<Option<u16>, ConfigError>) -> u16 {
    match port_env {
        Ok(Some(p)) => p,
        _ => match configured {
            Some(p) => p,
            None => 0u16,
        },
    }
}

/// The host that applies: `TASKFORCE_HOST`'s, else the configured one, else
/// 127.0.0.1.
pub open spec fn resolved_host(
    configured: Option<IpAddress>,
    host_env: Option<Result<IpAddress, ConfigError>>,
) -> IpAddress {
    match host_env {
        Some(Ok(ip)) => ip,
        _ => match configured {
            Some(h) => h,
            None => IpAddress::V4([127u8, 0u8, 0u8, 1u8]),
        },
    }
}

/// The port of a server address does not depend on where its host comes
/// from: with the port variable unset, a configured port is the port,
/// whatever the configured host and the host variable are; with it set, its
/// value is the port; with neither, the port is 0.
pub proof fn lemma_server_port_precedence(
    config: ServerConfig,
    host_env: Option<Result<IpAddress, ConfigError>>,
    port_env: Result<Option<u16>, ConfigError>,
)
    requires
        !(host_env matches Some(Err(_))),
        port_env is Ok,
    ensures
        server_addr_spec(config, host_env, port_env) is Ok,
        port_env matches Ok(Some(p)) ==> server_addr_spec(config, host_env, port_env)->Ok_0.port
            == p,
        config.port matches Some(p) ==> (port_env matches Ok(None) ==> server_addr_spec(
            config,
            host_env,
            port_env,
        )->Ok_0.port == p),
        port_env matches Ok(None) && config.port is None ==> server_addr_spec(
            config,
            host_env,
            port_env,
        )->Ok_0.port == 0,
        forall|other_host: Option<IpAddress>|
            server_addr_spec(ServerConfig { host: other_host, port: config.port }, host_env, port_env)->Ok_0.port
                == server_addr_spec(config, host_env, port_env)->Ok_0.port,
{
}

/// The host of a server address: the host variable's address when it holds
/// one, else the configured host, else 127.0.0.1, whatever the port.
pub proof fn lemma_server_host_precedence(
    config: ServerConfig,
    host_env: Option<Result<IpAddress, ConfigError>>,
    port_env: Result<Option<u16>, ConfigError>,
)
    requires
        !(host_env matches Some(Err(_))),
        port_env is Ok,
    ensures
        host_env matches Some(Ok(ip)) ==> server_addr_spec(config, host_env, port_env)->Ok_0.ip == ip,
        config.host matches Some(h) ==> (host_env is None ==> server_addr_spec(config, host_env, port_env)->Ok_0.ip == h),
        host_env is None && config.host is None ==> server_addr_spec(config, host_env, port_env)->Ok_0.ip
            == IpAddress::V4([127u8, 0u8, 0u8, 1u8]),
{
}

impl ServerConfig {
    /// Resolves the server address from this table and the outcomes of
    /// reading `TASKFORCE_HOST` (`host_env`, as `server_host_env` gives it)
    /// and `TASKFORCE_PORT` (`port_env`, as `server_port_env` gives it).
    pub fn resolve(
        &self,
        host_env: Option<Result<IpAddress, ConfigError>>,
        port_env: Result<Option<u16>, ConfigError>,
    ) -> (addr: Result<SocketAddress, ConfigError>)
        ensures
            addr == server_addr_spec(*self, host_env, port_env),
            host_env matches Some(Err(e)) ==> addr == Err::<SocketAddress, ConfigError>(e),
            port_env matches Err(e) ==> (!(host_env matches Some(Err(_))) ==> addr == Err::<
                SocketAddress,
                ConfigError,
            >(e)),
            addr matches Ok(a) ==> a.port == resolved_port(self.port, port_env) && a.ip
                == resolved_host(self.host, host_env),
            !(host_env matches Some(Err(_))) && port_env is Ok ==> addr is Ok,
    {
        let host = match host_env {
            Some(Err(e)) => return Err(e),
            Some(Ok(ip)) => ip,
            None => match self.host {
                Some(h) => h,
                None => IpAddress::V4([127u8, 0u8, 0u8, 1u8]),
            },
        };
        let port = match port_env {
            Err(e) => return Err(e),
            Ok(Some(p)) => p,
            Ok(None) => match self.port {
                Some(p) => p,
                None => 0u16,
            },
        };
        Ok(SocketAddress { ip: host, port })
    }
}

} // verus!
