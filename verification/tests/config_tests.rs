use taskforce::config::{
    config_path, data_dir, default_sqlite_path, env_file_path, server_port_env, sqlite_path_env,
    AppConfig, BackendConfig, BackendKind, ConfigError, EnvVar, Environment, IpAddress,
    ServerConfig, SocketAddress,
};
use taskforce::db_backend::{ConfiguredBackend, OpenError};

fn env() -> Environment {
    Environment {
        xdg_config_home: None,
        xdg_data_home: None,
        home: None,
        sqlite_path: None,
        port: EnvVar::NotPresent,
    }
}

#[test]
fn resolves_server_addr_with_defaults() {
    let resolved = ServerConfig::default()
        .resolve(None, server_port_env(&EnvVar::NotPresent))
        .ok()
        .expect("resolve");
    assert_eq!(resolved, SocketAddress { ip: IpAddress::V4([127, 0, 0, 1]), port: 0 });
}

#[test]
fn server_settings_come_before_defaults() {
    let config = ServerConfig { host: Some(IpAddress::V4([0, 0, 0, 0])), port: Some(9090) };
    let resolved = config.resolve(None, Ok(None)).ok().expect("resolve");
    assert_eq!(resolved, SocketAddress { ip: IpAddress::V4([0, 0, 0, 0]), port: 9090 });
}

#[test]
fn environment_comes_before_server_settings() {
    let config = ServerConfig { host: Some(IpAddress::V4([0, 0, 0, 0])), port: Some(9090) };
    let v6 = IpAddress::V6([0, 0, 0, 0, 0, 0, 0, 1]);
    let resolved = config
        .resolve(Some(Ok(v6)), server_port_env(&EnvVar::Value("8080".to_string())))
        .ok()
        .expect("resolve");
    assert_eq!(resolved, SocketAddress { ip: v6, port: 8080 });
}

#[test]
fn host_error_comes_before_port_error() {
    let result = ServerConfig::default().resolve(
        Some(Err(ConfigError::InvalidHost("nowhere".to_string()))),
        Err(ConfigError::UnreadablePort("\"\\xFF\"".to_string())),
    );
    assert!(matches!(result, Err(ConfigError::InvalidHost(t)) if t == "nowhere"));
    let result = ServerConfig::default().resolve(None, Err(ConfigError::UnreadablePort("x".to_string())));
    assert!(matches!(result, Err(ConfigError::UnreadablePort(v)) if v == "x"));
}

#[test]
fn port_variable_is_parsed_as_u16() {
    assert!(matches!(server_port_env(&EnvVar::NotPresent), Ok(None)));
    assert!(matches!(
        server_port_env(&EnvVar::NotUnicode("\"\\xFF\"".to_string())),
        Err(ConfigError::UnreadablePort(v)) if v == "\"\\xFF\""
    ));
    assert!(matches!(server_port_env(&EnvVar::Value("65535".to_string())), Ok(Some(65535))));
    assert!(matches!(server_port_env(&EnvVar::Value("+80".to_string())), Ok(Some(80))));
    assert!(matches!(server_port_env(&EnvVar::Value("0080".to_string())), Ok(Some(80))));
    for bad in ["65536", "", "+", "-1", " 80", "80a", "٣"] {
        match server_port_env(&EnvVar::Value(bad.to_string())) {
            Err(ConfigError::InvalidPort(t)) => assert_eq!(t, bad),
            _ => panic!("expected InvalidPort for {bad:?}"),
        }
    }
}

#[test]
fn config_files_live_in_the_config_directory() {
    let mut e = env();
    assert_eq!(config_path(&e), None);
    assert_eq!(env_file_path(&e), None);
    e.home = Some("/home/ann".to_string());
    assert_eq!(config_path(&e).as_deref(), Some("/home/ann/.config/taskforce/config.toml"));
    assert_eq!(env_file_path(&e).as_deref(), Some("/home/ann/.config/taskforce/taskforce.env"));
    e.xdg_config_home = Some("/etc/xdg/".to_string());
    assert_eq!(config_path(&e).as_deref(), Some("/etc/xdg/taskforce/config.toml"));
    assert_eq!(env_file_path(&e).as_deref(), Some("/etc/xdg/taskforce/taskforce.env"));
    e.xdg_config_home = Some(String::new());
    assert_eq!(config_path(&e).as_deref(), Some("taskforce/config.toml"));
}

#[test]
fn data_directory_needs_a_home() {
    let mut e = env();
    assert!(matches!(data_dir(&e), Err(ConfigError::HomeNotSet)));
    assert!(matches!(default_sqlite_path(&e), Err(ConfigError::HomeNotSet)));
    e.home = Some("/home/bo".to_string());
    assert_eq!(data_dir(&e).ok().as_deref(), Some("/home/bo/.local/share/taskforce"));
    assert_eq!(
        default_sqlite_path(&e).ok().as_deref(),
        Some("/home/bo/.local/share/taskforce/taskforce.db")
    );
    e.xdg_data_home = Some("/data".to_string());
    assert_eq!(default_sqlite_path(&e).ok().as_deref(), Some("/data/taskforce/taskforce.db"));
}

#[test]
fn sqlite_path_precedence() {
    let mut config = AppConfig::default();
    let mut e = env();
    e.home = Some("/h".to_string());
    assert_eq!(
        config.resolve_sqlite_path(&e).ok().as_deref(),
        Some("/h/.local/share/taskforce/taskforce.db")
    );
    config.sqlite_path = Some("/tmp/taskforce.db".to_string());
    assert_eq!(config.resolve_sqlite_path(&e).ok().as_deref(), Some("/tmp/taskforce.db"));
    config.backend = BackendConfig { kind: BackendKind::Sqlite, sqlite_path: Some("/tmp/backend.db".to_string()) };
    assert_eq!(config.resolve_sqlite_path(&e).ok().as_deref(), Some("/tmp/backend.db"));
    e.sqlite_path = Some("/env.db".to_string());
    assert_eq!(config.resolve_sqlite_path(&e).ok().as_deref(), Some("/env.db"));
    assert!(matches!(sqlite_path_env(&e), Ok(Some(p)) if p == "/env.db"));
}

#[test]
fn default_config_is_empty_sqlite() {
    let config = AppConfig::default();
    assert_eq!(config.backend.kind, BackendKind::Sqlite);
    assert_eq!(config.backend.sqlite_path, None);
    assert_eq!(config.sqlite_path, None);
    assert_eq!(config.server.host, None);
    assert_eq!(config.server.port, None);
    assert!(matches!(AppConfig::default().resolve_sqlite_path(&env()), Err(ConfigError::HomeNotSet)));
}

#[test]
fn configured_backend_opens_sqlite_store() {
    let mut config = AppConfig::default();
    assert!(matches!(
        ConfiguredBackend::open(&config, &env()),
        Err(OpenError::Config(ConfigError::HomeNotSet))
    ));
    config.backend.sqlite_path = Some("/tmp/taskforce-configured.db".to_string());
    assert!(matches!(ConfiguredBackend::open(&config, &env()), Ok(ConfiguredBackend::Sqlite(_))));
}
