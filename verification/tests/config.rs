use task_service::config::{
    default_host, default_log_level, default_nats_url, default_otlp, default_pool_size,
    default_service_name, AppConfig, ConfigError, EnvSettings,
};

fn nothing_given() -> EnvSettings {
    EnvSettings {
        host: None,
        database_url: None,
        database_pool_size: None,
        nats_url: None,
        otlp_endpoint: None,
        log_level: None,
        service_name: None,
    }
}

#[test]
fn defaults_are_the_documented_ones() {
    assert_eq!(default_host(), "0.0.0.0:8080");
    assert_eq!(default_pool_size(), 10);
    assert_eq!(default_nats_url(), "nats://localhost:4222");
    assert_eq!(default_otlp(), "http://localhost:4317");
    assert_eq!(default_log_level(), "info");
    assert_eq!(default_service_name(), "task-service");
}

#[test]
fn database_url_alone_is_enough() {
    let env = EnvSettings { database_url: Some("postgres://db".to_string()), ..nothing_given() };
    let config = AppConfig::from_env(env).unwrap();
    assert_eq!(config.database_url, "postgres://db");
    assert_eq!(config.host, "0.0.0.0:8080");
    assert_eq!(config.database_pool_size, 10);
    assert_eq!(config.nats_url, "nats://localhost:4222");
    assert_eq!(config.otlp_endpoint, "http://localhost:4317");
    assert_eq!(config.log_level, "info");
    assert_eq!(config.service_name, "task-service");
}

#[test]
fn given_settings_win_over_defaults() {
    let env = EnvSettings {
        host: Some("127.0.0.1:9".to_string()),
        database_url: Some("postgres://db".to_string()),
        database_pool_size: Some(3),
        nats_url: Some("nats://nats:4222".to_string()),
        otlp_endpoint: Some("".to_string()),
        log_level: Some("debug".to_string()),
        service_name: Some("tasks".to_string()),
    };
    let config = AppConfig::from_env(env).unwrap();
    assert_eq!(config.host, "127.0.0.1:9");
    assert_eq!(config.database_pool_size, 3);
    assert_eq!(config.nats_url, "nats://nats:4222");
    assert_eq!(config.otlp_endpoint, "");
    assert_eq!(config.log_level, "debug");
    assert_eq!(config.service_name, "tasks");
}

#[test]
fn database_url_is_required() {
    match AppConfig::from_env(nothing_given()) {
        Err(e) => assert_eq!(e, ConfigError::MissingDatabaseUrl),
        Ok(_) => panic!("a configuration without a database"),
    }
}
