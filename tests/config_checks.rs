use server_rs::config::{Config, DatabaseConfig, POOL_IDLE_TIMEOUT_SECS, POOL_MAX_LIFETIME_SECS};

#[test]
fn default_config_is_valid() {
    let c = Config::default();
    assert_eq!(c.server.port, 3000);
    assert_eq!(c.server.host, "0.0.0.0");
    assert_eq!(c.database.max_connections, 100);
    assert_eq!(c.database.min_connections, 5);
    assert_eq!(c.logging.level, "info");
    assert_eq!(c.logging.format, "json");
    assert_eq!(c.validate(), Ok(()));
}

#[test]
fn zero_port_is_rejected() {
    let mut c = Config::default();
    c.server.port = 0;
    assert_eq!(
        c.validate(),
        Err("Server port must be greater than 0".to_string())
    );
}

#[test]
fn pool_bounds_reversed_are_rejected() {
    let mut c = Config::default();
    c.database.max_connections = 4;
    c.database.min_connections = 5;
    assert_eq!(
        c.validate(),
        Err("Database max_connections must be >= min_connections".to_string())
    );
}

#[test]
fn equal_pool_bounds_are_accepted() {
    let mut c = Config::default();
    c.database.max_connections = 5;
    c.database.min_connections = 5;
    assert_eq!(c.validate(), Ok(()));
}

#[test]
fn unknown_level_is_rejected() {
    let mut c = Config::default();
    c.logging.level = "verbose".to_string();
    assert_eq!(
        c.validate(),
        Err("Invalid logging level. Must be one of: error, warn, info, debug, trace".to_string())
    );
}

#[test]
fn level_and_format_in_any_case_are_accepted() {
    let mut c = Config::default();
    c.logging.level = "DeBuG".to_string();
    c.logging.format = "PRETTY".to_string();
    assert_eq!(c.validate(), Ok(()));
    for level in ["error", "warn", "info", "debug", "trace"] {
        c.logging.level = level.to_uppercase();
        assert_eq!(c.validate(), Ok(()));
    }
}

#[test]
fn unknown_format_is_rejected() {
    let mut c = Config::default();
    c.logging.format = "xml".to_string();
    assert_eq!(
        c.validate(),
        Err("Invalid logging format. Must be 'json' or 'pretty'".to_string())
    );
}

#[test]
fn port_is_checked_before_the_other_rules() {
    let mut c = Config::default();
    c.server.port = 0;
    c.logging.format = "xml".to_string();
    c.database.min_connections = 500;
    assert_eq!(
        c.validate(),
        Err("Server port must be greater than 0".to_string())
    );
}

#[test]
fn validate_normalized_takes_lowered_words() {
    let c = Config::default();
    assert_eq!(c.validate_normalized("trace", "pretty"), Ok(()));
    assert!(c.validate_normalized("TRACE", "pretty").is_err());
    assert_eq!(
        c.validate_normalized("trace", "Json"),
        Err("Invalid logging format. Must be 'json' or 'pretty'".to_string())
    );
}

#[test]
fn server_address_joins_host_and_port() {
    let mut c = Config::default();
    assert_eq!(c.server_address(), "0.0.0.0:3000");
    c.server.host = "127.0.0.1".to_string();
    c.server.port = 65535;
    assert_eq!(c.server_address(), "127.0.0.1:65535");
    c.server.port = 0;
    assert_eq!(c.server_address(), "127.0.0.1:0");
    c.server.port = 8;
    assert_eq!(c.server_address(), "127.0.0.1:8");
}

#[test]
fn pool_settings_follow_the_database_config() {
    let d = DatabaseConfig {
        url: "postgresql://db/app".to_string(),
        max_connections: 7,
        min_connections: 2,
        connect_timeout: 11,
        query_timeout: 3,
    };
    let p = d.pool_settings();
    assert_eq!(p.url, "postgresql://db/app");
    assert_eq!(p.max_connections, 7);
    assert_eq!(p.min_connections, 2);
    assert_eq!(p.acquire_timeout_secs, 11);
    assert_eq!(p.idle_timeout_secs, POOL_IDLE_TIMEOUT_SECS);
    assert_eq!(p.idle_timeout_secs, 300);
    assert_eq!(p.max_lifetime_secs, POOL_MAX_LIFETIME_SECS);
    assert_eq!(p.max_lifetime_secs, 1800);
    assert!(p.test_before_acquire);
}

#[test]
fn deployment_environment_names() {
    assert!(server_rs::config::is_development_env("development"));
    assert!(!server_rs::config::is_development_env("Development"));
    assert!(!server_rs::config::is_development_env(""));
    assert!(server_rs::config::is_production_env("production"));
    assert!(!server_rs::config::is_production_env("development"));
}
