use transactional_outbox::config::app_config::{
    AppConfig, AppConfigError, AppEnvironment, KafkaConfig, PostgresConfig, ServerConfig,
};

fn sample_config() -> AppConfig {
    AppConfig {
        server: ServerConfig { host: "0.0.0.0".to_string(), port: 8080 },
        postgres: PostgresConfig {
            host: "db.local".to_string(),
            port: 5432,
            db_name: "deliveries".to_string(),
            username: "svc".to_string(),
            password: "secret".to_string(),
            max_size: 10,
            max_pool_size: 10,
            min_pool_size: 2,
            connect_timeout_secs: 30,
        },
        kafka: KafkaConfig {
            bootstrap_servers: "kafka:9092".to_string(),
            schema_registry_url: "http://registry".to_string(),
            retries: 3,
        },
    }
}

#[test]
fn environment_names() {
    assert_eq!(AppEnvironment::Development.as_str(), "development");
    assert_eq!(AppEnvironment::Sandbox.as_str(), "sandbox");
    assert_eq!(AppEnvironment::Prod.as_str(), "prod");
    assert!(AppEnvironment::Prod.is_prod());
    assert!(!AppEnvironment::Sandbox.is_prod());
    assert!(!AppEnvironment::Development.is_prod());
}

#[test]
fn environment_names_are_read_in_any_case() {
    let cases = [
        ("development", AppEnvironment::Development),
        ("dev", AppEnvironment::Development),
        ("DEV", AppEnvironment::Development),
        ("Sandbox", AppEnvironment::Sandbox),
        ("prod", AppEnvironment::Prod),
        ("PRODUCTION", AppEnvironment::Prod),
        ("PrOd", AppEnvironment::Prod),
    ];
    for (name, env) in cases.iter() {
        assert_eq!(AppEnvironment::try_from(name.to_string()).unwrap(), *env);
    }
    for env in [AppEnvironment::Development, AppEnvironment::Sandbox, AppEnvironment::Prod] {
        assert_eq!(AppEnvironment::try_from(env.as_str().to_string()).unwrap(), env);
    }
}

#[test]
fn unknown_environment_is_refused_with_its_lowercased_name() {
    match AppEnvironment::try_from("Staging".to_string()) {
        Err(e) => {
            assert!(matches!(e, AppConfigError::UnknownEnvironment(ref v) if v == "staging"));
            assert_eq!(
                e.message(),
                "Unknown APP_ENV value: 'staging'. Expected: development, sandbox, prod"
            );
        }
        Ok(env) => panic!("unexpected {:?}", env),
    }
    assert!(AppEnvironment::from_lowercase("PROD".to_string()).is_err());
    assert_eq!(AppEnvironment::from_lowercase("prod".to_string()).unwrap(), AppEnvironment::Prod);
}

#[test]
fn valid_settings_pass() {
    assert!(sample_config().validate().is_ok());
    let mut c = sample_config();
    c.postgres.min_pool_size = c.postgres.max_pool_size;
    assert!(c.validate().is_ok());
}

#[test]
fn pool_must_allow_a_connection() {
    let mut c = sample_config();
    c.postgres.max_pool_size = 0;
    c.postgres.min_pool_size = 0;
    let e = c.validate().unwrap_err();
    assert!(matches!(e, AppConfigError::MaxPoolSizeZero));
    assert_eq!(e.message(), "postgres.max_pool_size must be > 0");
}

#[test]
fn pool_minimum_may_not_exceed_maximum() {
    let mut c = sample_config();
    c.postgres.min_pool_size = 11;
    c.kafka.bootstrap_servers = String::new();
    let e = c.validate().unwrap_err();
    assert!(matches!(e, AppConfigError::MinPoolSizeExceedsMax));
    assert_eq!(e.message(), "postgres.min_pool_size cannot exceed max_pool_size");
}

#[test]
fn brokers_are_required() {
    let mut c = sample_config();
    c.kafka.bootstrap_servers = String::new();
    let e = c.validate().unwrap_err();
    assert!(matches!(e, AppConfigError::EmptyBootstrapServers));
    assert_eq!(e.message(), "kafka.bootstrap_servers cannot be empty");
}

#[test]
fn connection_string_lists_every_setting() {
    assert_eq!(
        sample_config().postgres_connection_string(),
        "host=db.local port=5432 dbname=deliveries user=svc password=secret connect_timeout=30"
    );
    let mut c = sample_config();
    c.postgres.port = 0;
    c.postgres.connect_timeout_secs = u64::MAX;
    assert_eq!(
        c.postgres_connection_string(),
        format!(
            "host=db.local port=0 dbname=deliveries user=svc password=secret connect_timeout={}",
            u64::MAX
        )
    );
}
