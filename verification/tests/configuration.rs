use backend::configuration::{DatabaseSettings, Environment, SslMode};

fn settings(require_ssl: bool, port: u16) -> DatabaseSettings {
    DatabaseSettings {
        host: "localhost".to_string(),
        port,
        username: "postgres".to_string(),
        password: "password".to_string(),
        database_name: "newsletter".to_string(),
        require_ssl,
    }
}

#[test]
fn connection_string_has_every_part() {
    assert_eq!(
        settings(false, 5432).connection_string(),
        "postgres:postgres:password@localhost:5432/newsletter"
    );
    assert_eq!(settings(false, 0).connection_string(), "postgres:postgres:password@localhost:0/newsletter");
    assert_eq!(
        settings(false, 65535).connection_string(),
        "postgres:postgres:password@localhost:65535/newsletter"
    );
    assert_eq!(settings(false, 10).connection_string(), "postgres:postgres:password@localhost:10/newsletter");
}

#[test]
fn ssl_mode_follows_require_ssl() {
    assert_eq!(settings(true, 1).ssl_mode(), SslMode::Allow);
    assert_eq!(settings(false, 1).ssl_mode(), SslMode::Prefer);
}

#[test]
fn environment_names() {
    assert_eq!(Environment::Local.as_str(), "local");
    assert_eq!(Environment::Production.as_str(), "production");
}

#[test]
fn environment_round_trip() {
    for e in [Environment::Local, Environment::Production] {
        assert_eq!(Environment::try_from(e.as_str().to_string()), Ok(e));
    }
}

#[test]
fn environment_ignores_case() {
    assert_eq!(Environment::try_from("LOCAL".to_string()), Ok(Environment::Local));
    assert_eq!(Environment::try_from("Production".to_string()), Ok(Environment::Production));
}

#[test]
fn environment_rejects_unknown_names_in_lowercase() {
    assert_eq!(
        Environment::try_from("Staging".to_string()),
        Err("staging is not a valid env var".to_string())
    );
    assert_eq!(
        Environment::try_from("ÉTÉ".to_string()),
        Err("été is not a valid env var".to_string())
    );
}

#[test]
fn environment_setting_defaults_to_local() {
    assert_eq!(Environment::from_setting(None), Ok(Environment::Local));
    assert_eq!(Environment::from_setting(Some("PRODUCTION".to_string())), Ok(Environment::Production));
    assert_eq!(
        Environment::from_setting(Some("dev".to_string())),
        Err("dev is not a valid env var".to_string())
    );
}
