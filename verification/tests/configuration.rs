use zero2prod::configuration::{
    ApplicationSettings, DatabaseSettings, EmailClientError, EmailClientSettings, Environment,
    SslMode,
};
use zero2prod::domain::SubscriberEmail;

#[test]
fn an_environment_is_named_after_its_settings_file() {
    assert_eq!(Environment::Local.as_str(), "local");
    assert_eq!(Environment::Production.as_str(), "production");
}

#[test]
fn an_environment_is_recognised_in_any_case() {
    assert_eq!(Environment::try_from("local".to_string()), Ok(Environment::Local));
    assert_eq!(Environment::try_from("LOCAL".to_string()), Ok(Environment::Local));
    assert_eq!(Environment::try_from("Production".to_string()), Ok(Environment::Production));
}

#[test]
fn an_unsupported_environment_is_named_in_lower_case_in_the_complaint() {
    assert_eq!(
        Environment::try_from("Staging".to_string()),
        Err("staging is not a supported environment. Use either `local` or `production`"
            .to_string())
    );
    assert_eq!(
        Environment::try_from(String::new()),
        Err(" is not a supported environment. Use either `local` or `production`".to_string())
    );
}

#[test]
fn a_name_in_lower_case_is_taken_as_it_is() {
    assert_eq!(Environment::from_lowercase("production".to_string()), Ok(Environment::Production));
    assert!(Environment::from_lowercase("LOCAL".to_string()).is_err());
}

#[test]
fn the_environment_is_local_where_the_variable_is_not_set() {
    assert_eq!(Environment::from_variable(None), Ok(Environment::Local));
    assert_eq!(
        Environment::from_variable(Some("PRODUCTION".to_string())),
        Ok(Environment::Production)
    );
    assert!(Environment::from_variable(Some("test".to_string())).is_err());
}

fn database(require_ssl: bool) -> DatabaseSettings {
    DatabaseSettings {
        username: "postgres".to_string(),
        port: 5432,
        host: "localhost".to_string(),
        database_name: "newsletter".to_string(),
        require_ssl,
    }
}

#[test]
fn the_instance_connection_names_no_database() {
    let options = database(false).instance_connection();
    assert_eq!(options.host, "localhost");
    assert_eq!(options.username, "postgres");
    assert_eq!(options.port, 5432);
    assert_eq!(options.ssl_mode, SslMode::Prefer);
    assert_eq!(options.database, None);
}

#[test]
fn the_database_connection_names_the_database() {
    let options = database(true).database_connection();
    assert_eq!(options.host, "localhost");
    assert_eq!(options.username, "postgres");
    assert_eq!(options.port, 5432);
    assert_eq!(options.ssl_mode, SslMode::Require);
    assert_eq!(options.database, Some("newsletter".to_string()));
}

fn email_settings(base_url: &str, sender_email: &str) -> EmailClientSettings {
    EmailClientSettings {
        base_url: base_url.to_string(),
        sender_email: sender_email.to_string(),
        timeout_milliseconds: 10_000,
    }
}

#[test]
fn the_sender_is_validated() {
    let settings = email_settings("http://localhost", "newsletter@example.com");
    assert_eq!(settings.sender().unwrap().as_ref(), "newsletter@example.com");
    assert_eq!(settings.timeout(), 10_000);
    let settings = email_settings("http://localhost", "newsletter");
    assert!(settings.sender().is_err());
}

#[test]
fn the_client_is_made_of_the_settings() {
    let client = match email_settings("http://localhost", "newsletter@example.com").client() {
        Ok(client) => client,
        Err(_) => panic!("no client was made"),
    };
    let request =
        client.send_email(SubscriberEmail::parse("a@b.com".to_string()).unwrap(), "s", "h", "t");
    assert_eq!(request.url, "http://localhost/email");
    assert_eq!(request.body.from, "newsletter@example.com");
    assert_eq!(request.timeout_milliseconds, 10_000);
}

#[test]
fn an_invalid_sender_is_reported_before_an_invalid_base_url() {
    match email_settings("nonsense", "newsletter").client() {
        Err(EmailClientError::InvalidSender(error)) => assert_eq!(error.value, "newsletter"),
        _ => panic!("the sender was not reported"),
    }
    assert!(matches!(
        email_settings("nonsense", "newsletter@example.com").client(),
        Err(EmailClientError::InvalidBaseUrl)
    ));
}

fn application(host: &str, port: u16) -> ApplicationSettings {
    ApplicationSettings {
        host: host.to_string(),
        port,
        base_url: "http://127.0.0.1".to_string(),
    }
}

#[test]
fn the_address_is_host_and_port() {
    assert_eq!(application("127.0.0.1", 8000).address(), "127.0.0.1:8000");
    assert_eq!(application("0.0.0.0", 0).address(), "0.0.0.0:0");
    assert_eq!(application("localhost", 65535).address(), "localhost:65535");
    assert_eq!(application("localhost", 10).address(), "localhost:10");
    assert_eq!(application("", 7).address(), ":7");
}
