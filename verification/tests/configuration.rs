use webserver::configuration::{DatabaseSettings, Password};

fn settings(port: u16) -> DatabaseSettings {
    DatabaseSettings {
        username: "postgres".to_string(),
        password: Password::new("pass word".to_string()),
        host: "localhost".to_string(),
        port,
        database_name: "newsletter".to_string(),
    }
}

#[test]
fn connection_string_names_every_setting() {
    assert_eq!(
        settings(5432).connection_string(),
        "postgres://postgres:pass word@localhost:5432/newsletter"
    );
}

#[test]
fn connection_string_without_db_stops_at_the_port() {
    assert_eq!(
        settings(5432).connection_string_without_db(),
        "postgres://postgres:pass word@localhost:5432"
    );
}

#[test]
fn connection_string_extends_the_server_address() {
    for port in [0u16, 7, 10, 5432, 65535] {
        let s = settings(port);
        assert_eq!(
            s.connection_string(),
            format!("{}/{}", s.connection_string_without_db(), s.database_name)
        );
    }
}

#[test]
fn ports_are_written_in_decimal() {
    for port in [0u16, 1, 9, 10, 99, 100, 1000, 5432, 65535] {
        assert_eq!(
            settings(port).connection_string_without_db(),
            format!("postgres://postgres:pass word@localhost:{}", port)
        );
    }
}

#[test]
fn password_gives_back_what_it_keeps() {
    let password = Password::new("SECRET-REDACTED".to_string());
    assert_eq!(password.expose(), "SECRET-REDACTED");
    let empty = Password::new(String::new());
    assert_eq!(empty.expose(), "");
}

#[test]
fn the_port_in_the_connection_string_reads_back() {
    for port in [0u16, 5, 10, 80, 443, 5432, 8000, 65535] {
        let url = settings(port).connection_string_without_db();
        let written = url.rsplit(':').next().unwrap();
        assert!(written.chars().all(|c| c.is_ascii_digit()));
        assert!(port == 0 || !written.starts_with('0'));
        assert_eq!(written.parse::<u16>().unwrap(), port);
    }
}
