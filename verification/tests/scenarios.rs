//! End-to-end scenarios: whole documents through the loader and renderer.

use game_web::AppConfig;
use game_web::ConfigError;

const MINIMAL: &str = "\
[server]
port = 8080

[database]
url = \"postgres://x\"

[templates]
template_root = \"./t\"
";

const MINIMAL_RENDER: &str = "\
Server: host=127.0.0.1 port=8080 workers=4 request_timeout_secs=30
Database: url=postgres://x pool_size=10 connect_timeout_secs=5
Templates: template_root=./t hot_reload=false
Features: enable_registration=true enable_world_map=true";

#[test]
fn minimal_valid_input() {
    let config = AppConfig::from_toml_text("conf.toml", MINIMAL).unwrap();
    assert_eq!(config.render(), MINIMAL_RENDER);
}

#[test]
fn minimal_fields_hold_defaults() {
    let config = AppConfig::from_toml_text("conf.toml", MINIMAL).unwrap();
    assert_eq!(config.server.host, "127.0.0.1");
    assert_eq!(config.server.port, 8080);
    assert_eq!(config.server.workers, 4);
    assert_eq!(config.server.request_timeout_secs, 30);
    assert_eq!(config.database.url, "postgres://x");
    assert_eq!(config.database.pool_size, 10);
    assert_eq!(config.database.connect_timeout_secs, 5);
    assert_eq!(config.templates.template_root, "./t");
    assert!(!config.templates.hot_reload);
    assert!(config.features.enable_registration);
    assert!(config.features.enable_world_map);
}

#[test]
fn missing_required_field() {
    let text = "\
[server]

[database]
url = \"postgres://x\"

[templates]
template_root = \"./t\"
";
    let err = AppConfig::from_toml_text("conf.toml", text).unwrap_err();
    assert!(matches!(err, ConfigError::Shape { .. }));
    let message = err.message();
    assert!(message.contains("conf.toml"));
    assert!(message.contains("port"));
}

#[test]
fn out_of_range_integer() {
    let text = MINIMAL.replace("port = 8080", "port = 70000");
    let err = AppConfig::from_toml_text("conf.toml", &text).unwrap_err();
    assert!(matches!(err, ConfigError::Shape { .. }));
    assert!(err.message().contains("out of range"));
}

#[test]
fn empty_features_table() {
    let mut text = String::from(MINIMAL);
    text.push_str("\n[features]\n");
    let config = AppConfig::from_toml_text("conf.toml", &text).unwrap();
    let rendered = config.render();
    let last_line = rendered.lines().last().unwrap();
    assert_eq!(last_line, "Features: enable_registration=false enable_world_map=false");
}

#[test]
fn unknown_field() {
    let text = MINIMAL.replace("port = 8080", "port = 8080\nexperimental = \"yes\"");
    let config = AppConfig::from_toml_text("conf.toml", &text).unwrap();
    assert_eq!(config.render(), MINIMAL_RENDER);
}

#[test]
fn unreadable_file() {
    let outcome: Result<String, String> =
        Err("No such file or directory (os error 2)".to_string());
    let err = AppConfig::from_read_result("config/game-web.toml", outcome).unwrap_err();
    assert!(matches!(err, ConfigError::Read { .. }));
    let message = err.message();
    assert!(message.contains("config/game-web.toml"));
    assert!(message.contains("configuration file"));
}

#[test]
fn successful_read_outcome_loads() {
    let outcome: Result<String, String> = Ok(MINIMAL.to_string());
    let config = AppConfig::from_read_result("conf.toml", outcome).unwrap();
    assert_eq!(config.render(), MINIMAL_RENDER);
}

#[test]
fn parse_error_keeps_the_diagnostic() {
    let text = "[server\nport = 1";
    let expected = text.parse::<toml::Table>().unwrap_err().to_string();
    let err = AppConfig::from_toml_text("conf.toml", text).unwrap_err();
    match err {
        ConfigError::Parse { cause, .. } => assert_eq!(cause, expected),
        _ => panic!("expected a parse error"),
    }
}

#[test]
fn syntax_error_is_parse_error() {
    let err = AppConfig::from_toml_text("conf.toml", "[server\nport = 1").unwrap_err();
    assert!(matches!(err, ConfigError::Parse { .. }));
    let message = err.message();
    assert!(message.contains("Failed to parse configuration file"));
    assert!(message.contains("conf.toml"));
}
