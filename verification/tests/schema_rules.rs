//! The schema's rules on concrete documents: required fields, defaults, the
//! features asymmetry, and the unknown-field policy.

use game_web::AppConfig;
use game_web::ConfigError;

fn full_document() -> String {
    "\
[server]
host = \"0.0.0.0\"
port = 9090
workers = 2
request_timeout_secs = 60

[database]
url = \"postgres://db/vallheru\"
pool_size = 3
connect_timeout_secs = 9

[templates]
template_root = \"/srv/templates\"
hot_reload = true

[features]
enable_registration = true
enable_world_map = false
"
    .to_string()
}

fn shape_message(text: &str) -> String {
    let err = AppConfig::from_toml_text("conf.toml", text).unwrap_err();
    assert!(matches!(err, ConfigError::Shape { .. }));
    err.message()
}

#[test]
fn full_document_loads_verbatim() {
    let config = AppConfig::from_toml_text("conf.toml", &full_document()).unwrap();
    assert_eq!(config.server.host, "0.0.0.0");
    assert_eq!(config.server.port, 9090);
    assert_eq!(config.server.workers, 2);
    assert_eq!(config.server.request_timeout_secs, 60);
    assert_eq!(config.database.url, "postgres://db/vallheru");
    assert_eq!(config.database.pool_size, 3);
    assert_eq!(config.database.connect_timeout_secs, 9);
    assert_eq!(config.templates.template_root, "/srv/templates");
    assert!(config.templates.hot_reload);
    assert!(config.features.enable_registration);
    assert!(!config.features.enable_world_map);
}

#[test]
fn each_required_table_is_enforced() {
    for section in ["[server]", "[database]", "[templates]"] {
        let text = full_document().replace(section, "[left_out_marker]");
        let message = shape_message(&text);
        assert!(message.contains("missing required table"));
        assert!(message.contains(section.trim_matches(['[', ']'])));
    }
}

#[test]
fn each_required_field_is_enforced() {
    for field in ["port = 9090", "url = \"postgres://db/vallheru\"", "template_root = \"/srv/templates\""]
    {
        let text = full_document().replace(field, "");
        let message = shape_message(&text);
        assert!(message.contains("missing required field"));
        assert!(message.contains(field.split(' ').next().unwrap()));
    }
}

#[test]
fn each_optional_field_defaults() {
    let text = full_document()
        .replace("host = \"0.0.0.0\"\n", "")
        .replace("workers = 2\n", "")
        .replace("request_timeout_secs = 60\n", "")
        .replace("pool_size = 3\n", "")
        .replace("connect_timeout_secs = 9\n", "")
        .replace("hot_reload = true\n", "");
    let config = AppConfig::from_toml_text("conf.toml", &text).unwrap();
    assert_eq!(config.server.host, "127.0.0.1");
    assert_eq!(config.server.workers, 4);
    assert_eq!(config.server.request_timeout_secs, 30);
    assert_eq!(config.database.pool_size, 10);
    assert_eq!(config.database.connect_timeout_secs, 5);
    assert!(!config.templates.hot_reload);
}

#[test]
fn features_absent_table_turns_both_on() {
    let text = full_document().replace(
        "[features]\nenable_registration = true\nenable_world_map = false\n",
        "",
    );
    let config = AppConfig::from_toml_text("conf.toml", &text).unwrap();
    assert!(config.features.enable_registration);
    assert!(config.features.enable_world_map);
}

#[test]
fn features_present_table_defaults_each_toggle_off() {
    let text = full_document().replace(
        "enable_registration = true\nenable_world_map = false\n",
        "",
    );
    let config = AppConfig::from_toml_text("conf.toml", &text).unwrap();
    assert!(!config.features.enable_registration);
    assert!(!config.features.enable_world_map);
}

#[test]
fn unknown_keys_at_any_depth_change_nothing() {
    let plain = AppConfig::from_toml_text("conf.toml", &full_document()).unwrap();
    let mut text = full_document();
    text = text.replace("port = 9090", "port = 9090\nbanner = \"hi\"");
    text = text.replace("hot_reload = true", "hot_reload = true\ncache = 12");
    text.push_str("\n[extra_section]\nanything = 1.5\n");
    text.push_str("\n[server.nested]\ndeeper = { deepest = \"x\" }\n");
    let decorated = AppConfig::from_toml_text("conf.toml", &text).unwrap();
    assert_eq!(plain.render(), decorated.render());
}

#[test]
fn empty_host_is_rejected() {
    let message = shape_message(&full_document().replace("host = \"0.0.0.0\"", "host = \"\""));
    assert!(message.contains("field `server.host` has the wrong type"));
}

#[test]
fn absent_host_still_defaults() {
    let text = full_document().replace("host = \"0.0.0.0\"\n", "");
    let config = AppConfig::from_toml_text("conf.toml", &text).unwrap();
    assert_eq!(config.server.host, "127.0.0.1");
}

#[test]
fn wrong_type_is_reported() {
    let message = shape_message(&full_document().replace("port = 9090", "port = \"9090\""));
    assert!(message.contains("field `server.port` has the wrong type"));
}

#[test]
fn section_that_is_no_table_is_reported() {
    let trimmed = full_document().replace(
        "[features]\nenable_registration = true\nenable_world_map = false\n",
        "",
    );
    let text = format!("features = 3\n{trimmed}");
    let message = shape_message(&text);
    assert!(message.contains("`features` is not a table"));
}

#[test]
fn negative_integer_is_out_of_range() {
    let message = shape_message(&full_document().replace("workers = 2", "workers = -1"));
    assert!(message.contains("field `server.workers` is out of range"));
}

#[test]
fn port_upper_bound_is_inclusive() {
    let text = full_document().replace("port = 9090", "port = 65535");
    let config = AppConfig::from_toml_text("conf.toml", &text).unwrap();
    assert_eq!(config.server.port, 65535);
}

#[test]
fn pool_size_width_is_enforced() {
    let message =
        shape_message(&full_document().replace("pool_size = 3", "pool_size = 4294967296"));
    assert!(message.contains("field `database.pool_size` is out of range"));
}
