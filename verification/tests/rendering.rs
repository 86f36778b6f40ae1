//! The renderer's fixed format, and the loader's indifference to anything
//! but the document's bytes.

use game_web::AppConfig;
use game_web::DatabaseConfig;
use game_web::FeatureToggles;
use game_web::ServerConfig;
use game_web::TemplateConfig;
use game_web::bool_text;
use game_web::decimal_text;

fn sample() -> AppConfig {
    AppConfig {
        server: ServerConfig {
            host: "example.net".to_string(),
            port: 443,
            workers: 0,
            request_timeout_secs: 18446744073709551615,
        },
        database: DatabaseConfig {
            url: "postgres://user:pw@db/x".to_string(),
            pool_size: 4294967295,
            connect_timeout_secs: 1,
        },
        templates: TemplateConfig { template_root: "rel/path".to_string(), hot_reload: true },
        features: FeatureToggles { enable_registration: false, enable_world_map: true },
    }
}

#[test]
fn decimal_text_exact_values() {
    assert_eq!(decimal_text(0), "0");
    assert_eq!(decimal_text(7), "7");
    assert_eq!(decimal_text(10), "10");
    assert_eq!(decimal_text(8080), "8080");
    assert_eq!(decimal_text(65535), "65535");
    assert_eq!(decimal_text(1000000), "1000000");
    assert_eq!(decimal_text(u64::MAX), "18446744073709551615");
}

#[test]
fn bool_text_tokens() {
    assert_eq!(bool_text(true), "true");
    assert_eq!(bool_text(false), "false");
}

#[test]
fn section_lines_have_fixed_field_order() {
    let c = sample();
    assert_eq!(
        c.server.render(),
        "host=example.net port=443 workers=0 request_timeout_secs=18446744073709551615"
    );
    assert_eq!(
        c.database.render(),
        "url=postgres://user:pw@db/x pool_size=4294967295 connect_timeout_secs=1"
    );
    assert_eq!(c.templates.render(), "template_root=rel/path hot_reload=true");
    assert_eq!(c.features.render(), "enable_registration=false enable_world_map=true");
}

#[test]
fn render_joins_lines_without_trailing_newline() {
    let rendered = sample().render();
    assert_eq!(rendered.lines().count(), 4);
    assert!(!rendered.ends_with('\n'));
    assert!(rendered.starts_with("Server: "));
    assert!(rendered.contains("\nDatabase: "));
    assert!(rendered.contains("\nTemplates: "));
    assert!(rendered.contains("\nFeatures: "));
}

#[test]
fn render_is_stable_across_invocations() {
    let c = sample();
    assert_eq!(c.render(), c.render());
}

#[test]
fn load_depends_only_on_the_bytes() {
    let text = "\
[server]
port = 1

[database]
url = \"u\"

[templates]
template_root = \"t\"
";
    let first = AppConfig::from_toml_text("a.toml", text).unwrap().render();
    let second = AppConfig::from_toml_text("a.toml", text).unwrap().render();
    assert_eq!(first, second);
}

#[test]
fn feature_defaults_come_from_default_impl() {
    let toggles = FeatureToggles::default();
    assert!(toggles.enable_registration);
    assert!(toggles.enable_world_map);
}

#[test]
fn default_helpers_match_schema() {
    assert_eq!(game_web::default_host(), "127.0.0.1");
    assert_eq!(game_web::default_workers(), 4);
    assert_eq!(game_web::default_request_timeout_secs(), 30);
    assert_eq!(game_web::default_pool_size(), 10);
    assert_eq!(game_web::default_connect_timeout_secs(), 5);
}
