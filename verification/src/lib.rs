//! Typed configuration for the game-web server entry point.
//!
//! The configuration is read from a TOML document: the document is parsed,
//! projected onto the schema (four sections of scalar fields), defaults are
//! substituted for absent optional fields, and the result can be rendered as
//! a fixed-format text block for operator logs.

mod bind;
mod config;
mod doc_model;
mod laws;
mod load;
mod render;
mod toml_bridge;

pub use bind::ShapeIssue;
pub use bind::ShapeIssueV;
pub use bind::bind_document;
pub use bind::spec_bind;
pub use bind::spec_bind_database;
pub use bind::spec_bind_features;
pub use bind::spec_bind_server;
pub use bind::spec_bind_templates;
pub use bind::spec_bool_field;
pub use bind::spec_int_field;
pub use bind::spec_required_text;
pub use bind::spec_section;
pub use bind::spec_text_field;
pub use config::AppConfig;
pub use config::AppConfigV;
pub use config::DatabaseConfig;
pub use config::DatabaseConfigV;
pub use config::FeatureToggles;
pub use config::FeatureTogglesV;
pub use config::ServerConfig;
pub use config::ServerConfigV;
pub use config::TemplateConfig;
pub use config::TemplateConfigV;
pub use config::default_connect_timeout_secs;
pub use config::spec_default_host;
pub use config::default_host;
pub use config::default_pool_size;
pub use config::default_request_timeout_secs;
pub use config::default_workers;
pub use doc_model::DocV;
pub use doc_model::Document;
pub use doc_model::Scalar;
pub use doc_model::ScalarV;
pub use doc_model::Section;
pub use doc_model::SectionV;
pub use doc_model::TopV;
pub use doc_model::TopValue;
pub use doc_model::lookup;
pub use laws::add_field;
pub use laws::lemma_default_substitution;
pub use laws::lemma_empty_host_rejected;
pub use laws::lemma_load_deterministic;
pub use laws::lemma_features_asymmetry;
pub use laws::lemma_required_fields;
pub use laws::lemma_required_tables;
pub use laws::lemma_unknown_field_ignored;
pub use laws::lemma_unknown_table_ignored;
pub use laws::push_field;
pub use laws::remove_field;
pub use laws::remove_key;
pub use laws::schema_field;
pub use laws::schema_section;
pub use laws::strip_field;
pub use load::ConfigError;
pub use load::ConfigErrorV;
pub use load::loaded_from_text;
pub use load::spec_error_text;
pub use load::spec_issue_text;
pub use render::bool_text;
pub use render::decimal_text;
pub use render::spec_bool_text;
pub use render::spec_decimal;
pub use render::spec_digit;
pub use render::spec_render;
pub use render::spec_render_database;
pub use render::spec_render_features;
pub use render::spec_render_server;
pub use render::spec_render_templates;
