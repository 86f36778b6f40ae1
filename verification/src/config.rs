//! The configuration records and their defaults.
//!
//! Four sections under one root: `server`, `database`, `templates`,
//! `features`. Every field is a plain scalar; the value is built once by the
//! loader and is read-only afterwards.

use vstd::prelude::*;

verus! {

/// The fully populated configuration: every optional field already holds its
/// default if the document omitted it.
#[derive(Clone, Debug)]
pub struct AppConfig {
    pub server: ServerConfig,
    pub database: DatabaseConfig,
    pub templates: TemplateConfig,
    pub features: FeatureToggles,
}

#[derive(Clone, Debug)]
pub struct ServerConfig {
    /// Non-empty text; a loaded configuration never holds the empty string
    /// here — the binder rejects it, and an absent host gets the default.
    pub host: String,
    pub port: u16,
    pub workers: usize,
    pub request_timeout_secs: u64,
}

#[derive(Clone, Debug)]
pub struct DatabaseConfig {
    pub url: String,
    pub pool_size: u32,
    pub connect_timeout_secs: u64,
}

#[derive(Clone, Debug)]
pub struct TemplateConfig {
    /// The template directory, as the text of the path; it need not exist at
    /// load time.
    pub template_root: String,
    pub hot_reload: bool,
}

#[derive(Clone, Debug)]
pub struct FeatureToggles {
    pub enable_registration: bool,
    pub enable_world_map: bool,
}

/// Mathematical image of `AppConfig`: text fields become sequences of
/// characters.
#[verifier::ext_equal]
pub struct AppConfigV {
    pub server: ServerConfigV,
    pub database: DatabaseConfigV,
    pub templates: TemplateConfigV,
    pub features: FeatureTogglesV,
}

#[verifier::ext_equal]
pub struct ServerConfigV {
    pub host: Seq<char>,
    pub port: u16,
    pub workers: usize,
    pub request_timeout_secs: u64,
}

#[verifier::ext_equal]
pub struct DatabaseConfigV {
    pub url: Seq<char>,
    pub pool_size: u32,
    pub connect_timeout_secs: u64,
}

#[verifier::ext_equal]
pub struct TemplateConfigV {
    pub template_root: Seq<char>,
    pub hot_reload: bool,
}

#[verifier::ext_equal]
pub struct FeatureTogglesV {
    pub enable_registration: bool,
    pub enable_world_map: bool,
}

impl View for AppConfig {
    type V = AppConfigV;

    open spec fn view(&self) -> AppConfigV {
        AppConfigV {
            server: self.server@,
            database: self.database@,
            templates: self.templates@,
            features: self.features@,
        }
    }
}

impl View for ServerConfig {
    type V = ServerConfigV;

    open spec fn view(&self) -> ServerConfigV {
        ServerConfigV {
            host: self.host@,
            port: self.port,
            workers: self.workers,
            request_timeout_secs: self.request_timeout_secs,
        }
    }
}

impl View for DatabaseConfig {
    type V = DatabaseConfigV;

    open spec fn view(&self) -> DatabaseConfigV {
        DatabaseConfigV {
            url: self.url@,
            pool_size: self.pool_size,
            connect_timeout_secs: self.connect_timeout_secs,
        }
    }
}

impl View for TemplateConfig {
    type V = TemplateConfigV;

    open spec fn view(&self) -> TemplateConfigV {
        TemplateConfigV {
            template_root: self.template_root@,
            hot_reload: self.hot_reload,
        }
    }
}

impl View for FeatureToggles {
    type V = FeatureTogglesV;

    open spec fn view(&self) -> FeatureTogglesV {
        FeatureTogglesV {
            enable_registration: self.enable_registration,
            enable_world_map: self.enable_world_map,
        }
    }
}

/// The host a server listens on when the document names none.
pub open spec fn spec_default_host() -> Seq<char> {
    "127.0.0.1"@
}

pub fn default_host() -> (r: String)
    ensures
        r@ == spec_default_host(),
{
    "127.0.0.1".to_owned()
}

pub fn default_workers() -> (r: usize)
    ensures
        r == 4usize,
{
    4
}

pub fn default_request_timeout_secs() -> (r: u64)
    ensures
        r == 30u64,
{
    30
}

pub fn default_pool_size() -> (r: u32)
    ensures
        r == 10u32,
{
    10
}

pub fn default_connect_timeout_secs() -> (r: u64)
    ensures
        r == 5u64,
{
    5
}

/// The toggles a document gets when it has no `[features]` table at all:
/// both switched on. Inside a `[features]` table that is present, an absent
/// toggle instead defaults to `false`; the binder states that distinction.
impl Default for FeatureToggles {
    fn default() -> (r: Self)
        ensures
            r@ == (FeatureTogglesV { enable_registration: true, enable_world_map: true }),
    {
        FeatureToggles { enable_registration: true, enable_world_map: true }
    }
}

} // verus!
