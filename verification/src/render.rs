//! Fixed-format rendering of a loaded configuration for operator logs.
//!
//! One line per section, in the order Server, Database, Templates, Features;
//! integers in plain decimal, booleans as `true`/`false`, no trailing
//! newline. The whole text is a function of the configuration value alone,
//! so repeated renderings are byte-identical.

use vstd::prelude::*;
use vstd::string::StringExecFns;

use crate::config::AppConfig;
use crate::config::AppConfigV;
use crate::config::DatabaseConfig;
use crate::config::DatabaseConfigV;
use crate::config::FeatureToggles;
use crate::config::FeatureTogglesV;
use crate::config::ServerConfig;
use crate::config::ServerConfigV;
use crate::config::TemplateConfig;
use crate::config::TemplateConfigV;

verus! {

/// The decimal digit character for `d`.
pub open spec fn spec_digit(d: int) -> char {
    if d == 0 {
        '0'
    } else if d == 1 {
        '1'
    } else if d == 2 {
        '2'
    } else if d == 3 {
        '3'
    } else if d == 4 {
        '4'
    } else if d == 5 {
        '5'
    } else if d == 6 {
        '6'
    } else if d == 7 {
        '7'
    } else if d == 8 {
        '8'
    } else {
        '9'
    }
}

/// The decimal numeral of `n`: most significant digit first, no sign, no
/// separators, and no leading zero except for `n == 0` itself.
pub open spec fn spec_decimal(n: int) -> Seq<char>
    recommends
        n >= 0,
    decreases n,
{
    if n < 10 {
        seq![spec_digit(n)]
    } else {
        spec_decimal(n / 10).push(spec_digit(n % 10))
    }
}

/// The rendering of a boolean: the lowercase literal token.
pub open spec fn spec_bool_text(b: bool) -> Seq<char> {
    if b {
        "true"@
    } else {
        "false"@
    }
}

pub open spec fn spec_render_server(s: ServerConfigV) -> Seq<char> {
    "host="@ + s.host + " port="@ + spec_decimal(s.port as int) + " workers="@ + spec_decimal(
        s.workers as int,
    ) + " request_timeout_secs="@ + spec_decimal(s.request_timeout_secs as int)
}

pub open spec fn spec_render_database(d: DatabaseConfigV) -> Seq<char> {
    "url="@ + d.url + " pool_size="@ + spec_decimal(d.pool_size as int)
        + " connect_timeout_secs="@ + spec_decimal(d.connect_timeout_secs as int)
}

pub open spec fn spec_render_templates(t: TemplateConfigV) -> Seq<char> {
    "template_root="@ + t.template_root + " hot_reload="@ + spec_bool_text(t.hot_reload)
}

pub open spec fn spec_render_features(f: FeatureTogglesV) -> Seq<char> {
    "enable_registration="@ + spec_bool_text(f.enable_registration) + " enable_world_map="@
        + spec_bool_text(f.enable_world_map)
}

/// The whole rendering: four labelled lines joined by single newlines, with
/// no newline after the last.
pub open spec fn spec_render(c: AppConfigV) -> Seq<char> {
    "Server: "@ + spec_render_server(c.server) + "\n"@ + "Database: "@ + spec_render_database(
        c.database,
    ) + "\n"@ + "Templates: "@ + spec_render_templates(c.templates) + "\n"@ + "Features: "@
        + spec_render_features(c.features)
}

fn digit_text(d: u64) -> (r: String)
    requires
        d < 10,
    ensures
        r@ == seq![spec_digit(d as int)],
{
    let s: &str = if d == 0 {
        "0"
    } else if d == 1 {
        "1"
    } else if d == 2 {
        "2"
    } else if d == 3 {
        "3"
    } else if d == 4 {
        "4"
    } else if d == 5 {
        "5"
    } else if d == 6 {
        "6"
    } else if d == 7 {
        "7"
    } else if d == 8 {
        "8"
    } else {
        "9"
    };
    proof {
        reveal_strlit("0");
        reveal_strlit("1");
        reveal_strlit("2");
        reveal_strlit("3");
        reveal_strlit("4");
        reveal_strlit("5");
        reveal_strlit("6");
        reveal_strlit("7");
        reveal_strlit("8");
        reveal_strlit("9");
        assert(s@ =~= seq![spec_digit(d as int)]);
    }
    s.to_owned()
}

/// The decimal numeral of `n` as text.
pub fn decimal_text(n: u64) -> (r: String)
    ensures
        r@ == spec_decimal(n as int),
    decreases n,
{
    if n < 10 {
        digit_text(n)
    } else {
        let mut prefix = decimal_text(n / 10);
        let last = digit_text(n % 10);
        prefix.append(last.as_str());
        proof {
            assert(prefix@ =~= spec_decimal(n as int));
        }
        prefix
    }
}

/// The boolean token as text.
pub fn bool_text(b: bool) -> (r: String)
    ensures
        r@ == spec_bool_text(b),
{
    if b {
        "true".to_owned()
    } else {
        "false".to_owned()
    }
}

impl ServerConfig {
    /// The `Server:` line's body.
    pub fn render(&self) -> (r: String)
        ensures
            r@ == spec_render_server(self@),
    {
        let mut out = String::new();
        out.append("host=");
        out.append(self.host.as_str());
        out.append(" port=");
        out.append(decimal_text(self.port as u64).as_str());
        out.append(" workers=");
        out.append(decimal_text(self.workers as u64).as_str());
        out.append(" request_timeout_secs=");
        out.append(decimal_text(self.request_timeout_secs).as_str());
        proof {
            assert(out@ =~= spec_render_server(self@));
        }
        out
    }
}

impl DatabaseConfig {
    /// The `Database:` line's body. The URL appears verbatim: any credentials
    /// embedded in it are not masked, and redaction is the caller's duty.
    pub fn render(&self) -> (r: String)
        ensures
            r@ == spec_render_database(self@),
    {
        let mut out = String::new();
        out.append("url=");
        out.append(self.url.as_str());
        out.append(" pool_size=");
        out.append(decimal_text(self.pool_size as u64).as_str());
        out.append(" connect_timeout_secs=");
        out.append(decimal_text(self.connect_timeout_secs).as_str());
        proof {
            assert(out@ =~= spec_render_database(self@));
        }
        out
    }
}

impl TemplateConfig {
    /// The `Templates:` line's body.
    pub fn render(&self) -> (r: String)
        ensures
            r@ == spec_render_templates(self@),
    {
        let mut out = String::new();
        out.append("template_root=");
        out.append(self.template_root.as_str());
        out.append(" hot_reload=");
        out.append(bool_text(self.hot_reload).as_str());
        proof {
            assert(out@ =~= spec_render_templates(self@));
        }
        out
    }
}

impl FeatureToggles {
    /// The `Features:` line's body.
    pub fn render(&self) -> (r: String)
        ensures
            r@ == spec_render_features(self@),
    {
        let mut out = String::new();
        out.append("enable_registration=");
        out.append(bool_text(self.enable_registration).as_str());
        out.append(" enable_world_map=");
        out.append(bool_text(self.enable_world_map).as_str());
        proof {
            assert(out@ =~= spec_render_features(self@));
        }
        out
    }
}

impl AppConfig {
    /// The full four-line rendering.
    pub fn render(&self) -> (r: String)
        ensures
            r@ == spec_render(self@),
    {
        let mut out = String::new();
        out.append("Server: ");
        out.append(self.server.render().as_str());
        out.append("\n");
        out.append("Database: ");
        out.append(self.database.render().as_str());
        out.append("\n");
        out.append("Templates: ");
        out.append(self.templates.render().as_str());
        out.append("\n");
        out.append("Features: ");
        out.append(self.features.render().as_str());
        proof {
            assert(out@ =~= spec_render(self@));
        }
        out
    }
}

} // verus!
