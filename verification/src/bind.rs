//! Projection of a parsed document onto the schema.
//!
//! The binder walks the four sections in a fixed order — server, database,
//! templates, features — and inside each section the fields in their schema
//! order. It stops at the first offence: a missing required table or field,
//! a value of the wrong kind (an empty string where non-empty text is
//! declared counts as one), or an integer outside the field's width. For
//! every absent optional field it substitutes the documented default. Keys
//! the schema does not know are passed over in silence, at every depth.

use vstd::prelude::*;

use crate::config::AppConfig;
use crate::config::AppConfigV;
use crate::config::DatabaseConfig;
use crate::config::DatabaseConfigV;
use crate::config::FeatureToggles;
use crate::config::FeatureTogglesV;
use crate::config::ServerConfig;
use crate::config::ServerConfigV;
use crate::config::TemplateConfig;
use crate::config::TemplateConfigV;
use crate::config::default_connect_timeout_secs;
use crate::config::default_host;
use crate::config::default_pool_size;
use crate::config::default_request_timeout_secs;
use crate::config::default_workers;
use crate::config::spec_default_host;
use crate::doc_model::DocV;
use crate::doc_model::Document;
use crate::doc_model::Scalar;
use crate::doc_model::ScalarV;
use crate::doc_model::Section;
use crate::doc_model::SectionV;
use crate::doc_model::TopV;
use crate::doc_model::TopValue;
use crate::doc_model::lookup;

verus! {

/// Why a syntactically valid document does not fit the schema. Each variant
/// names the offending place.
#[derive(Debug)]
pub enum ShapeIssue {
    /// A required top-level table is absent.
    MissingTable { section: String },
    /// A top-level key the schema expects to be a table holds something
    /// else.
    NotATable { section: String },
    /// A required field is absent from its section.
    MissingField { section: String, field: String },
    /// A field holds a value of the wrong kind.
    WrongType { section: String, field: String },
    /// An integer field lies outside the field's declared width.
    OutOfRange { section: String, field: String },
}

/// Mathematical image of a `ShapeIssue`.
#[verifier::ext_equal]
pub enum ShapeIssueV {
    MissingTable { section: Seq<char> },
    NotATable { section: Seq<char> },
    MissingField { section: Seq<char>, field: Seq<char> },
    WrongType { section: Seq<char>, field: Seq<char> },
    OutOfRange { section: Seq<char>, field: Seq<char> },
}

impl View for ShapeIssue {
    type V = ShapeIssueV;

    open spec fn view(&self) -> ShapeIssueV {
        match self {
            ShapeIssue::MissingTable { section } => ShapeIssueV::MissingTable {
                section: section@,
            },
            ShapeIssue::NotATable { section } => ShapeIssueV::NotATable { section: section@ },
            ShapeIssue::MissingField { section, field } => ShapeIssueV::MissingField {
                section: section@,
                field: field@,
            },
            ShapeIssue::WrongType { section, field } => ShapeIssueV::WrongType {
                section: section@,
                field: field@,
            },
            ShapeIssue::OutOfRange { section, field } => ShapeIssueV::OutOfRange {
                section: section@,
                field: field@,
            },
        }
    }
}

/// The section named `name`, or the issue that stops the binder there.
pub open spec fn spec_section(d: DocV, name: Seq<char>) -> Result<SectionV, ShapeIssueV> {
    match lookup(d, name) {
        Option::None => Result::Err(ShapeIssueV::MissingTable { section: name }),
        Option::Some(TopV::Table(t)) => Result::Ok(t),
        Option::Some(TopV::Other) => Result::Err(ShapeIssueV::NotATable { section: name }),
    }
}

/// An optional non-empty text field: absent means `default`; a present
/// value must be text and must not be empty — the empty string does not
/// inhabit the field's declared type, so it is a wrong-type offence, not a
/// way back to the default.
pub open spec fn spec_text_field(
    t: SectionV,
    section: Seq<char>,
    field: Seq<char>,
    default: Seq<char>,
) -> Result<Seq<char>, ShapeIssueV> {
    match lookup(t, field) {
        Option::None => Result::Ok(default),
        Option::Some(ScalarV::Text(s)) => if s.len() > 0 {
            Result::Ok(s)
        } else {
            Result::Err(ShapeIssueV::WrongType { section, field })
        },
        Option::Some(_) => Result::Err(ShapeIssueV::WrongType { section, field }),
    }
}

/// A required text field: absent is an offence.
pub open spec fn spec_required_text(t: SectionV, section: Seq<char>, field: Seq<char>) -> Result<
    Seq<char>,
    ShapeIssueV,
> {
    match lookup(t, field) {
        Option::None => Result::Err(ShapeIssueV::MissingField { section, field }),
        Option::Some(ScalarV::Text(s)) => Result::Ok(s),
        Option::Some(_) => Result::Err(ShapeIssueV::WrongType { section, field }),
    }
}

/// An optional boolean field: absent means `default`.
pub open spec fn spec_bool_field(
    t: SectionV,
    section: Seq<char>,
    field: Seq<char>,
    default: bool,
) -> Result<bool, ShapeIssueV> {
    match lookup(t, field) {
        Option::None => Result::Ok(default),
        Option::Some(ScalarV::Boolean(b)) => Result::Ok(b),
        Option::Some(_) => Result::Err(ShapeIssueV::WrongType { section, field }),
    }
}

/// An integer field that must lie in `0 ..= max`. `default` is `None` for a
/// required field.
pub open spec fn spec_int_field(
    t: SectionV,
    section: Seq<char>,
    field: Seq<char>,
    max: int,
    default: Option<i64>,
) -> Result<i64, ShapeIssueV> {
    match lookup(t, field) {
        Option::None => match default {
            Option::Some(v) => Result::Ok(v),
            Option::None => Result::Err(ShapeIssueV::MissingField { section, field }),
        },
        Option::Some(ScalarV::Integer(i)) => if 0 <= i && i <= max {
            Result::Ok(i)
        } else {
            Result::Err(ShapeIssueV::OutOfRange { section, field })
        },
        Option::Some(_) => Result::Err(ShapeIssueV::WrongType { section, field }),
    }
}

/// The `[server]` section: `host` (non-empty text) and the timeouts are
/// optional, `port` is required and must fit in sixteen bits, `workers`
/// must fit in a machine word.
pub open spec fn spec_bind_server(t: SectionV) -> Result<ServerConfigV, ShapeIssueV> {
    match spec_text_field(t, "server"@, "host"@, spec_default_host()) {
        Result::Err(e) => Result::Err(e),
        Result::Ok(host) => match spec_int_field(t, "server"@, "port"@, u16::MAX as int, Option::None) {
            Result::Err(e) => Result::Err(e),
            Result::Ok(port) => match spec_int_field(
                t,
                "server"@,
                "workers"@,
                usize::MAX as int,
                Option::Some(4i64),
            ) {
                Result::Err(e) => Result::Err(e),
                Result::Ok(workers) => match spec_int_field(
                    t,
                    "server"@,
                    "request_timeout_secs"@,
                    u64::MAX as int,
                    Option::Some(30i64),
                ) {
                    Result::Err(e) => Result::Err(e),
                    Result::Ok(timeout) => Result::Ok(
                        ServerConfigV {
                            host,
                            port: port as u16,
                            workers: workers as usize,
                            request_timeout_secs: timeout as u64,
                        },
                    ),
                },
            },
        },
    }
}

/// The `[database]` section: `url` is required, the sizes are optional.
pub open spec fn spec_bind_database(t: SectionV) -> Result<DatabaseConfigV, ShapeIssueV> {
    match spec_required_text(t, "database"@, "url"@) {
        Result::Err(e) => Result::Err(e),
        Result::Ok(url) => match spec_int_field(
            t,
            "database"@,
            "pool_size"@,
            u32::MAX as int,
            Option::Some(10i64),
        ) {
            Result::Err(e) => Result::Err(e),
            Result::Ok(pool) => match spec_int_field(
                t,
                "database"@,
                "connect_timeout_secs"@,
                u64::MAX as int,
                Option::Some(5i64),
            ) {
                Result::Err(e) => Result::Err(e),
                Result::Ok(timeout) => Result::Ok(
                    DatabaseConfigV {
                        url,
                        pool_size: pool as u32,
                        connect_timeout_secs: timeout as u64,
                    },
                ),
            },
        },
    }
}

/// The `[templates]` section: `template_root` is required, `hot_reload`
/// defaults to `false`.
pub open spec fn spec_bind_templates(t: SectionV) -> Result<TemplateConfigV, ShapeIssueV> {
    match spec_required_text(t, "templates"@, "template_root"@) {
        Result::Err(e) => Result::Err(e),
        Result::Ok(root) => match spec_bool_field(t, "templates"@, "hot_reload"@, false) {
            Result::Err(e) => Result::Err(e),
            Result::Ok(hot) => Result::Ok(TemplateConfigV { template_root: root, hot_reload: hot }),
        },
    }
}

/// The `[features]` table is the one section with asymmetric defaults: a
/// document without the table gets both toggles `true`; once the table is
/// present, each absent toggle is `false`.
pub open spec fn spec_bind_features(d: DocV) -> Result<FeatureTogglesV, ShapeIssueV> {
    match lookup(d, "features"@) {
        Option::None => Result::Ok(
            FeatureTogglesV { enable_registration: true, enable_world_map: true },
        ),
        Option::Some(TopV::Other) => Result::Err(
            ShapeIssueV::NotATable { section: "features"@ },
        ),
        Option::Some(TopV::Table(t)) => match spec_bool_field(
            t,
            "features"@,
            "enable_registration"@,
            false,
        ) {
            Result::Err(e) => Result::Err(e),
            Result::Ok(reg) => match spec_bool_field(t, "features"@, "enable_world_map"@, false) {
                Result::Err(e) => Result::Err(e),
                Result::Ok(map_on) => Result::Ok(
                    FeatureTogglesV { enable_registration: reg, enable_world_map: map_on },
                ),
            },
        },
    }
}

/// The whole projection, sections in their fixed order, first offence wins.
pub open spec fn spec_bind(d: DocV) -> Result<AppConfigV, ShapeIssueV> {
    match spec_section(d, "server"@) {
        Result::Err(e) => Result::Err(e),
        Result::Ok(st) => match spec_bind_server(st) {
            Result::Err(e) => Result::Err(e),
            Result::Ok(server) => match spec_section(d, "database"@) {
                Result::Err(e) => Result::Err(e),
                Result::Ok(dt) => match spec_bind_database(dt) {
                    Result::Err(e) => Result::Err(e),
                    Result::Ok(database) => match spec_section(d, "templates"@) {
                        Result::Err(e) => Result::Err(e),
                        Result::Ok(tt) => match spec_bind_templates(tt) {
                            Result::Err(e) => Result::Err(e),
                            Result::Ok(templates) => match spec_bind_features(d) {
                                Result::Err(e) => Result::Err(e),
                                Result::Ok(features) => Result::Ok(
                                    AppConfigV { server, database, templates, features },
                                ),
                            },
                        },
                    },
                },
            },
        },
    }
}

fn wrong_type(section: &str, field: &str) -> (r: ShapeIssue)
    ensures
        r@ == (ShapeIssueV::WrongType { section: section@, field: field@ }),
{
    let r = ShapeIssue::WrongType { section: section.to_owned(), field: field.to_owned() };
    proof {
        assert(r@ =~= ShapeIssueV::WrongType { section: section@, field: field@ });
    }
    r
}

fn missing_field(section: &str, field: &str) -> (r: ShapeIssue)
    ensures
        r@ == (ShapeIssueV::MissingField { section: section@, field: field@ }),
{
    let r = ShapeIssue::MissingField { section: section.to_owned(), field: field.to_owned() };
    proof {
        assert(r@ =~= ShapeIssueV::MissingField { section: section@, field: field@ });
    }
    r
}

fn out_of_range(section: &str, field: &str) -> (r: ShapeIssue)
    ensures
        r@ == (ShapeIssueV::OutOfRange { section: section@, field: field@ }),
{
    let r = ShapeIssue::OutOfRange { section: section.to_owned(), field: field.to_owned() };
    proof {
        assert(r@ =~= ShapeIssueV::OutOfRange { section: section@, field: field@ });
    }
    r
}

fn text_field(t: &Section, section: &str, field: &str, default: &str) -> (r: Result<
    String,
    ShapeIssue,
>)
    ensures
        match r {
            Result::Ok(s) => spec_text_field(t@, section@, field@, default@) == Result::Ok::<
                Seq<char>,
                ShapeIssueV,
            >(s@),
            Result::Err(e) => spec_text_field(t@, section@, field@, default@) == Result::Err::<
                Seq<char>,
                ShapeIssueV,
            >(e@),
        },
{
    match t.get(field) {
        Option::None => Result::Ok(default.to_owned()),
        Option::Some(Scalar::Text(s)) => if s.as_str().is_empty() {
            Result::Err(wrong_type(section, field))
        } else {
            Result::Ok(s.clone())
        },
        Option::Some(_) => Result::Err(wrong_type(section, field)),
    }
}

fn required_text(t: &Section, section: &str, field: &str) -> (r: Result<String, ShapeIssue>)
    ensures
        match r {
            Result::Ok(s) => spec_required_text(t@, section@, field@) == Result::Ok::<
                Seq<char>,
                ShapeIssueV,
            >(s@),
            Result::Err(e) => spec_required_text(t@, section@, field@) == Result::Err::<
                Seq<char>,
                ShapeIssueV,
            >(e@),
        },
{
    match t.get(field) {
        Option::None => Result::Err(missing_field(section, field)),
        Option::Some(Scalar::Text(s)) => Result::Ok(s.clone()),
        Option::Some(_) => Result::Err(wrong_type(section, field)),
    }
}

fn bool_field(t: &Section, section: &str, field: &str, default: bool) -> (r: Result<
    bool,
    ShapeIssue,
>)
    ensures
        match r {
            Result::Ok(b) => spec_bool_field(t@, section@, field@, default) == Result::Ok::<
                bool,
                ShapeIssueV,
            >(b),
            Result::Err(e) => spec_bool_field(t@, section@, field@, default) == Result::Err::<
                bool,
                ShapeIssueV,
            >(e@),
        },
{
    match t.get(field) {
        Option::None => Result::Ok(default),
        Option::Some(Scalar::Boolean(b)) => Result::Ok(*b),
        Option::Some(_) => Result::Err(wrong_type(section, field)),
    }
}

fn int_field(t: &Section, section: &str, field: &str, max: u64, default: Option<i64>) -> (r:
    Result<i64, ShapeIssue>)
    ensures
        match r {
            Result::Ok(i) => spec_int_field(t@, section@, field@, max as int, default)
                == Result::Ok::<i64, ShapeIssueV>(i),
            Result::Err(e) => spec_int_field(t@, section@, field@, max as int, default)
                == Result::Err::<i64, ShapeIssueV>(e@),
        },
{
    match t.get(field) {
        Option::None => match default {
            Option::Some(v) => Result::Ok(v),
            Option::None => Result::Err(missing_field(section, field)),
        },
        Option::Some(Scalar::Integer(i)) => {
            if *i >= 0 && (*i as u64) <= max {
                Result::Ok(*i)
            } else {
                Result::Err(out_of_range(section, field))
            }
        },
        Option::Some(_) => Result::Err(wrong_type(section, field)),
    }
}

fn bind_server(t: &Section) -> (r: Result<ServerConfig, ShapeIssue>)
    ensures
        match r {
            Result::Ok(c) => spec_bind_server(t@) == Result::Ok::<ServerConfigV, ShapeIssueV>(c@),
            Result::Err(e) => spec_bind_server(t@) == Result::Err::<ServerConfigV, ShapeIssueV>(
                e@,
            ),
        },
{
    let host_default = default_host();
    let host = match text_field(t, "server", "host", host_default.as_str()) {
        Result::Ok(v) => v,
        Result::Err(e) => { return Result::Err(e) },
    };
    let port = match int_field(t, "server", "port", u16::MAX as u64, Option::None) {
        Result::Ok(v) => v,
        Result::Err(e) => { return Result::Err(e) },
    };
    let workers = match int_field(
        t,
        "server",
        "workers",
        usize::MAX as u64,
        Option::Some(default_workers() as i64),
    ) {
        Result::Ok(v) => v,
        Result::Err(e) => { return Result::Err(e) },
    };
    let timeout = match int_field(
        t,
        "server",
        "request_timeout_secs",
        u64::MAX,
        Option::Some(default_request_timeout_secs() as i64),
    ) {
        Result::Ok(v) => v,
        Result::Err(e) => { return Result::Err(e) },
    };
    let c = ServerConfig {
        host,
        port: port as u16,
        workers: workers as usize,
        request_timeout_secs: timeout as u64,
    };
    proof {
        assert(spec_bind_server(t@) matches Result::Ok(v) && v =~= c@);
    }
    Result::Ok(c)
}

fn bind_database(t: &Section) -> (r: Result<DatabaseConfig, ShapeIssue>)
    ensures
        match r {
            Result::Ok(c) => spec_bind_database(t@) == Result::Ok::<DatabaseConfigV, ShapeIssueV>(
                c@,
            ),
            Result::Err(e) => spec_bind_database(t@) == Result::Err::<DatabaseConfigV, ShapeIssueV>(
                e@,
            ),
        },
{
    let url = match required_text(t, "database", "url") {
        Result::Ok(v) => v,
        Result::Err(e) => { return Result::Err(e) },
    };
    let pool = match int_field(
        t,
        "database",
        "pool_size",
        u32::MAX as u64,
        Option::Some(default_pool_size() as i64),
    ) {
        Result::Ok(v) => v,
        Result::Err(e) => { return Result::Err(e) },
    };
    let timeout = match int_field(
        t,
        "database",
        "connect_timeout_secs",
        u64::MAX,
        Option::Some(default_connect_timeout_secs() as i64),
    ) {
        Result::Ok(v) => v,
        Result::Err(e) => { return Result::Err(e) },
    };
    let c = DatabaseConfig { url, pool_size: pool as u32, connect_timeout_secs: timeout as u64 };
    proof {
        assert(spec_bind_database(t@) matches Result::Ok(v) && v =~= c@);
    }
    Result::Ok(c)
}

fn bind_templates(t: &Section) -> (r: Result<TemplateConfig, ShapeIssue>)
    ensures
        match r {
            Result::Ok(c) => spec_bind_templates(t@) == Result::Ok::<TemplateConfigV, ShapeIssueV>(
                c@,
            ),
            Result::Err(e) => spec_bind_templates(t@) == Result::Err::<
                TemplateConfigV,
                ShapeIssueV,
            >(e@),
        },
{
    let root = match required_text(t, "templates", "template_root") {
        Result::Ok(v) => v,
        Result::Err(e) => { return Result::Err(e) },
    };
    let hot = match bool_field(t, "templates", "hot_reload", false) {
        Result::Ok(v) => v,
        Result::Err(e) => { return Result::Err(e) },
    };
    let c = TemplateConfig { template_root: root, hot_reload: hot };
    proof {
        assert(spec_bind_templates(t@) matches Result::Ok(v) && v =~= c@);
    }
    Result::Ok(c)
}

fn bind_features(d: &Document) -> (r: Result<FeatureToggles, ShapeIssue>)
    ensures
        match r {
            Result::Ok(c) => spec_bind_features(d@) == Result::Ok::<FeatureTogglesV, ShapeIssueV>(
                c@,
            ),
            Result::Err(e) => spec_bind_features(d@) == Result::Err::<
                FeatureTogglesV,
                ShapeIssueV,
            >(e@),
        },
{
    let t = match d.get("features") {
        Option::None => { return Result::Ok(FeatureToggles::default()) },
        Option::Some(TopValue::Other) => {
            let section: String = "features".to_owned();
            let e = ShapeIssue::NotATable { section };
            proof {
                assert(e@ =~= ShapeIssueV::NotATable { section: "features"@ });
            }
            return Result::Err(e)
        },
        Option::Some(TopValue::Table(t)) => t,
    };
    let reg = match bool_field(t, "features", "enable_registration", false) {
        Result::Ok(v) => v,
        Result::Err(e) => { return Result::Err(e) },
    };
    let map_on = match bool_field(t, "features", "enable_world_map", false) {
        Result::Ok(v) => v,
        Result::Err(e) => { return Result::Err(e) },
    };
    Result::Ok(FeatureToggles { enable_registration: reg, enable_world_map: map_on })
}

fn get_section<'a>(d: &'a Document, name: &str) -> (r: Result<&'a Section, ShapeIssue>)
    ensures
        match r {
            Result::Ok(s) => spec_section(d@, name@) == Result::Ok::<SectionV, ShapeIssueV>(s@),
            Result::Err(e) => spec_section(d@, name@) == Result::Err::<SectionV, ShapeIssueV>(e@),
        },
{
    match d.get(name) {
        Option::None => {
            let e = ShapeIssue::MissingTable { section: name.to_owned() };
            proof {
                assert(e@ =~= ShapeIssueV::MissingTable { section: name@ });
            }
            Result::Err(e)
        },
        Option::Some(TopValue::Table(s)) => Result::Ok(s),
        Option::Some(TopValue::Other) => {
            let e = ShapeIssue::NotATable { section: name.to_owned() };
            proof {
                assert(e@ =~= ShapeIssueV::NotATable { section: name@ });
            }
            Result::Err(e)
        },
    }
}

/// The binder: the document either fits the schema, and every field of the
/// result is the document's value or the documented default, or the first
/// offence in section order comes back as the issue.
pub fn bind_document(d: &Document) -> (r: Result<AppConfig, ShapeIssue>)
    ensures
        match r {
            Result::Ok(c) => spec_bind(d@) == Result::Ok::<AppConfigV, ShapeIssueV>(c@),
            Result::Err(e) => spec_bind(d@) == Result::Err::<AppConfigV, ShapeIssueV>(e@),
        },
{
    let st = match get_section(d, "server") {
        Result::Ok(v) => v,
        Result::Err(e) => { return Result::Err(e) },
    };
    let server = match bind_server(st) {
        Result::Ok(v) => v,
        Result::Err(e) => { return Result::Err(e) },
    };
    let dt = match get_section(d, "database") {
        Result::Ok(v) => v,
        Result::Err(e) => { return Result::Err(e) },
    };
    let database = match bind_database(dt) {
        Result::Ok(v) => v,
        Result::Err(e) => { return Result::Err(e) },
    };
    let tt = match get_section(d, "templates") {
        Result::Ok(v) => v,
        Result::Err(e) => { return Result::Err(e) },
    };
    let templates = match bind_templates(tt) {
        Result::Ok(v) => v,
        Result::Err(e) => { return Result::Err(e) },
    };
    let features = match bind_features(d) {
        Result::Ok(v) => v,
        Result::Err(e) => { return Result::Err(e) },
    };
    let c = AppConfig { server, database, templates, features };
    proof {
        assert(spec_bind(d@) matches Result::Ok(v) && v =~= c@);
    }
    Result::Ok(c)
}

} // verus!
