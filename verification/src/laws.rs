//! The schema's laws, proved of the binder.
//!
//! Each proof function here states one of the documented invariants of
//! loading over [`spec_bind`]: required fields are enforced, absent optional
//! fields get their documented defaults, the `[features]` table's defaults
//! are asymmetric, and keys the schema does not know never change the
//! outcome.

use vstd::prelude::*;

use crate::bind::ShapeIssueV;
use crate::bind::spec_bind;
use crate::bind::spec_bind_database;
use crate::bind::spec_bind_server;
use crate::bind::spec_bind_templates;
use crate::bind::spec_section;
use crate::config::AppConfig;
use crate::config::AppConfigV;
use crate::config::DatabaseConfigV;
use crate::config::FeatureTogglesV;
use crate::config::ServerConfigV;
use crate::config::TemplateConfigV;
use crate::config::spec_default_host;
use crate::doc_model::DocV;
use crate::doc_model::ScalarV;
use crate::doc_model::SectionV;
use crate::doc_model::TopV;
use crate::doc_model::lookup;
use crate::load::ConfigError;
use crate::load::loaded_from_text;
use crate::render::spec_render;

verus! {

/// The top-level table names the schema knows.
pub open spec fn schema_section(k: Seq<char>) -> bool {
    k == "server"@ || k == "database"@ || k == "templates"@ || k == "features"@
}

/// The field names the schema knows inside the section named `s`.
pub open spec fn schema_field(s: Seq<char>, f: Seq<char>) -> bool {
    (s == "server"@ && (f == "host"@ || f == "port"@ || f == "workers"@ || f
        == "request_timeout_secs"@)) || (s == "database"@ && (f == "url"@ || f == "pool_size"@ || f
        == "connect_timeout_secs"@)) || (s == "templates"@ && (f == "template_root"@ || f
        == "hot_reload"@)) || (s == "features"@ && (f == "enable_registration"@ || f
        == "enable_world_map"@))
}

/// `d` without any entry keyed `k`.
pub open spec fn remove_key<V>(d: Seq<(Seq<char>, V)>, k: Seq<char>) -> Seq<(Seq<char>, V)>
    decreases d.len(),
{
    if d.len() == 0 {
        d
    } else if d[0].0 == k {
        remove_key(d.skip(1), k)
    } else {
        seq![d[0]] + remove_key(d.skip(1), k)
    }
}

/// A table under `v` without its field `f`; anything but a table is left as
/// it is.
pub open spec fn strip_field(v: TopV, f: Seq<char>) -> TopV {
    match v {
        TopV::Table(t) => TopV::Table(remove_key(t, f)),
        TopV::Other => TopV::Other,
    }
}

/// `d` with the field `f` removed from every table under the key `s`.
pub open spec fn remove_field(d: DocV, s: Seq<char>, f: Seq<char>) -> DocV
    decreases d.len(),
{
    if d.len() == 0 {
        d
    } else {
        let head = if d[0].0 == s {
            (d[0].0, strip_field(d[0].1, f))
        } else {
            d[0]
        };
        seq![head] + remove_field(d.skip(1), s, f)
    }
}

/// A table under `v` with the entry `(f, w)` appended; anything but a table
/// is left as it is.
pub open spec fn push_field(v: TopV, f: Seq<char>, w: ScalarV) -> TopV {
    match v {
        TopV::Table(t) => TopV::Table(t.push((f, w))),
        TopV::Other => TopV::Other,
    }
}

/// `d` with the entry `(f, w)` appended to every table under the key `s`.
pub open spec fn add_field(d: DocV, s: Seq<char>, f: Seq<char>, w: ScalarV) -> DocV
    decreases d.len(),
{
    if d.len() == 0 {
        d
    } else {
        let head = if d[0].0 == s {
            (d[0].0, push_field(d[0].1, f, w))
        } else {
            d[0]
        };
        seq![head] + add_field(d.skip(1), s, f, w)
    }
}

proof fn lemma_lookup_remove_key<V>(d: Seq<(Seq<char>, V)>, k: Seq<char>, q: Seq<char>)
    ensures
        lookup(remove_key(d, k), q) == (if q == k {
            Option::<V>::None
        } else {
            lookup(d, q)
        }),
    decreases d.len(),
{
    if d.len() > 0 {
        lemma_lookup_remove_key(d.skip(1), k, q);
        if d[0].0 != k {
            let r = seq![d[0]] + remove_key(d.skip(1), k);
            assert(r[0] == d[0]);
            assert(r.skip(1) =~= remove_key(d.skip(1), k));
        }
    }
}

proof fn lemma_lookup_push<V>(d: Seq<(Seq<char>, V)>, k: Seq<char>, w: V, q: Seq<char>)
    ensures
        lookup(d.push((k, w)), q) == (if lookup(d, q) is Some {
            lookup(d, q)
        } else if q == k {
            Option::Some(w)
        } else {
            Option::<V>::None
        }),
    decreases d.len(),
{
    let r = d.push((k, w));
    if d.len() == 0 {
        assert(r[0] == (k, w));
        assert(r.skip(1) =~= Seq::<(Seq<char>, V)>::empty());
        assert(lookup(r.skip(1), q) is None);
        assert(lookup(d, q) is None);
    } else {
        assert(r[0] == d[0]);
        assert(r.skip(1) =~= d.skip(1).push((k, w)));
        lemma_lookup_push(d.skip(1), k, w, q);
    }
}

proof fn lemma_lookup_remove_field(d: DocV, s: Seq<char>, f: Seq<char>, q: Seq<char>)
    ensures
        lookup(remove_field(d, s, f), q) == (if q == s {
            match lookup(d, q) {
                Option::Some(v) => Option::Some(strip_field(v, f)),
                Option::None => Option::<TopV>::None,
            }
        } else {
            lookup(d, q)
        }),
    decreases d.len(),
{
    if d.len() > 0 {
        lemma_lookup_remove_field(d.skip(1), s, f, q);
        let head = if d[0].0 == s {
            (d[0].0, strip_field(d[0].1, f))
        } else {
            d[0]
        };
        let r = seq![head] + remove_field(d.skip(1), s, f);
        assert(r[0] == head);
        assert(r.skip(1) =~= remove_field(d.skip(1), s, f));
    }
}

proof fn lemma_lookup_add_field(d: DocV, s: Seq<char>, f: Seq<char>, w: ScalarV, q: Seq<char>)
    ensures
        lookup(add_field(d, s, f, w), q) == (if q == s {
            match lookup(d, q) {
                Option::Some(v) => Option::Some(push_field(v, f, w)),
                Option::None => Option::<TopV>::None,
            }
        } else {
            lookup(d, q)
        }),
    decreases d.len(),
{
    if d.len() > 0 {
        lemma_lookup_add_field(d.skip(1), s, f, w, q);
        let head = if d[0].0 == s {
            (d[0].0, push_field(d[0].1, f, w))
        } else {
            d[0]
        };
        let r = seq![head] + add_field(d.skip(1), s, f, w);
        assert(r[0] == head);
        assert(r.skip(1) =~= add_field(d.skip(1), s, f, w));
    }
}

/// Required-table enforcement: a document that binds loses each of its
/// three required tables only at the price of the matching shape offence.
pub proof fn lemma_required_tables(d: DocV)
    requires
        spec_bind(d) is Ok,
    ensures
        spec_bind(remove_key(d, "server"@)) == Result::Err::<AppConfigV, ShapeIssueV>(
            ShapeIssueV::MissingTable { section: "server"@ },
        ),
        spec_bind(remove_key(d, "database"@)) == Result::Err::<AppConfigV, ShapeIssueV>(
            ShapeIssueV::MissingTable { section: "database"@ },
        ),
        spec_bind(remove_key(d, "templates"@)) == Result::Err::<AppConfigV, ShapeIssueV>(
            ShapeIssueV::MissingTable { section: "templates"@ },
        ),
{
    lemma_lookup_remove_key(d, "server"@, "server"@);
    lemma_lookup_remove_key(d, "database"@, "server"@);
    lemma_lookup_remove_key(d, "database"@, "database"@);
    lemma_lookup_remove_key(d, "templates"@, "server"@);
    lemma_lookup_remove_key(d, "templates"@, "database"@);
    lemma_lookup_remove_key(d, "templates"@, "templates"@);
}

/// Required-field enforcement: a document that binds loses each of its
/// three required fields only at the price of the matching shape offence.
pub proof fn lemma_required_fields(d: DocV)
    requires
        spec_bind(d) is Ok,
    ensures
        spec_bind(remove_field(d, "server"@, "port"@)) == Result::Err::<AppConfigV, ShapeIssueV>(
            ShapeIssueV::MissingField { section: "server"@, field: "port"@ },
        ),
        spec_bind(remove_field(d, "database"@, "url"@)) == Result::Err::<AppConfigV, ShapeIssueV>(
            ShapeIssueV::MissingField { section: "database"@, field: "url"@ },
        ),
        spec_bind(remove_field(d, "templates"@, "template_root"@)) == Result::Err::<
            AppConfigV,
            ShapeIssueV,
        >(ShapeIssueV::MissingField { section: "templates"@, field: "template_root"@ }),
{
    // The section names are pairwise distinct; revealing the literals and
    // naming their lengths lets the prover see that.
    reveal_strlit("server");
    reveal_strlit("database");
    reveal_strlit("templates");
    assert("server"@.len() == 6);
    assert("database"@.len() == 8);
    assert("templates"@.len() == 9);
    assert("server"@ != "database"@);
    assert("server"@ != "templates"@);
    assert("database"@ != "templates"@);
    let d2 = remove_field(d, "server"@, "port"@);
    lemma_lookup_remove_field(d, "server"@, "port"@, "server"@);
    match spec_section(d, "server"@) {
        Result::Ok(t) => {
            assert(lookup(d, "server"@) == Option::Some(TopV::Table(t)));
            assert(lookup(d2, "server"@) == Option::Some(strip_field(TopV::Table(t), "port"@)));
            let t2 = remove_key(t, "port"@);
            assert(spec_section(d2, "server"@) == Result::Ok::<SectionV, ShapeIssueV>(t2));
            lemma_lookup_remove_key(t, "port"@, "host"@);
            lemma_lookup_remove_key(t, "port"@, "port"@);
            assert(lookup(t2, "port"@) is None);
            assert(spec_bind_server(t2) == Result::Err::<ServerConfigV, ShapeIssueV>(
                ShapeIssueV::MissingField { section: "server"@, field: "port"@ },
            ));
            assert(spec_bind(d2) == Result::Err::<AppConfigV, ShapeIssueV>(
                ShapeIssueV::MissingField { section: "server"@, field: "port"@ },
            ));
        },
        Result::Err(_) => {
            assert(false);
        },
    }
    let d3 = remove_field(d, "database"@, "url"@);
    lemma_lookup_remove_field(d, "database"@, "url"@, "server"@);
    lemma_lookup_remove_field(d, "database"@, "url"@, "database"@);
    assert(lookup(d3, "server"@) == lookup(d, "server"@));
    assert(spec_section(d3, "server"@) == spec_section(d, "server"@));
    match spec_section(d, "database"@) {
        Result::Ok(t) => {
            let t2 = remove_key(t, "url"@);
            assert(lookup(d, "database"@) == Option::Some(TopV::Table(t)));
            assert(spec_section(d3, "database"@) == Result::Ok::<SectionV, ShapeIssueV>(t2));
            lemma_lookup_remove_key(t, "url"@, "url"@);
            assert(lookup(t2, "url"@) is None);
            assert(spec_bind_database(t2) == Result::Err::<DatabaseConfigV, ShapeIssueV>(
                ShapeIssueV::MissingField { section: "database"@, field: "url"@ },
            ));
            assert(spec_bind(d3) == Result::Err::<AppConfigV, ShapeIssueV>(
                ShapeIssueV::MissingField { section: "database"@, field: "url"@ },
            ));
        },
        Result::Err(_) => {
            assert(false);
        },
    }
    let d4 = remove_field(d, "templates"@, "template_root"@);
    lemma_lookup_remove_field(d, "templates"@, "template_root"@, "server"@);
    lemma_lookup_remove_field(d, "templates"@, "template_root"@, "database"@);
    lemma_lookup_remove_field(d, "templates"@, "template_root"@, "templates"@);
    assert(lookup(d4, "server"@) == lookup(d, "server"@));
    assert(spec_section(d4, "server"@) == spec_section(d, "server"@));
    assert(lookup(d4, "database"@) == lookup(d, "database"@));
    assert(spec_section(d4, "database"@) == spec_section(d, "database"@));
    match spec_section(d, "templates"@) {
        Result::Ok(t) => {
            let t2 = remove_key(t, "template_root"@);
            assert(lookup(d, "templates"@) == Option::Some(TopV::Table(t)));
            assert(spec_section(d4, "templates"@) == Result::Ok::<SectionV, ShapeIssueV>(t2));
            lemma_lookup_remove_key(t, "template_root"@, "template_root"@);
            assert(lookup(t2, "template_root"@) is None);
            assert(spec_bind_templates(t2) == Result::Err::<TemplateConfigV, ShapeIssueV>(
                ShapeIssueV::MissingField { section: "templates"@, field: "template_root"@ },
            ));
            assert(spec_bind(d4) == Result::Err::<AppConfigV, ShapeIssueV>(
                ShapeIssueV::MissingField { section: "templates"@, field: "template_root"@ },
            ));
        },
        Result::Err(_) => {
            assert(false);
        },
    }
}

/// Default substitution: in a document that binds, every absent optional
/// field comes out as its documented default.
pub proof fn lemma_default_substitution(d: DocV, c: AppConfigV)
    requires
        spec_bind(d) == Result::Ok::<AppConfigV, ShapeIssueV>(c),
    ensures
        (spec_section(d, "server"@) matches Result::Ok(t) && lookup(t, "host"@) is None)
            ==> c.server.host == spec_default_host(),
        (spec_section(d, "server"@) matches Result::Ok(t) && lookup(t, "workers"@) is None)
            ==> c.server.workers == 4usize,
        (spec_section(d, "server"@) matches Result::Ok(t) && lookup(
            t,
            "request_timeout_secs"@,
        ) is None) ==> c.server.request_timeout_secs == 30u64,
        (spec_section(d, "database"@) matches Result::Ok(t) && lookup(t, "pool_size"@) is None)
            ==> c.database.pool_size == 10u32,
        (spec_section(d, "database"@) matches Result::Ok(t) && lookup(
            t,
            "connect_timeout_secs"@,
        ) is None) ==> c.database.connect_timeout_secs == 5u64,
        (spec_section(d, "templates"@) matches Result::Ok(t) && lookup(t, "hot_reload"@) is None)
            ==> c.templates.hot_reload == false,
        (spec_section(d, "features"@) matches Result::Ok(t) && lookup(
            t,
            "enable_registration"@,
        ) is None) ==> c.features.enable_registration == false,
        (spec_section(d, "features"@) matches Result::Ok(t) && lookup(
            t,
            "enable_world_map"@,
        ) is None) ==> c.features.enable_world_map == false,
{
}

/// The features asymmetry: no `[features]` table at all switches both
/// toggles on, while an empty `[features]` table switches both off.
pub proof fn lemma_features_asymmetry(d: DocV, c: AppConfigV)
    requires
        spec_bind(d) == Result::Ok::<AppConfigV, ShapeIssueV>(c),
    ensures
        lookup(d, "features"@) is None ==> c.features == (FeatureTogglesV {
            enable_registration: true,
            enable_world_map: true,
        }),
        (lookup(d, "features"@) matches Option::Some(TopV::Table(t)) && t.len() == 0)
            ==> c.features == (FeatureTogglesV {
            enable_registration: false,
            enable_world_map: false,
        }),
{
}

/// Unknown tables ignored: a top-level key the schema does not know can
/// come in, bound to anything, without changing the outcome.
pub proof fn lemma_unknown_table_ignored(d: DocV, k: Seq<char>, v: TopV)
    requires
        !schema_section(k),
    ensures
        spec_bind(d.push((k, v))) == spec_bind(d),
{
    lemma_lookup_push(d, k, v, "server"@);
    lemma_lookup_push(d, k, v, "database"@);
    lemma_lookup_push(d, k, v, "templates"@);
    lemma_lookup_push(d, k, v, "features"@);
}

/// Unknown fields ignored: a field name the enclosing section's schema does
/// not know can come in anywhere, bound to anything, without changing the
/// outcome. Together with [`lemma_unknown_table_ignored`] this covers extra
/// keys at any depth: a key deeper down only changes the value of some
/// unknown field, which the binder never reads.
pub proof fn lemma_unknown_field_ignored(d: DocV, s: Seq<char>, f: Seq<char>, w: ScalarV)
    requires
        !schema_field(s, f),
    ensures
        spec_bind(add_field(d, s, f, w)) == spec_bind(d),
{
    lemma_lookup_add_field(d, s, f, w, "server"@);
    lemma_lookup_add_field(d, s, f, w, "database"@);
    lemma_lookup_add_field(d, s, f, w, "templates"@);
    lemma_lookup_add_field(d, s, f, w, "features"@);
    match lookup(d, s) {
        Option::Some(TopV::Table(t)) => {
            lemma_lookup_push(t, f, w, "host"@);
            lemma_lookup_push(t, f, w, "port"@);
            lemma_lookup_push(t, f, w, "workers"@);
            lemma_lookup_push(t, f, w, "request_timeout_secs"@);
            lemma_lookup_push(t, f, w, "url"@);
            lemma_lookup_push(t, f, w, "pool_size"@);
            lemma_lookup_push(t, f, w, "connect_timeout_secs"@);
            lemma_lookup_push(t, f, w, "template_root"@);
            lemma_lookup_push(t, f, w, "hot_reload"@);
            lemma_lookup_push(t, f, w, "enable_registration"@);
            lemma_lookup_push(t, f, w, "enable_world_map"@);
        },
        _ => {},
    }
}

/// Non-empty host enforcement: a document whose `[server]` table binds the
/// `host` key to the empty string does not load — the empty string does not
/// inhabit the field's declared type — whatever the rest of the document
/// holds.
pub proof fn lemma_empty_host_rejected(d: DocV)
    requires
        spec_section(d, "server"@) matches Result::Ok(t) && lookup(t, "host"@)
            matches Option::Some(ScalarV::Text(s)) && s.len() == 0,
    ensures
        spec_bind(d) == Result::Err::<AppConfigV, ShapeIssueV>(
            ShapeIssueV::WrongType { section: "server"@, field: "host"@ },
        ),
{
}

/// Loading is a pure function of the document's bytes: two load outcomes
/// for the same path and text agree on success, and successful ones carry
/// the same configuration and so the same rendering. Nothing ambient — no
/// working directory, environment or clock — can tell them apart.
pub proof fn lemma_load_deterministic(
    path: Seq<char>,
    text: Seq<char>,
    r1: Result<AppConfig, ConfigError>,
    r2: Result<AppConfig, ConfigError>,
)
    requires
        loaded_from_text(path, text, r1),
        loaded_from_text(path, text, r2),
    ensures
        r1 is Ok == r2 is Ok,
        (r1 is Ok && r2 is Ok) ==> r1->Ok_0@ == r2->Ok_0@ && spec_render(r1->Ok_0@)
            == spec_render(r2->Ok_0@),
{
}

} // verus!
