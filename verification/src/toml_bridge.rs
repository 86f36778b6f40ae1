//! The trusted boundary around the toml crate.
//!
//! Parsing a TOML document is the one thing this crate takes from outside:
//! `str::parse::<toml::Table>` turns the text into toml's value tree, and a
//! single conversion turns that tree into the crate's own [`Document`]. What
//! the parser yields for a given text cannot be stated in a few lines, so it
//! is given a name, `parsed_doc`; everything downstream is proved against
//! that name.

use vstd::prelude::*;

use crate::doc_model::DocV;
use crate::doc_model::Document;
use crate::doc_model::Scalar;
use crate::doc_model::Section;
use crate::doc_model::TopValue;

verus! {

#[verifier::external_type_specification]
#[verifier::external_body]
#[verifier::reject_recursive_types(K)]
#[verifier::reject_recursive_types(V)]
pub struct ExTomlMap<K, V>(toml::map::Map<K, V>);

#[verifier::external_type_specification]
#[verifier::external_body]
pub struct ExTomlValue(toml::Value);

/// The outcome toml's parser yields for `text`: the document in this
/// crate's two-level model, or, where the text is not valid TOML, the
/// parser's diagnostic (line, column and message) as text. The parser
/// consults nothing but the text, so the whole outcome — diagnostic
/// included — is a function of `text` alone.
pub uninterp spec fn parsed_doc(text: Seq<char>) -> Result<DocV, Seq<char>>;

/// What a parsed top-level table holds, in this crate's two-level model:
/// every key with, for a table value, its keyed scalars, and for any other
/// value the mark that it is not a table.
pub uninterp spec fn table_model(t: toml::map::Map<String, toml::Value>) -> DocV;

/// Relies on `str::parse::<toml::Table>`, the toml crate's TOML 1.0 parser:
/// it either yields the document's top-level table or a syntax diagnostic,
/// and consults nothing but the text. The diagnostic is handed back
/// verbatim as text.
#[verifier::external_body]
pub(crate) fn parse_toml(text: &str) -> (r: Result<
    toml::map::Map<String, toml::Value>,
    String,
>)
    ensures
        r is Ok <==> parsed_doc(text@) is Ok,
        r matches Ok(t) ==> (parsed_doc(text@) matches Result::Ok(d) && d == table_model(t)),
        r matches Err(c) ==> (parsed_doc(text@) matches Result::Err(m) && m == c@),
{
    match text.parse::<toml::Table>() {
        Ok(t) => Ok(t),
        Err(e) => Err(e.to_string()),
    }
}

/// Relies on `toml::map::Map::iter` and the variants of `toml::Value`: each
/// entry is carried over under its key, a `Value::Table` one level down
/// becomes a [`Section`] the same way, and every value of a kind no schema
/// field has — float, datetime, array, or a table below the second level —
/// becomes the opaque `Other` mark.
#[verifier::external_body]
pub(crate) fn to_document(t: &toml::map::Map<String, toml::Value>) -> (r: Document)
    ensures
        r@ == table_model(*t),
{
    Document {
        entries: t.iter().map(|(k, v)| (k.clone(), match v {
            toml::Value::Table(sub) => TopValue::Table(Section {
                entries: sub.iter().map(|(k2, v2)| (k2.clone(), match v2 {
                    toml::Value::Integer(i) => Scalar::Integer(*i),
                    toml::Value::String(s) => Scalar::Text(s.clone()),
                    toml::Value::Boolean(b) => Scalar::Boolean(*b),
                    _ => Scalar::Other,
                })).collect(),
            }),
            _ => TopValue::Other,
        })).collect(),
    }
}

} // verus!
