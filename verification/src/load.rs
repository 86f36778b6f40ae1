//! The loader and its errors.
//!
//! Loading runs Read, Parse, Bind, Default, in that order, and surfaces the
//! first failure. The read itself is the caller's: it hands the loader the
//! path it tried and the outcome of reading it, and everything from there on
//! is a function of those two values alone — no clock, environment or
//! working directory is consulted.

use vstd::prelude::*;
use vstd::string::StringExecFns;

use crate::bind::ShapeIssue;
use crate::bind::ShapeIssueV;
use crate::bind::bind_document;
use crate::bind::spec_bind;
use crate::config::AppConfig;
use crate::config::AppConfigV;
use crate::doc_model::DocV;
use crate::toml_bridge::parse_toml;
use crate::toml_bridge::parsed_doc;
use crate::toml_bridge::to_document;

verus! {

/// What stopped a load, annotated with the path that was being loaded.
#[derive(Debug)]
pub enum ConfigError {
    /// The filesystem could not deliver the file's bytes as UTF-8 text.
    Read { path: String, cause: String },
    /// The text is not a syntactically valid TOML document; `cause` keeps
    /// the parser's diagnostic.
    Parse { path: String, cause: String },
    /// The document is valid TOML but does not fit the schema.
    Shape { path: String, issue: ShapeIssue },
}

/// Mathematical image of a `ConfigError`.
#[verifier::ext_equal]
pub enum ConfigErrorV {
    Read { path: Seq<char>, cause: Seq<char> },
    Parse { path: Seq<char>, cause: Seq<char> },
    Shape { path: Seq<char>, issue: ShapeIssueV },
}

impl View for ConfigError {
    type V = ConfigErrorV;

    open spec fn view(&self) -> ConfigErrorV {
        match self {
            ConfigError::Read { path, cause } => ConfigErrorV::Read {
                path: path@,
                cause: cause@,
            },
            ConfigError::Parse { path, cause } => ConfigErrorV::Parse {
                path: path@,
                cause: cause@,
            },
            ConfigError::Shape { path, issue } => ConfigErrorV::Shape {
                path: path@,
                issue: issue@,
            },
        }
    }
}

/// The diagnostic line for a shape offence, naming the offending place.
pub open spec fn spec_issue_text(i: ShapeIssueV) -> Seq<char> {
    match i {
        ShapeIssueV::MissingTable { section } => "missing required table `"@ + section + "`"@,
        ShapeIssueV::NotATable { section } => "`"@ + section + "` is not a table"@,
        ShapeIssueV::MissingField { section, field } => "missing required field `"@ + section
            + "."@ + field + "`"@,
        ShapeIssueV::WrongType { section, field } => "field `"@ + section + "."@ + field
            + "` has the wrong type"@,
        ShapeIssueV::OutOfRange { section, field } => "field `"@ + section + "."@ + field
            + "` is out of range"@,
    }
}

/// The full diagnostic: the stage's phrase, the path, and the cause, top to
/// bottom on one line.
pub open spec fn spec_error_text(e: ConfigErrorV) -> Seq<char> {
    match e {
        ConfigErrorV::Read { path, cause } => "Could not read configuration file: "@ + path + ": "@
            + cause,
        ConfigErrorV::Parse { path, cause } => "Failed to parse configuration file: "@ + path
            + ": "@ + cause,
        ConfigErrorV::Shape { path, issue } => "Invalid configuration file: "@ + path + ": "@
            + spec_issue_text(issue),
    }
}

impl ShapeIssue {
    /// The diagnostic line for this offence.
    pub fn message(&self) -> (r: String)
        ensures
            r@ == spec_issue_text(self@),
    {
        let mut out = String::new();
        match self {
            ShapeIssue::MissingTable { section } => {
                out.append("missing required table `");
                out.append(section.as_str());
                out.append("`");
            },
            ShapeIssue::NotATable { section } => {
                out.append("`");
                out.append(section.as_str());
                out.append("` is not a table");
            },
            ShapeIssue::MissingField { section, field } => {
                out.append("missing required field `");
                out.append(section.as_str());
                out.append(".");
                out.append(field.as_str());
                out.append("`");
            },
            ShapeIssue::WrongType { section, field } => {
                out.append("field `");
                out.append(section.as_str());
                out.append(".");
                out.append(field.as_str());
                out.append("` has the wrong type");
            },
            ShapeIssue::OutOfRange { section, field } => {
                out.append("field `");
                out.append(section.as_str());
                out.append(".");
                out.append(field.as_str());
                out.append("` is out of range");
            },
        }
        proof {
            assert(out@ =~= spec_issue_text(self@));
        }
        out
    }
}

impl ConfigError {
    /// The whole diagnostic as one line of text, for the standard error
    /// stream of whatever runs the loader.
    pub fn message(&self) -> (r: String)
        ensures
            r@ == spec_error_text(self@),
    {
        let mut out = String::new();
        match self {
            ConfigError::Read { path, cause } => {
                out.append("Could not read configuration file: ");
                out.append(path.as_str());
                out.append(": ");
                out.append(cause.as_str());
            },
            ConfigError::Parse { path, cause } => {
                out.append("Failed to parse configuration file: ");
                out.append(path.as_str());
                out.append(": ");
                out.append(cause.as_str());
            },
            ConfigError::Shape { path, issue } => {
                out.append("Invalid configuration file: ");
                out.append(path.as_str());
                out.append(": ");
                out.append(issue.message().as_str());
            },
        }
        proof {
            assert(out@ =~= spec_error_text(self@));
        }
        out
    }
}

/// What a load from `text` under `path` must come to: the text parses and
/// binds and `r` holds the bound value, or `r` holds the Parse or Shape
/// error for `path`, whichever stage stopped first. A Parse error keeps the
/// parser's diagnostic verbatim as its cause.
pub open spec fn loaded_from_text(
    path: Seq<char>,
    text: Seq<char>,
    r: Result<AppConfig, ConfigError>,
) -> bool {
    match r {
        Result::Ok(c) => parsed_doc(text) matches Result::Ok(d) && spec_bind(d) == Result::Ok::<
            AppConfigV,
            ShapeIssueV,
        >(c@),
        Result::Err(e) => match e@ {
            ConfigErrorV::Parse { path: p, cause } => p == path && parsed_doc(
                text,
            ) == Result::Err::<DocV, Seq<char>>(cause),
            ConfigErrorV::Shape { path: p, issue } => p == path && (parsed_doc(
                text,
            ) matches Result::Ok(d) && spec_bind(d) == Result::Err::<AppConfigV, ShapeIssueV>(
                issue,
            )),
            ConfigErrorV::Read { .. } => false,
        },
    }
}

impl AppConfig {
    /// Parse `text` as a TOML document and project it onto the schema.
    /// `path` is only woven into the error diagnostics.
    pub fn from_toml_text(path: &str, text: &str) -> (r: Result<AppConfig, ConfigError>)
        ensures
            loaded_from_text(path@, text@, r),
    {
        match parse_toml(text) {
            Result::Err(cause) => {
                let e = ConfigError::Parse { path: path.to_owned(), cause };
                proof {
                    assert(e@ matches ConfigErrorV::Parse { path: p, cause: _ } && p == path@);
                }
                Result::Err(e)
            },
            Result::Ok(table) => {
                let document = to_document(&table);
                match bind_document(&document) {
                    Result::Ok(c) => Result::Ok(c),
                    Result::Err(issue) => {
                        let e = ConfigError::Shape { path: path.to_owned(), issue };
                        proof {
                            assert(e@ matches ConfigErrorV::Shape { path: p, issue: _ } && p
                                == path@);
                        }
                        Result::Err(e)
                    },
                }
            },
        }
    }

    /// The whole load, given the outcome of reading the file at `path`: a
    /// failed read becomes the Read error for `path`, and a delivered text
    /// is parsed and bound as by [`AppConfig::from_toml_text`].
    pub fn from_read_result(path: &str, read: Result<String, String>) -> (r: Result<
        AppConfig,
        ConfigError,
    >)
        ensures
            match read {
                Result::Ok(text) => loaded_from_text(path@, text@, r),
                Result::Err(cause) => r matches Result::Err(e) && e@ == (ConfigErrorV::Read {
                    path: path@,
                    cause: cause@,
                }),
            },
    {
        match read {
            Result::Ok(text) => Self::from_toml_text(path, text.as_str()),
            Result::Err(cause) => {
                let ghost cause_view = cause@;
                let e = ConfigError::Read { path: path.to_owned(), cause };
                proof {
                    assert(e@ =~= ConfigErrorV::Read { path: path@, cause: cause_view });
                }
                Result::Err(e)
            },
        }
    }
}

} // verus!
