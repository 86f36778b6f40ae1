//! The parsed document, as the schema sees it.
//!
//! The schema of this crate only ever reads two levels of a TOML document:
//! the top-level tables (the sections) and the scalar fields inside them. A
//! `Document` therefore keeps, for every top-level key, whether its value is
//! a table, and for every key inside such a table, the scalar it holds —
//! integer, text or boolean. Any other value (float, datetime, array, or a
//! deeper table) is kept as `Scalar::Other`: its presence matters for the
//! unknown-field and wrong-type rules, its content never does.
//!
//! The conversion from toml's own value tree, and the parse itself, are the
//! trusted boundary of this crate; everything downstream of `Document` is
//! verified.

use vstd::prelude::*;

verus! {

/// A field value inside a section.
#[derive(Debug)]
pub enum Scalar {
    Integer(i64),
    Text(String),
    Boolean(bool),
    /// A value of a kind no schema field has: float, datetime, array, or a
    /// nested table. The binder only ever treats it as "present, but not an
    /// integer, text or boolean".
    Other,
}

/// One top-level table of the document.
#[derive(Debug)]
pub struct Section {
    pub entries: Vec<(String, Scalar)>,
}

/// A top-level value: either a table or something else.
#[derive(Debug)]
pub enum TopValue {
    Table(Section),
    /// A top-level key bound to anything but a table.
    Other,
}

/// A whole parsed document.
#[derive(Debug)]
pub struct Document {
    pub entries: Vec<(String, TopValue)>,
}

/// Mathematical image of a `Scalar`.
#[verifier::ext_equal]
pub enum ScalarV {
    Integer(i64),
    Text(Seq<char>),
    Boolean(bool),
    Other,
}

/// Mathematical image of a section: its keyed entries, in document order.
pub type SectionV = Seq<(Seq<char>, ScalarV)>;

/// Mathematical image of a top-level value.
#[verifier::ext_equal]
pub enum TopV {
    Table(SectionV),
    Other,
}

/// Mathematical image of a document.
pub type DocV = Seq<(Seq<char>, TopV)>;

impl View for Scalar {
    type V = ScalarV;

    open spec fn view(&self) -> ScalarV {
        match self {
            Scalar::Integer(i) => ScalarV::Integer(*i),
            Scalar::Text(s) => ScalarV::Text(s@),
            Scalar::Boolean(b) => ScalarV::Boolean(*b),
            Scalar::Other => ScalarV::Other,
        }
    }
}

impl View for Section {
    type V = SectionV;

    open spec fn view(&self) -> SectionV {
        self.entries@.map(|i: int, kv: (String, Scalar)| (kv.0@, kv.1@))
    }
}

impl View for TopValue {
    type V = TopV;

    open spec fn view(&self) -> TopV {
        match self {
            TopValue::Table(s) => TopV::Table(s@),
            TopValue::Other => TopV::Other,
        }
    }
}

impl View for Document {
    type V = DocV;

    open spec fn view(&self) -> DocV {
        self.entries@.map(|i: int, kv: (String, TopValue)| (kv.0@, kv.1@))
    }
}

/// The value bound to the first entry whose key is `k`, if any. A document
/// the toml parser yields never repeats a key, but the model does not need
/// that fact: lookups take the first match.
pub open spec fn lookup<V>(d: Seq<(Seq<char>, V)>, k: Seq<char>) -> Option<V>
    decreases d.len(),
{
    if d.len() == 0 {
        None
    } else if d[0].0 == k {
        Some(d[0].1)
    } else {
        lookup(d.skip(1), k)
    }
}

/// Skipping a non-matching prefix leaves a lookup unchanged.
proof fn lemma_lookup_skip<V>(d: Seq<(Seq<char>, V)>, k: Seq<char>, i: int)
    requires
        0 <= i < d.len(),
        forall|j: int| 0 <= j < i ==> d[j].0 != k,
    ensures
        lookup(d, k) == lookup(d.skip(i), k),
    decreases i,
{
    if i == 0 {
        assert(d.skip(0) =~= d);
    } else {
        assert(d[0].0 != k);
        assert(forall|j: int| 0 <= j < i - 1 ==> d.skip(1)[j].0 != k);
        lemma_lookup_skip(d.skip(1), k, i - 1);
        assert(d.skip(1).skip(i - 1) =~= d.skip(i));
    }
}

/// If no entry's key is `k`, the lookup misses.
pub proof fn lemma_lookup_none<V>(d: Seq<(Seq<char>, V)>, k: Seq<char>)
    requires
        forall|j: int| 0 <= j < d.len() ==> d[j].0 != k,
    ensures
        lookup(d, k) is None,
    decreases d.len(),
{
    if d.len() > 0 {
        lemma_lookup_none(d.skip(1), k);
    }
}

impl Document {
    /// The top-level value under `key`, if any.
    pub fn get<'a>(&'a self, key: &str) -> (r: Option<&'a TopValue>)
        ensures
            match r {
                Some(v) => lookup(self@, key@) == Some(v@),
                None => lookup(self@, key@) is None,
            },
    {
        let needle: String = key.to_owned();
        let n = self.entries.len();
        for i in 0..n
            invariant
                n == self.entries.len(),
                needle@ == key@,
                forall|j: int| 0 <= j < i ==> self@[j].0 != key@,
        {
            if self.entries[i].0 == needle {
                proof {
                    lemma_lookup_skip(self@, key@, i as int);
                }
                return Some(&self.entries[i].1);
            }
        }
        proof {
            lemma_lookup_none(self@, key@);
        }
        None
    }
}

impl Section {
    /// The field value under `key`, if any.
    pub fn get<'a>(&'a self, key: &str) -> (r: Option<&'a Scalar>)
        ensures
            match r {
                Some(v) => lookup(self@, key@) == Some(v@),
                None => lookup(self@, key@) is None,
            },
    {
        let needle: String = key.to_owned();
        let n = self.entries.len();
        for i in 0..n
            invariant
                n == self.entries.len(),
                needle@ == key@,
                forall|j: int| 0 <= j < i ==> self@[j].0 != key@,
        {
            if self.entries[i].0 == needle {
                proof {
                    lemma_lookup_skip(self@, key@, i as int);
                }
                return Some(&self.entries[i].1);
            }
        }
        proof {
            lemma_lookup_none(self@, key@);
        }
        None
    }
}

} // verus!
