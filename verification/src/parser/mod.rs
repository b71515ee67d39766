//! Parsers: from a fetched payload to the source records it holds, each
//! with the path it was found at.

pub mod barboza;
pub mod darrells;
pub mod kexp;
pub mod payload;
pub mod venuepilot;
pub mod warmup;
pub mod wix;

use crate::html::{concat_spec, text_of, HtmlElement};
use crate::json::Json;
use crate::metrics::views_of;
use crate::text::{owned, trim_spec, trim_str, u64_text, decimal_spec};
use vstd::prelude::*;

verus! {

/// One source record found in a payload.
#[derive(Debug)]
pub struct ParsedRecord {
    pub source_id: String,
    pub envelope_id: String,
    pub payload_ref: String,
    pub record_path: String,
    pub record: Json,
}

/// The envelope a payload came with: its source, id and stored payload.
pub open spec fn same_origin(r: ParsedRecord, source_id: Seq<char>, envelope_id: Seq<char>, payload_ref: Seq<char>) -> bool {
    r.source_id@ == source_id && r.envelope_id@ == envelope_id && r.payload_ref@ == payload_ref
}

/// A scalar field of a record built from a page.
pub enum FieldValue {
    Text(Seq<char>),
    Flag(bool),
    /// A number, by its JSON text.
    Number(Seq<char>),
}

/// Whether `v` holds the scalar `f`.
pub open spec fn holds_value(v: Json, f: FieldValue) -> bool {
    match f {
        FieldValue::Text(t) => v matches Json::Str(s) && s@ == t,
        FieldValue::Flag(b) => v == Json::Bool(b),
        FieldValue::Number(t) => v matches Json::Number(s) && s@ == t,
    }
}

/// `j` is an object with exactly these fields, in this order.
pub open spec fn object_is(j: Json, fields: Seq<(Seq<char>, FieldValue)>) -> bool {
    match j {
        Json::Object(es) => es@.len() == fields.len() && forall|i: int| 0 <= i < fields.len() ==> (#[trigger] es@[i]).0@ == fields[i].0
            && holds_value(es@[i].1, fields[i].1),
        _ => false,
    }
}

/// The records `out` are, in order, the objects `expected`, all found at `path`.
pub open spec fn records_are(out: Seq<ParsedRecord>, path: Seq<char>, expected: Seq<Seq<(Seq<char>, FieldValue)>>) -> bool {
    out.len() == expected.len() && forall|i: int| 0 <= i < expected.len() ==> (#[trigger] out[i]).record_path@ == path
        && object_is(out[i].record, expected[i])
}

/// Appends a text field.
pub fn push_text(entries: &mut Vec<(String, Json)>, key: &str, value: String, Ghost(fields): Ghost<Seq<(Seq<char>, FieldValue)>>)
    requires
        object_is(Json::Object(*old(entries)), fields),
    ensures
        object_is(Json::Object(*final(entries)), fields.push((key@, FieldValue::Text(value@)))),
{
    let ghost v = value@;
    entries.push((owned(key), Json::Str(value)));
    proof {
        let nf = fields.push((key@, FieldValue::Text(v)));
        assert forall|i: int| 0 <= i < nf.len() implies (#[trigger] entries@[i]).0@ == nf[i].0 && holds_value(entries@[i].1, nf[i].1) by {
            if i < fields.len() {
                assert(entries@[i] == old(entries)@[i]);
            }
        }
    }
}

/// Appends a flag field.
pub fn push_flag(entries: &mut Vec<(String, Json)>, key: &str, value: bool, Ghost(fields): Ghost<Seq<(Seq<char>, FieldValue)>>)
    requires
        object_is(Json::Object(*old(entries)), fields),
    ensures
        object_is(Json::Object(*final(entries)), fields.push((key@, FieldValue::Flag(value)))),
{
    entries.push((owned(key), Json::Bool(value)));
    proof {
        let nf = fields.push((key@, FieldValue::Flag(value)));
        assert forall|i: int| 0 <= i < nf.len() implies (#[trigger] entries@[i]).0@ == nf[i].0 && holds_value(entries@[i].1, nf[i].1) by {
            if i < fields.len() {
                assert(entries@[i] == old(entries)@[i]);
            }
        }
    }
}

/// The trimmed text of the first element of `found`, if any.
pub open spec fn first_text(found: Seq<crate::html::HtmlElementView>) -> Option<Seq<char>> {
    if found.len() > 0 {
        Some(trim_spec(concat_spec(found[0].texts)))
    } else {
        None
    }
}

/// The trimmed text of the first element found.
pub fn first_text_of(found: &Vec<HtmlElement>) -> (r: Option<String>)
    ensures
        crate::text::opt_view(r) == first_text(found@.map_values(|e: HtmlElement| crate::html::element_view(e))),
{
    if found.len() > 0 {
        let t = text_of(&found[0]);
        Some(trim_str(t.as_str()))
    } else {
        None
    }
}

/// The record kept when a page yields nothing: the page's length in bytes.
pub open spec fn html_len_record(len: nat) -> Seq<(Seq<char>, FieldValue)> {
    seq![("html_len"@, FieldValue::Number(decimal_spec(len)))]
}

/// The items of `v` in reverse order.
pub fn reversed<T>(v: Vec<T>) -> (r: Vec<T>)
    ensures
        r@ == v@.reverse(),
{
    let ghost orig = v@;
    let mut v = v;
    let mut r: Vec<T> = Vec::new();
    while v.len() > 0
        invariant
            orig.len() == v@.len() + r@.len(),
            v@ == orig.subrange(0, v@.len() as int),
            r@ == orig.subrange(v@.len() as int, orig.len() as int).reverse(),
        decreases v@.len(),
    {
        let ghost n = v@.len();
        let x = v.pop().unwrap();
        r.push(x);
        assert(v@ =~= orig.subrange(0, v@.len() as int));
        assert(r@ =~= orig.subrange(v@.len() as int, orig.len() as int).reverse());
    }
    assert(r@ =~= orig.reverse());
    r
}

/// Parser of Wix calendar JSON payloads.
pub struct WixCalendarV1Parser {
    pub source_id: String,
    pub envelope_id: String,
    pub payload_ref: String,
}

/// Parser of Wix pages that embed their warmup JSON.
pub struct WixWarmupV1Parser {
    pub source_id: String,
    pub envelope_id: String,
    pub payload_ref: String,
}

/// Parser of Darrell's Tavern schedule pages.
pub struct DarrellsHtmlV1Parser {
    pub source_id: String,
    pub envelope_id: String,
    pub payload_ref: String,
}

/// Parser of KEXP event pages.
pub struct KexpHtmlV1Parser {
    pub source_id: String,
    pub envelope_id: String,
    pub payload_ref: String,
}

/// Parser of Barboza event pages.
pub struct BarbozaHtmlV1Parser {
    pub source_id: String,
    pub envelope_id: String,
    pub payload_ref: String,
}

/// Parser of VenuePilot GraphQL responses.
pub struct VenuePilotGraphQLV1Parser {
    pub source_id: String,
    pub envelope_id: String,
    pub payload_ref: String,
}

impl WixCalendarV1Parser {
    /// A parser for the payload of the given envelope.
    pub fn new(source_id: String, envelope_id: String, payload_ref: String) -> (r: Self)
        ensures
            r.source_id == source_id,
            r.envelope_id == envelope_id,
            r.payload_ref == payload_ref,
    {
        WixCalendarV1Parser { source_id, envelope_id, payload_ref }
    }
}

impl WixWarmupV1Parser {
    /// A parser for the payload of the given envelope.
    pub fn new(source_id: String, envelope_id: String, payload_ref: String) -> (r: Self)
        ensures
            r.source_id == source_id,
            r.envelope_id == envelope_id,
            r.payload_ref == payload_ref,
    {
        WixWarmupV1Parser { source_id, envelope_id, payload_ref }
    }
}

impl DarrellsHtmlV1Parser {
    /// A parser for the payload of the given envelope.
    pub fn new(source_id: String, envelope_id: String, payload_ref: String) -> (r: Self)
        ensures
            r.source_id == source_id,
            r.envelope_id == envelope_id,
            r.payload_ref == payload_ref,
    {
        DarrellsHtmlV1Parser { source_id, envelope_id, payload_ref }
    }
}

impl KexpHtmlV1Parser {
    /// A parser for the payload of the given envelope.
    pub fn new(source_id: String, envelope_id: String, payload_ref: String) -> (r: Self)
        ensures
            r.source_id == source_id,
            r.envelope_id == envelope_id,
            r.payload_ref == payload_ref,
    {
        KexpHtmlV1Parser { source_id, envelope_id, payload_ref }
    }
}

impl BarbozaHtmlV1Parser {
    /// A parser for the payload of the given envelope.
    pub fn new(source_id: String, envelope_id: String, payload_ref: String) -> (r: Self)
        ensures
            r.source_id == source_id,
            r.envelope_id == envelope_id,
            r.payload_ref == payload_ref,
    {
        BarbozaHtmlV1Parser { source_id, envelope_id, payload_ref }
    }
}

impl VenuePilotGraphQLV1Parser {
    /// A parser for the payload of the given envelope.
    pub fn new(source_id: String, envelope_id: String, payload_ref: String) -> (r: Self)
        ensures
            r.source_id == source_id,
            r.envelope_id == envelope_id,
            r.payload_ref == payload_ref,
    {
        VenuePilotGraphQLV1Parser { source_id, envelope_id, payload_ref }
    }
}

} // verus!
