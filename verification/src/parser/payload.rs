//! A payload parsed by the parse plan of its source.

use crate::json::{json_of_bytes, json_of_text, Json};
use crate::parser::barboza::barboza_parsed;
use crate::parser::darrells::darrells_parsed;
use crate::parser::kexp::kexp_parsed;
use crate::parser::venuepilot::{stamped_with, vp_collection, VenuePilotError};
use crate::parser::warmup::{warmup_parsed, warmup_text};
use crate::parser::wix::{wix_document_settable, wix_parsed, wix_settable};
use crate::parser::{
    same_origin, BarbozaHtmlV1Parser, DarrellsHtmlV1Parser, KexpHtmlV1Parser, ParsedRecord, VenuePilotGraphQLV1Parser,
    WixCalendarV1Parser, WixWarmupV1Parser,
};
use crate::text::{owned, str_eq, utf8_lossy, utf8_lossy_of};
use vstd::prelude::*;

verus! {

/// Why a payload could not be parsed.
#[derive(Debug)]
pub enum PayloadError {
    /// The payload is not JSON: the JSON parser's message.
    InvalidJson(String),
    /// A GraphQL response without its event collection.
    InvalidStructure,
    /// A Wix calendar day lists an event that is neither an object nor
    /// `null`, which cannot take its `event_day`.
    EventNotObject,
}

/// The message of a payload error.
pub open spec fn payload_error_text(e: PayloadError) -> Seq<char> {
    match e {
        PayloadError::InvalidJson(m) => m@,
        PayloadError::InvalidStructure => "Invalid GraphQL response structure"@,
        PayloadError::EventNotObject => "eventsByDates holds an event that is not an object"@,
    }
}

impl PayloadError {
    /// The error's message.
    pub fn message(&self) -> (r: String)
        ensures
            r@ == payload_error_text(*self),
    {
        match self {
            PayloadError::InvalidJson(m) => m.clone(),
            PayloadError::InvalidStructure => owned("Invalid GraphQL response structure"),
            PayloadError::EventNotObject => owned("eventsByDates holds an event that is not an object"),
        }
    }
}

/// The plan reference, as text.
pub open spec fn plan_text(plan: Option<&str>) -> Option<Seq<char>> {
    match plan {
        Some(p) => Some(p@),
        None => None,
    }
}

/// Whether the plan is the Wix calendar's, the one taken when a source
/// names none.
pub open spec fn wix_plan(plan: Option<&str>) -> bool {
    plan_text(plan) is None || plan_text(plan) == Some("parse_plan:wix_calendar_v1"@)
}

/// The plans this library parses.
pub open spec fn known_plan(plan: Option<&str>) -> bool {
    wix_plan(plan) || plan_text(plan) == Some("parse_plan:wix_warmup_v1"@) || plan_text(plan) == Some("parse_plan:darrells_html_v1"@)
        || plan_text(plan) == Some("parse_plan:kexp_html_v1"@) || plan_text(plan) == Some("parse_plan:barboza_html_v1"@)
        || plan_text(plan) == Some("parse_plan:venuepilot_graphql_v1"@)
}

fn plan_is(plan: Option<&str>, name: &str) -> (r: bool)
    ensures
        r == (plan_text(plan) == Some(name@)),
{
    match plan {
        Some(p) => str_eq(p, name),
        None => false,
    }
}

/// The records of a payload of the envelope (`source_id`, `envelope_id`,
/// `payload_ref`) by its parse plan: the Wix calendar's when none is named,
/// the warmup page's, Darrell's, KEXP's, Barboza's or VenuePilot's; none
/// for another plan. HTML and GraphQL payloads are read as UTF-8 with
/// invalid sequences replaced; JSON that does not parse is an error with
/// the parser's message.
pub fn parse_payload(plan: Option<&str>, bytes: &[u8], source_id: String, envelope_id: String, payload_ref: String)
    -> (r: Result<Vec<ParsedRecord>, PayloadError>)
    ensures
        wix_plan(plan) ==> match json_of_bytes(bytes@) {
            Err(m) => r matches Err(PayloadError::InvalidJson(e)) && e@ == m,
            Ok(d) => if wix_settable(d) {
                r matches Ok(out) && wix_parsed(out@, d, source_id@, envelope_id@, payload_ref@)
            } else {
                r matches Err(PayloadError::EventNotObject)
            },
        },
        plan_text(plan) == Some("parse_plan:wix_warmup_v1"@) ==> match warmup_text(utf8_lossy_of(bytes@)) {
            Some(t) => match json_of_text(t) {
                Err(m) => r matches Err(PayloadError::InvalidJson(e)) && e@ == m,
                Ok(d) => r matches Ok(out) && warmup_parsed(out@, utf8_lossy_of(bytes@), Some(d), source_id@, envelope_id@, payload_ref@),
            },
            None => r matches Ok(out) && warmup_parsed(out@, utf8_lossy_of(bytes@), None, source_id@, envelope_id@, payload_ref@),
        },
        plan_text(plan) == Some("parse_plan:darrells_html_v1"@) ==> (r matches Ok(out)
            && (forall|i: int| 0 <= i < out@.len() ==> same_origin(#[trigger] out@[i], source_id@, envelope_id@, payload_ref@))
            && exists|y: i32| #[trigger] darrells_parsed(out@, utf8_lossy_of(bytes@), y)),
        plan_text(plan) == Some("parse_plan:kexp_html_v1"@) ==> (r matches Ok(out)
            && kexp_parsed(out@, utf8_lossy_of(bytes@), source_id@, envelope_id@, payload_ref@)),
        plan_text(plan) == Some("parse_plan:barboza_html_v1"@) ==> (r matches Ok(out)
            && (forall|i: int| 0 <= i < out@.len() ==> same_origin(#[trigger] out@[i], source_id@, envelope_id@, payload_ref@))
            && exists|y: i32| #[trigger] barboza_parsed(out@, utf8_lossy_of(bytes@), y)),
        plan_text(plan) == Some("parse_plan:venuepilot_graphql_v1"@) ==> match json_of_text(utf8_lossy_of(bytes@)) {
            Err(m) => r matches Err(PayloadError::InvalidJson(e)) && e@ == m,
            Ok(doc) => match vp_collection(doc) {
                None => r matches Err(PayloadError::InvalidStructure),
                Some(items) => r matches Ok(out) && out@.len() == items.len() && (forall|i: int| 0 <= i < out@.len() ==> {
                    &&& same_origin(#[trigger] out@[i], source_id@, envelope_id@, payload_ref@)
                    &&& out@[i].record_path@ == "data.paginatedEvents.collection"@
                }) && exists|s: Seq<char>| #[trigger] stamped_with(out@, items, source_id@, s),
            },
        },
        !known_plan(plan) ==> (r matches Ok(out) && out@.len() == 0),
{
    proof {
        reveal_strlit("parse_plan:wix_calendar_v1");
        reveal_strlit("parse_plan:wix_warmup_v1");
        reveal_strlit("parse_plan:darrells_html_v1");
        reveal_strlit("parse_plan:kexp_html_v1");
        reveal_strlit("parse_plan:barboza_html_v1");
        reveal_strlit("parse_plan:venuepilot_graphql_v1");
        assert("parse_plan:wix_calendar_v1"@[11] == 'w' && "parse_plan:wix_warmup_v1"@[15] == 'w');
        assert("parse_plan:wix_calendar_v1"@[15] == 'c');
        assert("parse_plan:darrells_html_v1"@[11] == 'd' && "parse_plan:kexp_html_v1"@[11] == 'k');
        assert("parse_plan:barboza_html_v1"@[11] == 'b' && "parse_plan:venuepilot_graphql_v1"@[11] == 'v');
    }
    if plan.is_none() || plan_is(plan, "parse_plan:wix_calendar_v1") {
        let p = WixCalendarV1Parser::new(source_id, envelope_id, payload_ref);
        return match crate::json::parse_json_bytes(bytes) {
            Err(m) => Err(PayloadError::InvalidJson(m)),
            Ok(d) => {
                if wix_document_settable(&d) {
                    Ok(p.parse_document(d))
                } else {
                    Err(PayloadError::EventNotObject)
                }
            },
        };
    }
    if plan_is(plan, "parse_plan:wix_warmup_v1") {
        let p = WixWarmupV1Parser::new(source_id, envelope_id, payload_ref);
        return match p.parse(bytes) {
            Err(m) => Err(PayloadError::InvalidJson(m)),
            Ok(out) => Ok(out),
        };
    }
    if plan_is(plan, "parse_plan:venuepilot_graphql_v1") {
        let p = VenuePilotGraphQLV1Parser::new(source_id, envelope_id, payload_ref);
        return match p.parse(bytes) {
            Err(VenuePilotError::InvalidJson(m)) => Err(PayloadError::InvalidJson(m)),
            Err(VenuePilotError::InvalidStructure) => Err(PayloadError::InvalidStructure),
            Ok(out) => Ok(out),
        };
    }
    let page = utf8_lossy(bytes);
    if plan_is(plan, "parse_plan:darrells_html_v1") {
        Ok(DarrellsHtmlV1Parser::new(source_id, envelope_id, payload_ref).parse(page.as_str()))
    } else if plan_is(plan, "parse_plan:kexp_html_v1") {
        Ok(KexpHtmlV1Parser::new(source_id, envelope_id, payload_ref).parse(page.as_str()))
    } else if plan_is(plan, "parse_plan:barboza_html_v1") {
        Ok(BarbozaHtmlV1Parser::new(source_id, envelope_id, payload_ref).parse(page.as_str()))
    } else {
        Ok(Vec::new())
    }
}

} // verus!
