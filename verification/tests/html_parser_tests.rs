use sms_scraper::html::html_select;
use sms_scraper::json::Json;
use sms_scraper::parser::venuepilot::VenuePilotError;
use sms_scraper::parser::warmup::warmup_json_text;
use sms_scraper::parser::{
    BarbozaHtmlV1Parser, DarrellsHtmlV1Parser, KexpHtmlV1Parser, ParsedRecord, VenuePilotGraphQLV1Parser, WixWarmupV1Parser,
};

fn text(r: &ParsedRecord, key: &str) -> Option<String> {
    match r.record.get(key) {
        Some(Json::Str(s)) => Some(s.clone()),
        _ => None,
    }
}

fn flag(r: &ParsedRecord, key: &str) -> Option<bool> {
    match r.record.get(key) {
        Some(Json::Bool(b)) => Some(*b),
        _ => None,
    }
}

fn ids() -> (String, String, String) {
    ("src".to_string(), "env-9".to_string(), "cas:sha256:99".to_string())
}

fn s(x: &str) -> Json {
    Json::Str(x.to_string())
}

fn obj(entries: Vec<(&str, Json)>) -> Json {
    Json::Object(entries.into_iter().map(|(k, v)| (k.to_string(), v)).collect())
}

const KEXP_PAGE: &str = r#"<html><body>
<h2>Friday <b>August 15</b></h2>
<article class="EventItem">
  <div class="EventItem-DateTime"><h5> 7:00 PM </h5></div>
  <div class="EventItem-body">
    <h3><a href="/events/1"> Live Session </a></h3>
    <div class="u-h3"><a>KEXP Gathering Space</a></div>
    <div class="EventItem-description"> An afternoon set. </div>
  </div>
</article>
<article class="EventItem"><div class="EventItem-body"><h3><a>   </a></h3></div></article>
<article class="EventItem"><div class="EventItem-body"><h3><a>Open Studio</a></h3></div></article>
</body></html>"#;

#[test]
fn kexp_items_take_the_day_of_the_header_before_them() {
    let (a, b, c) = ids();
    let out = KexpHtmlV1Parser::new(a, b, c).parse(KEXP_PAGE);
    assert_eq!(out.len(), 2);
    let r = &out[0];
    assert_eq!(r.record_path, "article.EventItem");
    assert_eq!(r.source_id, "src");
    assert_eq!(text(r, "title").as_deref(), Some("Live Session"));
    assert_eq!(text(r, "event_day").as_deref(), Some("Friday  August 15"));
    assert_eq!(text(r, "event_time").as_deref(), Some("7:00 PM"));
    assert_eq!(text(r, "location").as_deref(), Some("KEXP Gathering Space"));
    assert_eq!(text(r, "description").as_deref(), Some("An afternoon set."));
    assert_eq!(text(r, "source").as_deref(), Some("kexp"));
    assert_eq!(flag(r, "public"), Some(true));
    let r = &out[1];
    assert_eq!(text(r, "title").as_deref(), Some("Open Studio"));
    assert_eq!(text(r, "location").as_deref(), Some("KEXP Studio"));
    assert_eq!(text(r, "event_time").as_deref(), Some(""));
}

#[test]
fn a_page_without_events_gives_its_length() {
    let (a, b, c) = ids();
    let page = "<html><body><p>nothing</p></body></html>";
    let out = KexpHtmlV1Parser::new(a, b, c).parse(page);
    assert_eq!(out.len(), 1);
    assert_eq!(out[0].record_path, "html");
    match out[0].record.get("html_len") {
        Some(Json::Number(n)) => assert_eq!(n, &page.len().to_string()),
        _ => panic!("html_len expected"),
    }
}

const BARBOZA_PAGE: &str = r#"<html><body>
<div class="eventItem">
  <div class="thumb"><img src="https://img.example/a.jpg"></div>
  <div class="promotion-text"> Barboza Presents </div>
  <h3 class="title"><a href="https://www.thebarboza.com/events/detail/12345"> Headliner </a></h3>
  <h4 class="tagline"> with Opener </h4>
  <span class="m-date__month">Aug</span><span class="m-date__day">15</span>
  <div class="meta"><span class="time">Doors: 7:00 PM</span><span class="age">21+</span></div>
  <a class="tickets onsalenow" href="https://tickets.example/1">Buy</a>
</div>
<div class="eventItem">
  <h3 class="title"><a>Second</a></h3>
  <span class="m-date__month">Smarch</span><span class="m-date__day">3</span>
  <div class="meta"><span class="location">Neumos</span><span class="time">TBA</span></div>
</div>
</body></html>"#;

#[test]
fn barboza_items_in_detail() {
    let (a, b, c) = ids();
    let out = BarbozaHtmlV1Parser::new(a, b, c).parse_for_year(BARBOZA_PAGE, 2025);
    assert_eq!(out.len(), 2);
    let r = &out[0];
    assert_eq!(r.record_path, "div.eventItem");
    assert_eq!(text(r, "title").as_deref(), Some("Headliner"));
    assert_eq!(text(r, "detail_url").as_deref(), Some("https://www.thebarboza.com/events/detail/12345"));
    assert_eq!(text(r, "id").as_deref(), Some("12345"));
    assert_eq!(text(r, "supporting_acts").as_deref(), Some("with Opener"));
    assert_eq!(text(r, "promoter").as_deref(), Some("Barboza Presents"));
    assert_eq!(text(r, "event_day").as_deref(), Some("2025-08-15"));
    assert_eq!(text(r, "date_text").as_deref(), Some("Aug 15"));
    assert_eq!(text(r, "time_text").as_deref(), Some("Doors: 7:00 PM"));
    assert_eq!(text(r, "event_time").as_deref(), Some("7:00 PM"));
    assert_eq!(text(r, "age_restriction").as_deref(), Some("21+"));
    assert_eq!(text(r, "venue").as_deref(), Some("The Barboza"));
    assert_eq!(text(r, "ticket_url").as_deref(), Some("https://tickets.example/1"));
    assert_eq!(flag(r, "tickets_on_sale"), Some(true));
    assert_eq!(text(r, "image_url").as_deref(), Some("https://img.example/a.jpg"));
    assert_eq!(text(r, "source").as_deref(), Some("barboza"));
    let r = &out[1];
    assert_eq!(text(r, "venue").as_deref(), Some("Neumos"));
    assert_eq!(text(r, "event_day"), None);
    assert_eq!(text(r, "time_text").as_deref(), Some("TBA"));
    assert_eq!(text(r, "event_time"), None);
    assert_eq!(text(r, "detail_url"), None);
}

#[test]
fn barboza_page_with_the_current_year() {
    let (a, b, c) = ids();
    let out = BarbozaHtmlV1Parser::new(a, b, c).parse(BARBOZA_PAGE);
    assert_eq!(out.len(), 2);
    assert!(text(&out[0], "event_day").unwrap().ends_with("-08-15"));
}

const DARRELLS_PAGE: &str = "<html><body><div class=\"entry-content\">\
<h1>MUSIC 8.15</h1>\
<p><a href=\"/x\">The Headliners</a>\nSecond Band\nDOORS 8PM\n$10\nThe Headliners live</p>\
<h1>NO DATE</h1>\
<p>Ignored Band</p>\
<h1>MUSIC 8.16</h1>\
<p>Third Band</p>\
</div></body></html>";

#[test]
fn darrells_performers_under_their_day() {
    let (a, b, c) = ids();
    let out = DarrellsHtmlV1Parser::new(a, b, c).parse_for_year(DARRELLS_PAGE, 2025);
    let got: Vec<(String, String)> =
        out.iter().map(|r| (text(r, "title").unwrap_or_default(), text(r, "event_day").unwrap_or_default())).collect();
    assert_eq!(
        got,
        vec![
            ("The Headliners".to_string(), "2025-08-15".to_string()),
            ("Second Band".to_string(), "2025-08-15".to_string()),
            ("Third Band".to_string(), "2025-08-16".to_string()),
        ]
    );
    assert_eq!(out[0].record_path, "entry-content");
    assert_eq!(DarrellsHtmlV1Parser::new("a".into(), "b".into(), "c".into()).parse(DARRELLS_PAGE).len(), 3);
}

#[test]
fn warmup_events_of_every_widget() {
    let page = r#"<html><head><script type="application/json" id="wix-warmup-data">{"appsWarmupData":{}}</script></head></html>"#;
    assert_eq!(warmup_json_text(page).as_deref(), Some(r#"{"appsWarmupData":{}}"#));
    assert_eq!(warmup_json_text("<html></html>"), None);

    let data = obj(vec![(
        "appsWarmupData",
        obj(vec![
            (
                "app1",
                obj(vec![
                    ("widget1", obj(vec![("events", obj(vec![("events", Json::Array(vec![obj(vec![("title", s("A"))])]))]))])),
                    ("other", obj(vec![("events", obj(vec![("events", Json::Array(vec![obj(vec![("title", s("X"))])]))]))])),
                ]),
            ),
            (
                "app2",
                obj(vec![(
                    "widgetB",
                    obj(vec![("events", obj(vec![("events", Json::Array(vec![obj(vec![("title", s("B"))]), s("C")]))]))]),
                )]),
            ),
        ]),
    )]);
    let (a, b, c) = ids();
    let out = WixWarmupV1Parser::new(a, b, c).parse_warmup(page, Some(data));
    assert_eq!(out.len(), 3);
    assert_eq!(out[0].record_path, "$.appsWarmupData.*.widget1.events.events[*]");
    assert_eq!(text(&out[0], "title").as_deref(), Some("A"));
    assert_eq!(out[2].record_path, "$.appsWarmupData.*.widgetB.events.events[*]");
    assert!(matches!(out[2].record, Json::Str(ref x) if x == "C"));

    let (a, b, c) = ids();
    let out = WixWarmupV1Parser::new(a, b, c).parse_warmup(page, None);
    assert_eq!(out.len(), 1);
    assert_eq!(out[0].record_path, "html");
}

#[test]
fn venuepilot_events_become_records() {
    let event = obj(vec![
        ("name", s("Night Show")),
        ("date", s("2025-08-15")),
        ("startTime", s("20:00:00")),
        ("minimumAge", Json::Number("21".to_string())),
        ("support", s("Opener")),
        ("status", s("on_sale")),
        ("artists", Json::Array(vec![obj(vec![("name", s("Headliner")), ("bio", Json::Null)])])),
        ("venue", obj(vec![("name", s("Conor Byrne"))])),
    ]);
    let doc = obj(vec![("data", obj(vec![("paginatedEvents", obj(vec![("collection", Json::Array(vec![event]))]))]))]);
    let (a, b, c) = ids();
    let p = VenuePilotGraphQLV1Parser::new(a, b, c);
    let out = p.parse_response(&doc, "2025-08-01T00:00:00Z".to_string()).unwrap();
    assert_eq!(out.len(), 1);
    let r = &out[0];
    assert_eq!(r.record_path, "data.paginatedEvents.collection");
    assert_eq!(text(r, "title").as_deref(), Some("Night Show"));
    assert_eq!(text(r, "event_day").as_deref(), Some("2025-08-15"));
    assert_eq!(text(r, "start_time").as_deref(), Some("20:00:00"));
    assert_eq!(text(r, "age_restriction").as_deref(), Some("21+"));
    assert_eq!(text(r, "supporting_acts").as_deref(), Some("Opener"));
    assert_eq!(text(r, "ticket_status").as_deref(), Some("on_sale"));
    assert_eq!(text(r, "scraped_at").as_deref(), Some("2025-08-01T00:00:00Z"));
    assert_eq!(text(r, "source_id").as_deref(), Some("src"));
    match r.record.get("venue") {
        Some(v) => assert!(matches!(v.get("name"), Some(Json::Str(n)) if n == "Conor Byrne")),
        None => panic!("venue expected"),
    }
    match r.record.get("artists") {
        Some(Json::Array(list)) => {
            assert_eq!(list.len(), 1);
            assert!(matches!(list[0].get("bio"), Some(Json::Null)));
        },
        _ => panic!("artists expected"),
    }
    assert_eq!(p.parse_document(&doc).unwrap().len(), 1);

    let bad = obj(vec![("data", obj(vec![]))]);
    assert!(matches!(p.parse_response(&bad, String::new()), Err(VenuePilotError::InvalidStructure)));
}

#[test]
fn venuepilot_defaults() {
    let event = obj(vec![("date", s("not a date")), ("doorTime", s("19:00:00")), ("support", s(""))]);
    let doc = obj(vec![("data", obj(vec![("paginatedEvents", obj(vec![("collection", Json::Array(vec![event]))]))]))]);
    let (a, b, c) = ids();
    let out = VenuePilotGraphQLV1Parser::new(a, b, c).parse_response(&doc, "t".to_string()).unwrap();
    let r = &out[0];
    assert_eq!(text(r, "title"), None);
    assert_eq!(text(r, "event_day").as_deref(), Some("not a date"));
    assert_eq!(text(r, "start_time"), None);
    assert_eq!(text(r, "supporting_acts"), None);
    assert!(r.record.get("artists").is_none());
    match r.record.get("venue") {
        Some(v) => assert!(matches!(v.get("name"), Some(Json::Str(n)) if n == "Conor Byrne Pub")),
        None => panic!("venue expected"),
    }
}

#[test]
fn selection_with_inner_selectors() {
    let page = "<ul><li class=\"x\"><b>one</b><i>1</i></li><li class=\"x\"><b>two</b></li><li>three</li></ul>";
    let inner = vec!["b".to_string(), "i".to_string()];
    let found = html_select(page, "li.x", &inner).unwrap();
    assert_eq!(found.len(), 2);
    assert_eq!(found[0].element.name, "li");
    assert_eq!(found[0].element.texts, vec!["one", "1"]);
    assert_eq!(found[0].inner[0][0].texts, vec!["one"]);
    assert_eq!(found[0].inner[1].len(), 1);
    assert_eq!(found[1].inner[1].len(), 0);
    assert_eq!(found[0].element.attrs, vec![("class".to_string(), "x".to_string())]);
    assert!(html_select(page, "li[", &inner).is_none());
    assert!(html_select(page, "li", &vec!["[".to_string()]).is_none());
}
