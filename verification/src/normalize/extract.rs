//! The default normalizer: the event, venue and artists read from the
//! common fields of a parsed record.
//!
//! Coordinates are read from JSON numbers written as decimals, to the
//! millionth of a degree (further digits are dropped); numbers written with
//! an exponent are not read as coordinates.

use crate::calendar::{date_parse_of, date_result_view, now_ms, parse_date, parse_time, time_parse_of, today_utc};
use crate::domain::{Artist, ArtistView, CalendarDate, Event, EventView, Venue, VenueView};
use crate::json::{json_get, json_str, Json};
use crate::metrics::views_of;
use crate::normalize::{NormalizationMetadata, NormalizedEntity, NormalizedEntityView, NormalizedRecord, RecordProvenance};
use crate::parser::ParsedRecord;
use crate::text::{
    all_digits, chars_of, digits_value, lowercase_of, opt_view, owned, parse_u64, parse_u64_spec, replace_spec, replace_str,
    split_chars, split_spec, to_lowercase, trim_spec, trim_str,
};
use vstd::prelude::*;

verus! {

/// The views of a list of keys.
pub open spec fn keys_view(keys: Seq<&str>) -> Seq<Seq<char>> {
    keys.map_values(|k: &str| k@)
}

/// The value of the first of `keys` that an object has.
pub open spec fn first_present(data: Json, keys: Seq<Seq<char>>) -> Option<Json>
    decreases keys.len(),
{
    if keys.len() == 0 {
        None
    } else {
        match json_get(data, keys[0]) {
            Some(v) => Some(v),
            None => first_present(data, keys.drop_first()),
        }
    }
}

/// The text under the first of `keys` an object has, if that is text.
pub open spec fn text_at(data: Json, keys: Seq<Seq<char>>) -> Option<Seq<char>> {
    json_str(first_present(data, keys))
}

/// Text, or `default` when there is none.
pub open spec fn or_text(t: Option<Seq<char>>, default: Seq<char>) -> Seq<char> {
    match t {
        Some(x) => x,
        None => default,
    }
}

/// A name made lowercase with spaces as hyphens and quotes removed.
pub open spec fn name_slug(name: Seq<char>) -> Seq<char> {
    replace_spec(replace_spec(replace_spec(lowercase_of(name), " "@, "-"@), "'"@, ""@), "\""@, ""@)
}

/// The day of an event: `event_day` read as `%Y-%m-%d`, `%m/%d/%Y` or
/// `%m-%d-%Y`, in that order; `today` when there is none that reads.
pub open spec fn event_day_of(data: Json, today: CalendarDate) -> CalendarDate {
    match json_str(json_get(data, "event_day"@)) {
        Some(d) => match date_parse_of(d, "%Y-%m-%d"@) {
            Ok(x) => x,
            Err(_) => match date_parse_of(d, "%m/%d/%Y"@) {
                Ok(x) => x,
                Err(_) => match date_parse_of(d, "%m-%d-%Y"@) {
                    Ok(x) => x,
                    Err(_) => today,
                },
            },
        },
        None => today,
    }
}

/// The event of a record.
pub open spec fn event_of(data: Json, today: CalendarDate, now: i64) -> EventView {
    EventView {
        id: None,
        title: or_text(text_at(data, seq!["title"@, "name"@, "event_name"@]), "Untitled Event"@),
        event_day: event_day_of(data, today),
        start_time: match json_str(json_get(data, "start_time"@)) {
            Some(s) => time_parse_of(s, "%H:%M"@),
            None => None,
        },
        event_url: text_at(data, seq!["event_url"@, "url"@]),
        description: text_at(data, seq!["description"@, "desc"@]),
        event_image_url: text_at(data, seq!["image_url"@, "image"@]),
        venue_id: 0,
        artist_ids: Seq::empty(),
        show_event: true,
        finalized: false,
        created_at: now,
    }
}

/// Ten to the power `n`.
pub open spec fn pow10(n: nat) -> int
    decreases n,
{
    if n == 0 {
        1
    } else {
        10 * pow10((n - 1) as nat)
    }
}

/// The index of the first `c` in `s`.
pub open spec fn first_index(s: Seq<char>, c: char) -> Option<int>
    decreases s.len(),
{
    if s.len() == 0 {
        None
    } else {
        match first_index(s.drop_last(), c) {
            Some(i) => Some(i),
            None => if s.last() == c { Some(s.len() - 1) } else { None },
        }
    }
}

/// The value of fraction digits in millionths: the first six digits, as if
/// padded with zeros.
pub open spec fn micro_fraction(f: Seq<char>) -> int {
    if f.len() >= 6 {
        digits_value(f.subrange(0, 6))
    } else {
        digits_value(f) * pow10((6 - f.len()) as nat)
    }
}

/// A decimal `[-]digits[.digits]` in millionths, dropping further digits;
/// `None` for other text or a value beyond `i64`.
pub open spec fn micro_of(t: Seq<char>) -> Option<int> {
    let neg = t.len() > 0 && t[0] == '-';
    let body = if neg { t.drop_first() } else { t };
    match first_index(body, '.') {
        Some(d) => micro_parts(neg, body.subrange(0, d), body.subrange(d + 1, body.len() as int), true),
        None => micro_parts(neg, body, Seq::<char>::empty(), false),
    }
}

/// A decimal from its sign, integer digits and fraction digits.
pub open spec fn micro_parts(neg: bool, ip: Seq<char>, fp: Seq<char>, has_dot: bool) -> Option<int> {
    if ip.len() > 0 && all_digits(ip) && all_digits(fp) && (!has_dot || fp.len() > 0) {
        let mag = digits_value(ip) * 1_000_000 + micro_fraction(fp);
        let v = if neg { -mag } else { mag };
        if i64::MIN <= v <= i64::MAX {
            Some(v)
        } else {
            None
        }
    } else {
        None
    }
}

/// A coordinate under `k`, in millionths of a degree.
pub open spec fn coordinate_at(data: Json, k: Seq<char>) -> Option<int> {
    match json_get(data, k) {
        Some(Json::Number(t)) => micro_of(t@),
        _ => None,
    }
}

/// The coordinates of a venue: its own when it has both, else Seattle's
/// centre.
pub open spec fn coordinates_at(data: Json) -> (int, int) {
    match (coordinate_at(data, "latitude"@), coordinate_at(data, "longitude"@)) {
        (Some(a), Some(b)) => (a, b),
        _ => (47_606_200, -122_332_100),
    }
}

/// The venue of a record, if it names one.
pub open spec fn venue_of(data: Json, now: i64) -> Option<VenueView> {
    match text_at(data, seq!["venue"@, "venue_name"@, "location"@]) {
        Some(name) => Some(VenueView {
            id: None,
            name: name,
            name_lower: lowercase_of(name),
            slug: name_slug(name),
            address: or_text(text_at(data, seq!["address"@, "venue_address"@]), ""@),
            city: or_text(text_at(data, seq!["city"@, "venue_city"@]), "Seattle"@),
            postal_code: or_text(text_at(data, seq!["postal_code"@, "zip"@]), ""@),
            neighborhood: text_at(data, seq!["neighborhood"@, "district"@]),
            latitude: coordinates_at(data).0 as i64,
            longitude: coordinates_at(data).1 as i64,
            venue_url: text_at(data, seq!["venue_url"@, "website"@]),
            venue_image_url: text_at(data, seq!["venue_image_url"@, "venue_image"@]),
            description: text_at(data, seq!["venue_description"@, "venue_desc"@]),
            show_venue: true,
            created_at: now,
        }),
        None => None,
    }
}

/// The non-empty texts among JSON values, in order.
pub open spec fn nonempty_texts(items: Seq<Json>) -> Seq<Seq<char>>
    decreases items.len(),
{
    if items.len() == 0 {
        Seq::empty()
    } else {
        let prev = nonempty_texts(items.drop_last());
        match items.last() {
            Json::Str(s) => if s@.len() > 0 { prev.push(s@) } else { prev },
            _ => prev,
        }
    }
}

/// The non-empty trimmed pieces of names.
pub open spec fn nonempty_trimmed(pieces: Seq<Seq<char>>) -> Seq<Seq<char>>
    decreases pieces.len(),
{
    if pieces.len() == 0 {
        Seq::empty()
    } else {
        let prev = nonempty_trimmed(pieces.drop_last());
        let t = trim_spec(pieces.last());
        if t.len() > 0 { prev.push(t) } else { prev }
    }
}

/// The names of a list split at `,`, `&` and `+`, trimmed, without empty
/// ones.
pub open spec fn split_names(s: Seq<char>) -> Seq<Seq<char>> {
    nonempty_trimmed(split_spec(replace_spec(replace_spec(s, "&"@, ","@), "+"@, ","@), ','))
}

/// The names of the artists of a record: the texts of its `artists` array,
/// or else its `artist`, `performers` or `bands` list.
pub open spec fn artist_names(data: Json) -> Seq<Seq<char>> {
    match json_get(data, "artists"@) {
        Some(Json::Array(items)) => nonempty_texts(items@),
        _ => match text_at(data, seq!["artist"@, "performers"@, "bands"@]) {
            Some(s) => split_names(s),
            None => Seq::empty(),
        },
    }
}

/// The artist of a name.
pub open spec fn artist_of(name: Seq<char>, now: i64) -> ArtistView {
    ArtistView { id: None, name: name, name_slug: name_slug(name), bio: None, artist_image_url: None, created_at: now }
}

/// Whether a venue stands at Seattle's centre, the coordinates given when
/// it has none of its own.
pub open spec fn at_default_coordinates(v: VenueView) -> bool {
    v.latitude == 47_606_200 && v.longitude == -122_332_100
}

/// The warning given when a venue has no coordinates of its own.
pub open spec fn default_coordinates_warning() -> Seq<char> {
    "Using default Seattle coordinates - address geocoding not available"@
}

/// `r` is a normalized record of `entity` from `source` at `at`.
pub open spec fn normalized_as(
    r: NormalizedRecord,
    entity: NormalizedEntityView,
    source: ParsedRecord,
    at: i64,
    confidence: u32,
    warnings: Seq<Seq<char>>,
    geocoded: bool,
    strategy: Seq<char>,
) -> bool {
    &&& r.entity@ == entity
    &&& r.provenance.envelope_id@ == source.envelope_id@
    &&& r.provenance.source_id@ == source.source_id@
    &&& r.provenance.payload_ref@ == source.payload_ref@
    &&& r.provenance.record_path@ == source.record_path@
    &&& r.provenance.normalized_at == at
    &&& r.normalization.confidence == confidence
    &&& views_of(r.normalization.warnings@) == warnings
    &&& r.normalization.geocoded == geocoded
    &&& r.normalization.strategy@ == strategy
}

/// The warnings after the venue: the default-coordinates warning when the
/// venue stands at the default coordinates.
pub open spec fn venue_warnings(v: Option<VenueView>) -> Seq<Seq<char>> {
    match v {
        Some(x) => if at_default_coordinates(x) { seq![default_coordinates_warning()] } else { Seq::empty() },
        None => Seq::empty(),
    }
}

/// What normalizing a record gives: its event, then its venue if it names
/// one, then one record per artist.
pub open spec fn normalized_records(out: Seq<NormalizedRecord>, source: ParsedRecord, today: CalendarDate, now: i64) -> bool {
    let data = source.record;
    let venue = venue_of(data, now);
    let names = artist_names(data);
    let nv: int = if venue is Some { 1 } else { 0 };
    &&& out.len() == 1 + nv + names.len()
    &&& normalized_as(out[0], NormalizedEntityView::Event(event_of(data, today, now)), source, now, 900, Seq::empty(), false,
        "default_event_extraction"@)
    &&& venue matches Some(v) ==> normalized_as(out[1], NormalizedEntityView::Venue(v), source, now,
        if at_default_coordinates(v) { 700u32 } else { 900u32 }, venue_warnings(venue), !at_default_coordinates(v),
        "default_venue_extraction"@)
    &&& forall|i: int| 0 <= i < names.len() ==> normalized_as(#[trigger] out[1 + nv + i], NormalizedEntityView::Artist(artist_of(names[i], now)),
        source, now, 800, venue_warnings(venue), false, "default_artist_extraction"@)
}

/// Why a record could not be normalized.
#[derive(Debug)]
pub enum NormalizeError {
    /// The record does not suit the normalizer.
    Unsupported(String),
}

/// Turns parsed records into canonical entities.
pub trait Normalizer {
    /// The normalized records of a parsed record.
    fn normalize(&self, record: &ParsedRecord) -> Result<Vec<NormalizedRecord>, NormalizeError>;
}

/// The normalizer of common fields. Addresses are not geocoded: a venue
/// without coordinates gets Seattle's centre whether or not a geocoder is
/// configured.
pub struct DefaultNormalizer {
    /// Whether a geocoder is configured.
    pub geocoding: bool,
}

/// The value of the first of `keys` an object has.
pub fn first_present_of<'a>(data: &'a Json, keys: &Vec<&str>) -> (r: Option<&'a Json>)
    ensures
        match r {
            Some(v) => first_present(*data, keys_view(keys@)) == Some(*v),
            None => first_present(*data, keys_view(keys@)) is None,
        },
{
    let ghost kv = keys_view(keys@);
    let mut i: usize = 0;
    assert(kv.subrange(0, kv.len() as int) =~= kv);
    while i < keys.len()
        invariant
            i <= keys@.len(),
            kv == keys_view(keys@),
            first_present(*data, kv) == first_present(*data, kv.subrange(i as int, kv.len() as int)),
        decreases keys@.len() - i,
    {
        let ghost rest = kv.subrange(i as int, kv.len() as int);
        assert(rest[0] == keys@[i as int]@);
        assert(rest.drop_first() =~= kv.subrange(i + 1, kv.len() as int));
        match data.get(keys[i]) {
            Some(v) => {
                return Some(v);
            },
            None => {},
        }
        i = i + 1;
    }
    assert(kv.subrange(i as int, kv.len() as int).len() == 0);
    None
}

/// The text under the first of `keys` an object has, if that is text.
pub(crate) fn text_of(data: &Json, keys: &Vec<&str>) -> (r: Option<String>)
    ensures
        opt_view(r) == text_at(*data, keys_view(keys@)),
{
    match first_present_of(data, keys) {
        Some(Json::Str(s)) => Some(s.clone()),
        _ => None,
    }
}

/// A list of two keys.
fn keys2<'a>(a: &'a str, b: &'a str) -> (r: Vec<&'a str>)
    ensures
        keys_view(r@) == seq![a@, b@],
{
    let mut v: Vec<&str> = Vec::new();
    v.push(a);
    v.push(b);
    assert(keys_view(v@) =~= seq![a@, b@]);
    v
}

/// A list of three keys.
pub(crate) fn keys3<'a>(a: &'a str, b: &'a str, c: &'a str) -> (r: Vec<&'a str>)
    ensures
        keys_view(r@) == seq![a@, b@, c@],
{
    let mut v: Vec<&str> = Vec::new();
    v.push(a);
    v.push(b);
    v.push(c);
    assert(keys_view(v@) =~= seq![a@, b@, c@]);
    v
}

/// A name made lowercase with spaces as hyphens and quotes removed.
fn slug_of(name: &str) -> (r: String)
    ensures
        r@ == name_slug(name@),
{
    proof {
        reveal_strlit(" ");
        reveal_strlit("'");
        reveal_strlit("\"");
    }
    let lower = to_lowercase(name);
    let a = replace_str(lower.as_str(), " ", "-");
    let b = replace_str(a.as_str(), "'", "");
    replace_str(b.as_str(), "\"", "")
}

/// The value of the digits of `cs` from `a` to `b`, when they are all
/// digits and the value is at most 10^20.
fn read_digits(cs: &Vec<char>, a: usize, b: usize) -> (r: Option<u128>)
    requires
        a <= b <= cs@.len(),
    ensures
        match r {
            Some(v) => all_digits(cs@.subrange(a as int, b as int)) && v == digits_value(cs@.subrange(a as int, b as int))
                && v <= 100_000_000_000_000_000_000,
            None => !all_digits(cs@.subrange(a as int, b as int)) || digits_value(cs@.subrange(a as int, b as int))
                > 100_000_000_000_000_000_000,
        },
{
    let ghost sub = cs@.subrange(a as int, b as int);
    let mut v: u128 = 0;
    let mut i: usize = a;
    while i < b
        invariant
            a <= i <= b <= cs@.len(),
            sub == cs@.subrange(a as int, b as int),
            all_digits(cs@.subrange(a as int, i as int)),
            v == digits_value(cs@.subrange(a as int, i as int)),
            v <= 100_000_000_000_000_000_000,
        decreases b - i,
    {
        let cu = cs[i] as u32;
        if cu < 48 || cu > 57 {
            assert(!all_digits(sub)) by {
                assert(sub[i - a] == cs@[i as int]);
            }
            return None;
        }
        let ghost p = cs@.subrange(a as int, i + 1);
        assert(p.drop_last() =~= cs@.subrange(a as int, i as int));
        assert(all_digits(p)) by {
            assert forall|j: int| 0 <= j < p.len() implies 48 <= (#[trigger] p[j] as u32) <= 57 by {
                if j < p.len() - 1 {
                    assert(p[j] == cs@.subrange(a as int, i as int)[j]);
                }
            }
        }
        let nv = v * 10 + (cu - 48) as u128;
        if nv > 100_000_000_000_000_000_000 {
            proof {
                if all_digits(sub) {
                    assert(p =~= sub.subrange(0, i + 1 - a));
                    crate::text::lemma_digits_value_grows(sub, i + 1 - a);
                }
            }
            return None;
        }
        v = nv;
        i = i + 1;
    }
    Some(v)
}

/// Whether the characters of `cs` from `a` to `b` are all digits.
fn digits_in(cs: &Vec<char>, a: usize, b: usize) -> (r: bool)
    requires
        a <= b <= cs@.len(),
    ensures
        r == all_digits(cs@.subrange(a as int, b as int)),
{
    let ghost sub = cs@.subrange(a as int, b as int);
    let mut i: usize = a;
    while i < b
        invariant
            a <= i <= b <= cs@.len(),
            sub == cs@.subrange(a as int, b as int),
            forall|j: int| 0 <= j < i - a ==> 48 <= (#[trigger] sub[j] as u32) <= 57,
        decreases b - i,
    {
        let cu = cs[i] as u32;
        assert(sub[i - a] == cs@[i as int]);
        if cu < 48 || cu > 57 {
            return false;
        }
        i = i + 1;
    }
    true
}

/// The value of `n` digits is less than ten to the `n`.
proof fn lemma_digits_bound(s: Seq<char>)
    requires
        all_digits(s),
    ensures
        0 <= digits_value(s) < pow10(s.len()),
    decreases s.len(),
{
    if s.len() > 0 {
        assert(all_digits(s.drop_last()));
        lemma_digits_bound(s.drop_last());
        let d = (s.last() as u32) as int - 48;
        assert(0 <= d <= 9) by {
            assert(s.last() == s[s.len() - 1]);
        }
        assert(digits_value(s.drop_last()) * 10 + d < 10 * pow10((s.len() - 1) as nat)) by (nonlinear_arith)
            requires
                0 <= digits_value(s.drop_last()) < pow10((s.len() - 1) as nat),
                0 <= d <= 9,
        ;
    }
}

/// Ten to a power of at most six is at most a million.
proof fn lemma_pow10_small(n: nat)
    requires
        n <= 6,
    ensures
        pow10(n) <= 1_000_000,
{
    reveal_with_fuel(pow10, 7);
}

/// The fraction of digits is not negative.
proof fn lemma_fraction_nonneg(f: Seq<char>)
    ensures
        all_digits(f) ==> micro_fraction(f) >= 0,
{
    if all_digits(f) {
        if f.len() >= 6 {
            assert(all_digits(f.subrange(0, 6)));
            crate::text::lemma_digits_value_nonneg(f.subrange(0, 6));
        } else {
            crate::text::lemma_digits_value_nonneg(f);
            lemma_pow10_positive((6 - f.len()) as nat);
            assert(digits_value(f) * pow10((6 - f.len()) as nat) >= 0) by (nonlinear_arith)
                requires
                    digits_value(f) >= 0,
                    pow10((6 - f.len()) as nat) > 0,
            ;
        }
    }
}

/// Powers of ten are positive.
proof fn lemma_pow10_positive(n: nat)
    ensures
        pow10(n) > 0,
    decreases n,
{
    if n > 0 {
        lemma_pow10_positive((n - 1) as nat);
    }
}

/// Appending zeros multiplies the value of digits by a power of ten.
proof fn lemma_pad_zeros(f: Seq<char>, k: nat)
    ensures
        digits_value(f + Seq::new(k, |i: int| '0')) == digits_value(f) * pow10(k),
    decreases k,
{
    if k > 0 {
        lemma_pad_zeros(f, (k - 1) as nat);
        let z = f + Seq::new(k, |i: int| '0');
        assert(z.drop_last() =~= f + Seq::new((k - 1) as nat, |i: int| '0'));
        assert(z.last() == '0');
        assert(digits_value(f) * pow10((k - 1) as nat) * 10 == digits_value(f) * pow10(k)) by (nonlinear_arith)
            requires
                pow10(k) == 10 * pow10((k - 1) as nat),
        ;
    }
}

/// The first index of `c` in `cs` from `a` on, relative to `a`.
fn find_char(cs: &Vec<char>, a: usize, c: char) -> (r: Option<usize>)
    requires
        a <= cs@.len(),
    ensures
        match r {
            Some(d) => first_index(cs@.subrange(a as int, cs@.len() as int), c) == Some(d as int) && a + d < cs@.len(),
            None => first_index(cs@.subrange(a as int, cs@.len() as int), c) is None,
        },
{
    let ghost body = cs@.subrange(a as int, cs@.len() as int);
    let mut i: usize = a;
    while i < cs.len()
        invariant
            a <= i <= cs@.len(),
            body == cs@.subrange(a as int, cs@.len() as int),
            first_index(body.subrange(0, i - a), c) is None,
        decreases cs@.len() - i,
    {
        let ghost p = body.subrange(0, i + 1 - a);
        assert(p.drop_last() =~= body.subrange(0, i - a));
        assert(p.last() == cs@[i as int]);
        if cs[i] == c {
            proof {
                lemma_first_index_prefix(body, c, i + 1 - a);
            }
            return Some(i - a);
        }
        i = i + 1;
    }
    assert(body.subrange(0, i - a) =~= body);
    None
}

/// The first index found in a prefix is the first index of the whole.
proof fn lemma_first_index_prefix(s: Seq<char>, c: char, n: int)
    requires
        0 <= n <= s.len(),
        first_index(s.subrange(0, n), c) is Some,
    ensures
        first_index(s, c) == first_index(s.subrange(0, n), c),
    decreases s.len() - n,
{
    if n < s.len() {
        let p = s.subrange(0, n + 1);
        assert(p.drop_last() =~= s.subrange(0, n));
        lemma_first_index_prefix(s, c, n + 1);
    } else {
        assert(s.subrange(0, n) =~= s);
    }
}

/// A decimal `[-]digits[.digits]` in millionths.
pub fn micro_degrees(t: &str) -> (r: Option<i64>)
    ensures
        match r {
            Some(v) => micro_of(t@) == Some(v as int),
            None => micro_of(t@) is None,
        },
{
    let cs = chars_of(t);
    let neg = cs.len() > 0 && cs[0] == '-';
    let a: usize = if neg { 1 } else { 0 };
    let ghost body = if neg { t@.drop_first() } else { t@ };
    assert(body =~= cs@.subrange(a as int, cs@.len() as int));
    let (ie, fs, fe, has_dot) = match find_char(&cs, a, '.') {
        Some(d) => (a + d, a + d + 1, cs.len(), true),
        None => (cs.len(), cs.len(), cs.len(), false),
    };
    let ghost ip_s = cs@.subrange(a as int, ie as int);
    let ghost fp_s = cs@.subrange(fs as int, fe as int);
    proof {
        if has_dot {
            assert(body.subrange(0, ie - a) =~= ip_s);
            assert(body.subrange(ie - a + 1, body.len() as int) =~= fp_s);
        } else {
            assert(fp_s =~= Seq::<char>::empty());
            assert(ip_s =~= body);
        }
        assert(micro_of(t@) == micro_parts(neg, ip_s, fp_s, has_dot));
    }
    if ie == a || (has_dot && fs == fe) {
        return None;
    }
    let ip = match read_digits(&cs, a, ie) {
        Some(v) => v,
        None => {
            proof {
                if all_digits(ip_s) {
                    lemma_fraction_nonneg(fp_s);
                }
            }
            return None;
        },
    };
    let fp_len = fe - fs;
    let frac: u128 = if fp_len >= 6 {
        let six = match read_digits(&cs, fs, fs + 6) {
            Some(v) => v,
            None => {
                proof {
                    let fp = cs@.subrange(fs as int, fe as int);
                    assert(fp.subrange(0, 6) =~= cs@.subrange(fs as int, fs + 6));
                    if all_digits(fp) {
                        assert(all_digits(fp.subrange(0, 6)));
                        lemma_digits_bound(fp.subrange(0, 6));
                        lemma_pow10_small(6);
                    }
                }
                return None;
            },
        };
        if !digits_in(&cs, fs, fe) {
            return None;
        }
        proof {
            let fp = cs@.subrange(fs as int, fe as int);
            assert(fp.subrange(0, 6) =~= cs@.subrange(fs as int, fs + 6));
        }
        six
    } else {
        let f = match read_digits(&cs, fs, fe) {
            Some(v) => v,
            None => {
                proof {
                    if all_digits(fp_s) {
                        lemma_digits_bound(fp_s);
                        lemma_pow10_small(fp_s.len());
                    }
                }
                return None;
            },
        };
        let mut m: u128 = 1;
        let mut k: usize = 0;
        while k < 6 - fp_len
            invariant
                fp_len < 6,
                k <= 6 - fp_len,
                m == pow10(k as nat),
                m <= 1_000_000,
            decreases 6 - fp_len - k,
        {
            assert(pow10((k + 1) as nat) == 10 * pow10(k as nat));
            assert(m <= 100_000) by {
                reveal_with_fuel(pow10, 6);
                if k == 0 {
                } else if k == 1 {
                } else if k == 2 {
                } else if k == 3 {
                } else if k == 4 {
                } else {
                }
            }
            m = m * 10;
            k = k + 1;
        }
        assert(f * m <= 100_000_000_000_000_000_000 * 1_000_000) by (nonlinear_arith)
            requires
                f <= 100_000_000_000_000_000_000,
                m <= 1_000_000,
        ;
        f * m
    };
    assert(ip * 1_000_000 <= 100_000_000_000_000_000_000 * 1_000_000) by (nonlinear_arith)
        requires
            ip <= 100_000_000_000_000_000_000,
    ;
    let mag: u128 = ip * 1_000_000 + frac;
    if neg {
        if mag > 9_223_372_036_854_775_808 {
            return None;
        }
        Some((-(mag as i128)) as i64)
    } else {
        if mag > 9_223_372_036_854_775_807 {
            return None;
        }
        Some(mag as i64)
    }
}

/// The day of an event.
fn event_day(data: &Json, today: CalendarDate) -> (r: CalendarDate)
    ensures
        r == event_day_of(*data, today),
{
    proof {
        reveal_strlit("%Y-%m-%d");
        reveal_strlit("%m/%d/%Y");
        reveal_strlit("%m-%d-%Y");
    }
    match data.get("event_day") {
        Some(Json::Str(d)) => match parse_date(d.as_str(), "%Y-%m-%d") {
            Ok(x) => x,
            Err(_) => match parse_date(d.as_str(), "%m/%d/%Y") {
                Ok(x) => x,
                Err(_) => match parse_date(d.as_str(), "%m-%d-%Y") {
                    Ok(x) => x,
                    Err(_) => today,
                },
            },
        },
        _ => today,
    }
}

/// The event of a record.
fn extract_event(data: &Json, today: CalendarDate, now: i64) -> (r: Event)
    ensures
        r@ == event_of(*data, today, now),
{
    let title = match text_of(data, &keys3("title", "name", "event_name")) {
        Some(t) => t,
        None => owned("Untitled Event"),
    };
    let start_time = match data.get("start_time") {
        Some(Json::Str(s)) => parse_time(s.as_str(), "%H:%M"),
        _ => None,
    };
    let e = Event {
        id: None,
        title,
        event_day: event_day(data, today),
        start_time,
        event_url: text_of(data, &keys2("event_url", "url")),
        description: text_of(data, &keys2("description", "desc")),
        event_image_url: text_of(data, &keys2("image_url", "image")),
        venue_id: 0,
        artist_ids: Vec::new(),
        show_event: true,
        finalized: false,
        created_at: now,
    };
    assert(e@.artist_ids =~= Seq::<u128>::empty());
    e
}

/// A coordinate under `k`.
fn coordinate(data: &Json, k: &str) -> (r: Option<i64>)
    ensures
        match r {
            Some(v) => coordinate_at(*data, k@) == Some(v as int),
            None => coordinate_at(*data, k@) is None,
        },
{
    match data.get(k) {
        Some(Json::Number(t)) => micro_degrees(t.as_str()),
        _ => None,
    }
}

/// Text, or `default` when there is none.
fn text_or(t: Option<String>, default: &str) -> (r: String)
    ensures
        r@ == or_text(opt_view(t), default@),
{
    match t {
        Some(x) => x,
        None => owned(default),
    }
}

/// The venue of a record, if it names one.
fn extract_venue(data: &Json, now: i64) -> (r: Option<Venue>)
    ensures
        match r {
            Some(v) => venue_of(*data, now) == Some(v@),
            None => venue_of(*data, now) is None,
        },
{
    let name = match text_of(data, &keys3("venue", "venue_name", "location")) {
        Some(n) => n,
        None => {
            return None;
        },
    };
    let (latitude, longitude) = match (coordinate(data, "latitude"), coordinate(data, "longitude")) {
        (Some(a), Some(b)) => (a, b),
        _ => (47_606_200i64, -122_332_100i64),
    };
    let v = Venue {
        id: None,
        name_lower: to_lowercase(name.as_str()),
        slug: slug_of(name.as_str()),
        address: text_or(text_of(data, &keys2("address", "venue_address")), ""),
        city: text_or(text_of(data, &keys2("city", "venue_city")), "Seattle"),
        postal_code: text_or(text_of(data, &keys2("postal_code", "zip")), ""),
        neighborhood: text_of(data, &keys2("neighborhood", "district")),
        latitude,
        longitude,
        venue_url: text_of(data, &keys2("venue_url", "website")),
        venue_image_url: text_of(data, &keys2("venue_image_url", "venue_image")),
        description: text_of(data, &keys2("venue_description", "venue_desc")),
        show_venue: true,
        created_at: now,
        name,
    };
    Some(v)
}

/// The non-empty texts among JSON values.
fn texts_of(items: &Vec<Json>) -> (r: Vec<String>)
    ensures
        views_of(r@) == nonempty_texts(items@),
{
    let mut r: Vec<String> = Vec::new();
    let mut i: usize = 0;
    while i < items.len()
        invariant
            i <= items@.len(),
            views_of(r@) == nonempty_texts(items@.subrange(0, i as int)),
        decreases items@.len() - i,
    {
        let ghost pre = items@.subrange(0, i + 1);
        assert(pre.drop_last() =~= items@.subrange(0, i as int));
        assert(pre.last() == items@[i as int]);
        let ghost before = views_of(r@);
        match &items[i] {
            Json::Str(s) => {
                if s.unicode_len() > 0 {
                    r.push(s.clone());
                    assert(views_of(r@) =~= before.push(s@));
                }
            },
            _ => {},
        }
        i = i + 1;
    }
    assert(items@.subrange(0, items@.len() as int) =~= items@);
    r
}

/// The names of a list split at `,`, `&` and `+`.
fn names_of_list(s: &str) -> (r: Vec<String>)
    ensures
        views_of(r@) == split_names(s@),
{
    proof {
        reveal_strlit("&");
        reveal_strlit("+");
        reveal_strlit(",");
    }
    let a = replace_str(s, "&", ",");
    let b = replace_str(a.as_str(), "+", ",");
    let pieces = split_chars(&chars_of(b.as_str()), ',');
    let ghost ps = split_spec(b@, ',');
    assert(views_of(pieces@) == ps);
    let mut r: Vec<String> = Vec::new();
    let mut i: usize = 0;
    while i < pieces.len()
        invariant
            i <= pieces@.len(),
            views_of(pieces@) == ps,
            views_of(r@) == nonempty_trimmed(ps.subrange(0, i as int)),
        decreases pieces@.len() - i,
    {
        let ghost pre = ps.subrange(0, i + 1);
        assert(pre.drop_last() =~= ps.subrange(0, i as int));
        assert(pre.last() == pieces@[i as int]@);
        let ghost before = views_of(r@);
        let t = trim_str(pieces[i].as_str());
        if t.unicode_len() > 0 {
            let ghost tv = t@;
            r.push(t);
            assert(views_of(r@) =~= before.push(tv));
        }
        i = i + 1;
    }
    assert(ps.subrange(0, ps.len() as int) =~= ps);
    r
}

/// The names of a record's artists.
fn extract_artist_names(data: &Json) -> (r: Vec<String>)
    ensures
        views_of(r@) == artist_names(*data),
{
    match data.get("artists") {
        Some(Json::Array(items)) => texts_of(items),
        _ => match text_of(data, &keys3("artist", "performers", "bands")) {
            Some(s) => names_of_list(s.as_str()),
            None => {
                let r: Vec<String> = Vec::new();
                assert(views_of(r@) =~= Seq::<Seq<char>>::empty());
                r
            },
        },
    }
}

/// A normalized record of `entity` from `source`.
pub(crate) fn record_of(
    entity: NormalizedEntity,
    source: &ParsedRecord,
    at: i64,
    confidence: u32,
    warnings: &Vec<String>,
    geocoded: bool,
    strategy: &str,
) -> (r: NormalizedRecord)
    ensures
        normalized_as(r, entity@, *source, at, confidence, views_of(warnings@), geocoded, strategy@),
{
    let mut ws: Vec<String> = Vec::new();
    let mut i: usize = 0;
    while i < warnings.len()
        invariant
            i <= warnings@.len(),
            views_of(ws@) == views_of(warnings@).subrange(0, i as int),
        decreases warnings@.len() - i,
    {
        let ghost prev = views_of(ws@);
        ws.push(warnings[i].clone());
        assert(views_of(ws@) =~= prev.push(warnings@[i as int]@));
        assert(views_of(ws@) =~= views_of(warnings@).subrange(0, i + 1));
        i = i + 1;
    }
    assert(views_of(warnings@).subrange(0, warnings@.len() as int) =~= views_of(warnings@));
    NormalizedRecord {
        entity,
        provenance: RecordProvenance {
            envelope_id: source.envelope_id.clone(),
            source_id: source.source_id.clone(),
            payload_ref: source.payload_ref.clone(),
            record_path: source.record_path.clone(),
            normalized_at: at,
        },
        normalization: NormalizationMetadata { confidence, warnings: ws, geocoded, strategy: owned(strategy) },
    }
}

impl DefaultNormalizer {
    /// A normalizer without a geocoder.
    pub fn new() -> (r: Self)
        ensures
            !r.geocoding,
    {
        DefaultNormalizer { geocoding: false }
    }

    /// The normalized records of a record: its event, its venue if it names
    /// one and its artists, `today` standing for missing or unreadable
    /// days and `now` being the time of normalization.
    pub fn normalize_at(&self, record: &ParsedRecord, today: CalendarDate, now: i64) -> (r: Vec<NormalizedRecord>)
        ensures
            normalized_records(r@, *record, today, now),
    {
        let data = &record.record;
        let mut results: Vec<NormalizedRecord> = Vec::new();
        let mut warnings: Vec<String> = Vec::new();
        let event = extract_event(data, today, now);
        results.push(record_of(NormalizedEntity::Event(event), record, now, 900, &warnings, false, "default_event_extraction"));
        assert(views_of(warnings@) =~= Seq::<Seq<char>>::empty());
        let ghost venue = venue_of(*data, now);
        let nv: usize = match extract_venue(data, now) {
            Some(v) => {
                let at_default = v.latitude == 47_606_200 && v.longitude == -122_332_100;
                let confidence: u32 = if at_default { 700 } else { 900 };
                if at_default {
                    warnings.push(owned("Using default Seattle coordinates - address geocoding not available"));
                }
                assert(views_of(warnings@) =~= venue_warnings(venue));
                results.push(record_of(NormalizedEntity::Venue(v), record, now, confidence, &warnings, !at_default, "default_venue_extraction"));
                1
            },
            None => 0,
        };
        assert(views_of(warnings@) =~= venue_warnings(venue));
        let names = extract_artist_names(data);
        let ghost ns = artist_names(*data);
        let mut i: usize = 0;
        while i < names.len()
            invariant
                i <= names@.len(),
                views_of(names@) == ns,
                ns == artist_names(*data),
                venue == venue_of(*data, now),
                nv as int == (if venue is Some { 1int } else { 0int }),
                views_of(warnings@) == venue_warnings(venue),
                results@.len() == 1 + nv + i,
                normalized_as(results@[0], NormalizedEntityView::Event(event_of(*data, today, now)), *record, now, 900, Seq::empty(),
                    false, "default_event_extraction"@),
                venue matches Some(v) ==> normalized_as(results@[1], NormalizedEntityView::Venue(v), *record, now,
                    if at_default_coordinates(v) { 700u32 } else { 900u32 }, venue_warnings(venue), !at_default_coordinates(v),
                    "default_venue_extraction"@),
                forall|j: int| 0 <= j < i ==> normalized_as(#[trigger] results@[1 + nv + j], NormalizedEntityView::Artist(
                    artist_of(ns[j], now)), *record, now, 800, venue_warnings(venue), false, "default_artist_extraction"@),
            decreases names@.len() - i,
        {
            let name = names[i].clone();
            assert(name@ == ns[i as int]);
            let a = Artist {
                id: None,
                name_slug: slug_of(name.as_str()),
                bio: None,
                artist_image_url: None,
                created_at: now,
                name,
            };
            let ghost before = results@;
            results.push(record_of(NormalizedEntity::Artist(a), record, now, 800, &warnings, false, "default_artist_extraction"));
            assert forall|j: int| 0 <= j < i + 1 implies normalized_as(#[trigger] results@[1 + nv + j], NormalizedEntityView::Artist(
                artist_of(ns[j], now)), *record, now, 800, venue_warnings(venue), false, "default_artist_extraction"@) by {
                if j < i {
                    assert(results@[1 + nv + j] == before[1 + nv + j]);
                }
            }
            i = i + 1;
        }
        results
    }
}

impl Normalizer for DefaultNormalizer {
    /// The normalized records of a record now, by the clock: today (UTC)
    /// stands for missing or unreadable days.
    fn normalize(&self, record: &ParsedRecord) -> (r: Result<Vec<NormalizedRecord>, NormalizeError>)
        ensures
            r is Ok,
            exists|today: CalendarDate, now: i64| #[trigger] normalized_records(r->Ok_0@, *record, today, now),
    {
        let today = today_utc();
        let now = now_ms();
        let out = self.normalize_at(record, today, now);
        assert(normalized_records(out@, *record, today, now));
        assert(exists|t: CalendarDate, n: i64| #[trigger] normalized_records(out@, *record, t, n));
        let r: Result<Vec<NormalizedRecord>, NormalizeError> = Ok(out);
        assert(r->Ok_0@ == out@);
        r
    }
}

/// The text under `k1`, or when `k1` is absent the text under `k2`;
/// `default` when the value found is not text or neither key is present.
pub open spec fn text_under_either(data: Json, k1: Seq<char>, k2: Seq<char>, default: Seq<char>) -> Seq<char> {
    match json_get(data, k1) {
        Some(Json::Str(a)) => a@,
        Some(_) => default,
        None => match json_get(data, k2) {
            Some(Json::Str(a)) => a@,
            _ => default,
        },
    }
}

/// The text under `k1`, or when `k1` is absent the text under `k2`; none
/// when the value found is not text or neither key is present.
pub open spec fn text_at_either(data: Json, k1: Seq<char>, k2: Seq<char>) -> Option<Seq<char>> {
    match json_get(data, k1) {
        Some(Json::Str(a)) => Some(a@),
        Some(_) => None,
        None => match json_get(data, k2) {
            Some(Json::Str(a)) => Some(a@),
            _ => None,
        },
    }
}

/// A normalized record's venue takes its address from the parsed record:
/// when the record names a venue (under `venue`, `venue_name` or
/// `location`), the second normalized record is that venue, named by the
/// first of those keys present, and its address is the text under
/// `address`; when there is no `address`, the text under `venue_address`;
/// empty when the value found is not text or there is neither. Its city is
/// the text under `city`, else `venue_city`, else "Seattle"; its postal
/// code the text under `postal_code`, else `zip`, else empty.
pub proof fn lemma_venue_address(out: Seq<NormalizedRecord>, source: ParsedRecord, today: CalendarDate, now: i64)
    requires
        normalized_records(out, source, today, now),
        text_at(source.record, seq!["venue"@, "venue_name"@, "location"@]) is Some,
    ensures
        out.len() >= 2,
        out[1].entity@ is Venue,
        ({
            let data = source.record;
            let v = out[1].entity@->Venue_0;
            &&& json_get(data, "address"@) matches Some(x) ==> v.address == (match x {
                Json::Str(a) => a@,
                _ => ""@,
            })
            &&& json_get(data, "address"@) is None ==> v.address == (match json_get(data, "venue_address"@) {
                Some(Json::Str(a)) => a@,
                _ => ""@,
            })
            &&& v.city == text_under_either(data, "city"@, "venue_city"@, "Seattle"@)
            &&& v.postal_code == text_under_either(data, "postal_code"@, "zip"@, ""@)
            &&& json_get(data, "venue"@) is Some ==> json_str(json_get(data, "venue"@)) == Some(v.name)
            &&& json_get(data, "venue"@) is None && json_get(data, "venue_name"@) is Some
                ==> json_str(json_get(data, "venue_name"@)) == Some(v.name)
            &&& json_get(data, "venue"@) is None && json_get(data, "venue_name"@) is None
                ==> json_str(json_get(data, "location"@)) == Some(v.name)
        }),
{
    reveal_with_fuel(first_present, 4);
    let keys = seq!["address"@, "venue_address"@];
    assert(keys[0] == "address"@);
    assert(keys.drop_first() =~= seq!["venue_address"@]);
    assert(keys.drop_first().drop_first() =~= Seq::<Seq<char>>::empty());
    let cs = seq!["city"@, "venue_city"@];
    assert(cs.drop_first() =~= seq!["venue_city"@]);
    assert(cs.drop_first().drop_first() =~= Seq::<Seq<char>>::empty());
    let ps = seq!["postal_code"@, "zip"@];
    assert(ps.drop_first() =~= seq!["zip"@]);
    assert(ps.drop_first().drop_first() =~= Seq::<Seq<char>>::empty());
    let ns = seq!["venue"@, "venue_name"@, "location"@];
    assert(ns.drop_first() =~= seq!["venue_name"@, "location"@]);
    assert(ns.drop_first().drop_first() =~= seq!["location"@]);
    assert(ns.drop_first().drop_first().drop_first() =~= Seq::<Seq<char>>::empty());
}

/// A normalized record's event takes its fields from the parsed record: its
/// title is the text under `title`, else `name`, else `event_name` (the
/// first of them present), "Untitled Event" when that value is not text or
/// none is present; its link is under `event_url`, else `url`; its
/// description under `description`, else `desc`; its image under
/// `image_url`, else `image`.
pub proof fn lemma_event_fields(out: Seq<NormalizedRecord>, source: ParsedRecord, today: CalendarDate, now: i64)
    requires
        normalized_records(out, source, today, now),
    ensures
        out[0].entity@ is Event,
        ({
            let data = source.record;
            let ev = out[0].entity@->Event_0;
            &&& json_get(data, "title"@) matches Some(x) ==> ev.title == (match x {
                Json::Str(a) => a@,
                _ => "Untitled Event"@,
            })
            &&& json_get(data, "title"@) is None ==> ev.title == text_under_either(data, "name"@, "event_name"@, "Untitled Event"@)
            &&& ev.event_url == text_at_either(data, "event_url"@, "url"@)
            &&& ev.description == text_at_either(data, "description"@, "desc"@)
            &&& ev.event_image_url == text_at_either(data, "image_url"@, "image"@)
        }),
{
    reveal_with_fuel(first_present, 4);
    let ts = seq!["title"@, "name"@, "event_name"@];
    assert(ts.drop_first() =~= seq!["name"@, "event_name"@]);
    assert(ts.drop_first().drop_first() =~= seq!["event_name"@]);
    assert(ts.drop_first().drop_first().drop_first() =~= Seq::<Seq<char>>::empty());
    let us = seq!["event_url"@, "url"@];
    assert(us.drop_first() =~= seq!["url"@]);
    assert(us.drop_first().drop_first() =~= Seq::<Seq<char>>::empty());
    let ds = seq!["description"@, "desc"@];
    assert(ds.drop_first() =~= seq!["desc"@]);
    assert(ds.drop_first().drop_first() =~= Seq::<Seq<char>>::empty());
    let is = seq!["image_url"@, "image"@];
    assert(is.drop_first() =~= seq!["image"@]);
    assert(is.drop_first().drop_first() =~= Seq::<Seq<char>>::empty());
}

} // verus!
