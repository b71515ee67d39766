//! Enrichment of quality-assessed records with Seattle-area context: city,
//! district, spatial bin, tags and geographic properties.
//!
//! Coordinates are millionths of a degree; distances follow the flat
//! approximation of 111 km per degree of latitude and 85 km per degree of
//! longitude, computed exactly on integers and held in millimetres.
//! Scores are thousandths, rounded down.

use crate::calendar::now_ms;
use crate::domain::VenueView;
use crate::normalize::{NormalizedEntity, NormalizedEntityView};
use crate::quality_gate::QualityAssessedRecord;
use crate::text::{i64_text, lowercase_of, owned, replace_spec, replace_str, signed_decimal_spec, str_eq, to_lowercase};
use vstd::prelude::*;

verus! {

/// How densely populated an area is.
#[derive(Debug, Clone, Copy, PartialEq, Eq, Structural)]
pub enum PopulationDensity {
    Rural,
    Suburban,
    Urban,
    Dense,
    Unknown,
}

/// Versions of the reference data an enrichment used.
#[derive(Debug)]
pub struct ReferenceVersions {
    pub city_boundaries: Option<String>,
    pub admin_boundaries: Option<String>,
    pub spatial_grid: Option<String>,
    pub poi_data: Option<String>,
}

/// Geographic properties of a record's location.
#[derive(Debug)]
pub struct GeoProperties {
    pub within_city_bounds: bool,
    /// Millimetres from the city centre, rounded down.
    pub distance_from_center_mm: Option<u64>,
    pub population_density: PopulationDensity,
    /// Thousandths: 1000 at the centre, falling to 0 at 50 km.
    pub transit_accessibility: Option<u32>,
    pub nearby_landmarks: Vec<String>,
}

/// What enrichment adds to a record.
#[derive(Debug)]
pub struct EnrichmentMetadata {
    pub city: Option<String>,
    pub district: Option<String>,
    pub region: Option<String>,
    pub spatial_bin: Option<String>,
    pub tags: Vec<String>,
    pub geo_properties: GeoProperties,
    pub reference_versions: ReferenceVersions,
    pub strategy: String,
    /// Thousandths.
    pub confidence: u32,
    pub warnings: Vec<String>,
}

/// A quality-assessed record with its enrichment.
#[derive(Debug)]
pub struct EnrichedRecord {
    pub quality_assessed_record: QualityAssessedRecord,
    pub enrichment: EnrichmentMetadata,
    /// Milliseconds since the Unix epoch.
    pub enriched_at: i64,
}

/// Why a record could not be enriched.
#[derive(Debug, Clone, Copy, PartialEq, Eq, Structural)]
pub enum EnrichError {
    /// A coordinate, the grid or the quality score is outside what the
    /// enricher computes with.
    OutOfRange,
}

/// Adds context to quality-assessed records.
pub trait Enricher {
    /// The record with its enrichment.
    fn enrich(&self, record: QualityAssessedRecord) -> Result<EnrichedRecord, EnrichError>;
}

/// The largest coordinate, in millionths of a degree, whose distances the
/// enricher computes in 128-bit integers.
pub const COORD_LIMIT: i64 = 1_000_000_000_000_000;

/// A coordinate the enricher can compute with.
pub open spec fn coord_ok(x: int) -> bool {
    -COORD_LIMIT <= x <= COORD_LIMIT
}

/// Enrichment around a city centre, binning coordinates on a grid.
#[derive(Debug)]
pub struct DefaultEnricher {
    /// Latitude and longitude of the centre, millionths of a degree.
    pub city_center: (i64, i64),
    /// Grid cell size, millionths of a degree.
    pub spatial_grid_size: i64,
    pub reference_versions: ReferenceVersions,
}

/// The enricher's settings are ones it can compute with.
pub open spec fn enricher_ok(e: DefaultEnricher) -> bool {
    &&& coord_ok(e.city_center.0 as int)
    &&& coord_ok(e.city_center.1 as int)
}

/// The squared distance in square millimetres between two points.
pub open spec fn dist_sq(lat1: int, lng1: int, lat2: int, lng2: int) -> int {
    ((lat1 - lat2) * 111) * ((lat1 - lat2) * 111) + ((lng1 - lng2) * 85) * ((lng1 - lng2) * 85)
}

/// `r` is the square root of `x` rounded down.
pub open spec fn is_isqrt(x: int, r: int) -> bool {
    0 <= r && r * r <= x && x < (r + 1) * (r + 1)
}

/// Whether a point lies in Seattle's bounding box.
pub open spec fn in_seattle(lat: int, lng: int) -> bool {
    47_480_000 <= lat <= 47_740_000 && -122_460_000 <= lng <= -122_220_000
}

/// The density class of a squared distance from the centre: within 5 km
/// dense, 15 km urban, 30 km suburban, rural beyond.
pub open spec fn density_of(d2: int) -> PopulationDensity {
    if d2 < 25_000_000_000_000 {
        PopulationDensity::Dense
    } else if d2 < 225_000_000_000_000 {
        PopulationDensity::Urban
    } else if d2 < 900_000_000_000_000 {
        PopulationDensity::Suburban
    } else {
        PopulationDensity::Rural
    }
}

/// Transit accessibility in thousandths for a distance in millimetres.
pub open spec fn transit_of(d_mm: int) -> int {
    let used = d_mm / 50_000;
    if used >= 1000 {
        0
    } else {
        1000 - used
    }
}

/// Seattle's landmarks and where they are.
pub open spec fn landmarks() -> Seq<(int, int, Seq<char>)> {
    seq![
        (47_620_500, -122_349_300, "Space Needle"@),
        (47_608_900, -122_335_600, "Pike Place Market"@),
        (47_595_200, -122_331_600, "Pioneer Square"@),
        (47_604_000, -122_334_900, "Waterfront"@),
        (47_613_100, -122_342_400, "Belltown"@),
        (47_624_900, -122_336_400, "Capitol Hill"@),
        (47_669_000, -122_384_700, "Ballard"@),
        (47_681_500, -122_353_400, "Fremont"@),
    ]
}

/// The names of the first `n` landmarks within 2 km of a point, in order.
pub open spec fn landmarks_near(lat: int, lng: int, n: int) -> Seq<Seq<char>>
    decreases n,
{
    if n <= 0 {
        Seq::empty()
    } else {
        let prev = landmarks_near(lat, lng, n - 1);
        let l = landmarks()[n - 1];
        if dist_sq(lat, lng, l.0, l.1) < 4_000_000_000_000 {
            prev.push(l.2)
        } else {
            prev
        }
    }
}

/// The city of a point.
pub open spec fn city_of(lat: int, lng: int) -> Option<Seq<char>> {
    if in_seattle(lat, lng) {
        Some("Seattle"@)
    } else {
        None
    }
}

/// The district of a point, by the first rule that applies.
pub open spec fn district_of(lat: int, lng: int) -> Option<Seq<char>> {
    if lat > 47_620_000 && lng > -122_340_000 {
        Some("Capitol Hill"@)
    } else if lat > 47_660_000 && lng < -122_370_000 {
        Some("Ballard"@)
    } else if lat > 47_610_000 && lng > -122_350_000 {
        Some("Belltown"@)
    } else if lat < 47_600_000 && lng > -122_340_000 {
        Some("Pioneer Square"@)
    } else if lat > 47_670_000 && lng > -122_360_000 {
        Some("Fremont"@)
    } else if in_seattle(lat, lng) {
        Some("Seattle"@)
    } else {
        None
    }
}

/// The cell of `x` on a grid of size `g`: `x / g` rounded down, held in an
/// `i32` the way a float cast saturates; on a grid of size zero the quotient
/// is infinite with the sign of `x`, or not a number (cast to zero) for a
/// zero `x`.
pub open spec fn cell_of(x: int, g: int) -> int {
    if g == 0 {
        if x > 0 {
            i32::MAX as int
        } else if x < 0 {
            i32::MIN as int
        } else {
            0
        }
    } else {
        clamp_i32(floor_div(x, g))
    }
}

/// `x / g` rounded down, for a non-zero `g`.
pub open spec fn floor_div(x: int, g: int) -> int {
    if g > 0 {
        x / g
    } else {
        (-x) / (-g)
    }
}

/// `c` held to the range of `i32`.
pub open spec fn clamp_i32(c: int) -> int {
    if c < i32::MIN {
        i32::MIN as int
    } else if c > i32::MAX {
        i32::MAX as int
    } else {
        c
    }
}

/// The spatial bin of a point.
pub open spec fn bin_of(lat: int, lng: int, g: int) -> Seq<char> {
    "seattle_grid_"@ + signed_decimal_spec(cell_of(lat, g)) + "_"@ + signed_decimal_spec(cell_of(lng, g))
}

/// The tags of the kind of entity.
pub open spec fn kind_tags(e: NormalizedEntityView) -> Seq<Seq<char>> {
    match e {
        NormalizedEntityView::Event(_) => seq!["event"@, "music"@, "entertainment"@],
        NormalizedEntityView::Venue(_) => seq!["venue"@, "location"@, "entertainment"@],
        NormalizedEntityView::Artist(_) => seq!["artist"@, "performer"@, "music"@],
    }
}

/// The tags a district adds: its name in lowercase with underscores, then
/// those of the neighbourhood.
pub open spec fn district_tags(d: Seq<char>) -> Seq<Seq<char>> {
    seq![replace_spec(lowercase_of(d), " "@, "_"@)] + if d == "Capitol Hill"@ {
        seq!["nightlife"@, "arts"@, "hipster"@]
    } else if d == "Ballard"@ {
        seq!["craft_beer"@, "maritime"@]
    } else if d == "Belltown"@ {
        seq!["urban"@, "upscale"@]
    } else if d == "Pioneer Square"@ {
        seq!["historic"@, "downtown"@]
    } else {
        Seq::empty()
    }
}

/// All tags of a record.
pub open spec fn tags_of(e: NormalizedEntityView, district: Option<Seq<char>>) -> Seq<Seq<char>> {
    kind_tags(e) + match district {
        Some(d) => district_tags(d),
        None => Seq::empty(),
    } + seq!["seattle"@, "pacific_northwest"@]
}

/// The coordinates of a record: a venue's own, none for others.
pub open spec fn coordinates_of(e: NormalizedEntityView) -> Option<(int, int)> {
    match e {
        NormalizedEntityView::Venue(v) => Some((v.latitude as int, v.longitude as int)),
        _ => None,
    }
}

/// The confidence of an enrichment in thousandths: 900 less a fifth of the
/// quality shortfall and 100 outside the city, at least 300; 600 without
/// coordinates.
pub open spec fn confidence_of(has_coordinates: bool, quality: int, within: bool) -> int {
    if has_coordinates {
        let c = 900 - (1000 - quality + 4) / 5 - if within { 0int } else { 100int };
        if c < 300 {
            300
        } else {
            c
        }
    } else {
        600
    }
}

/// What the enrichment of a record holds.
pub open spec fn enrichment_is(m: EnrichmentMetadata, cfg: DefaultEnricher, e: NormalizedEntityView, quality: int) -> bool {
    &&& crate::text::opt_view(m.region) == Some("King County, WA"@)
    &&& m.strategy@ == "default_seattle_enrichment"@
    &&& crate::metrics::views_of(m.tags@) == tags_of(e, crate::text::opt_view(m.district))
    &&& m.confidence == confidence_of(coordinates_of(e) is Some, quality, m.geo_properties.within_city_bounds)
    &&& match coordinates_of(e) {
        Some((lat, lng)) => {
            let d2 = dist_sq(lat, lng, cfg.city_center.0 as int, cfg.city_center.1 as int);
            &&& crate::text::opt_view(m.city) == city_of(lat, lng)
            &&& crate::text::opt_view(m.district) == district_of(lat, lng)
            &&& crate::text::opt_view(m.spatial_bin) == Some(bin_of(lat, lng, cfg.spatial_grid_size as int))
            &&& m.geo_properties.within_city_bounds == in_seattle(lat, lng)
            &&& m.geo_properties.distance_from_center_mm matches Some(d) && is_isqrt(d2, d as int)
            &&& m.geo_properties.population_density == density_of(d2)
            &&& m.geo_properties.transit_accessibility == Some(transit_of(m.geo_properties.distance_from_center_mm->0 as int) as u32)
            &&& crate::metrics::views_of(m.geo_properties.nearby_landmarks@) == landmarks_near(lat, lng, 8)
            &&& crate::metrics::views_of(m.warnings@) == if in_seattle(lat, lng) {
                Seq::<Seq<char>>::empty()
            } else {
                seq!["Coordinates appear to be outside Seattle city bounds"@]
            }
        },
        None => {
            &&& m.city is None
            &&& m.district is None
            &&& m.spatial_bin is None
            &&& !m.geo_properties.within_city_bounds
            &&& m.geo_properties.distance_from_center_mm is None
            &&& m.geo_properties.population_density == PopulationDensity::Unknown
            &&& m.geo_properties.transit_accessibility is None
            &&& m.geo_properties.nearby_landmarks@.len() == 0
            &&& crate::metrics::views_of(m.warnings@) == seq!["No coordinates available for geographic enrichment"@]
        },
    }
}

/// The square root of `x` rounded down.
pub fn isqrt(x: u128) -> (r: u64)
    ensures
        is_isqrt(x as int, r as int),
{
    let mut lo: u128 = 0;
    let mut hi: u128 = 0x1_0000_0000_0000_0000;
    assert(x < hi * hi) by (nonlinear_arith)
        requires
            hi == 0x1_0000_0000_0000_0000u128,
    ;
    while hi - lo > 1
        invariant
            lo < hi <= 0x1_0000_0000_0000_0000u128,
            lo * lo <= x,
            x < hi * hi,
        decreases hi - lo,
    {
        let mid = lo + (hi - lo) / 2;
        assert(mid * mid < 0x1_0000_0000_0000_0000_0000_0000_0000_0000int) by (nonlinear_arith)
            requires
                mid < 0x1_0000_0000_0000_0000u128,
        ;
        if mid * mid <= x {
            lo = mid;
        } else {
            hi = mid;
        }
    }
    assert(hi == lo + 1);
    lo as u64
}

/// The squared distance between two points, in square millimetres.
fn distance_sq(lat1: i64, lng1: i64, lat2: i64, lng2: i64) -> (r: u128)
    requires
        coord_ok(lat1 as int),
        coord_ok(lng1 as int),
        coord_ok(lat2 as int),
        coord_ok(lng2 as int),
    ensures
        r == dist_sq(lat1 as int, lng1 as int, lat2 as int, lng2 as int),
{
    let a: i128 = (lat1 as i128 - lat2 as i128) * 111;
    let b: i128 = (lng1 as i128 - lng2 as i128) * 85;
    assert(0 <= a * a <= 49_284_000_000_000_000_000_000_000_000_000_000) by (nonlinear_arith)
        requires
            -222_000_000_000_000_000 <= a <= 222_000_000_000_000_000,
    ;
    assert(0 <= b * b <= 28_900_000_000_000_000_000_000_000_000_000_000) by (nonlinear_arith)
        requires
            -170_000_000_000_000_000 <= b <= 170_000_000_000_000_000,
    ;
    let aa = (a * a) as u128;
    let bb = (b * b) as u128;
    aa + bb
}

/// A landmark: where it is and its name.
fn landmark(lat: i64, lng: i64, name: &str) -> (r: (i64, i64, String))
    ensures
        r.0 == lat && r.1 == lng && r.2@ == name@,
{
    (lat, lng, owned(name))
}

/// The landmarks within 2 km of a point.
fn nearby_landmarks(lat: i64, lng: i64) -> (r: Vec<String>)
    requires
        coord_ok(lat as int),
        coord_ok(lng as int),
    ensures
        crate::metrics::views_of(r@) == landmarks_near(lat as int, lng as int, 8),
{
    let mut all: Vec<(i64, i64, String)> = Vec::new();
    all.push(landmark(47_620_500, -122_349_300, "Space Needle"));
    all.push(landmark(47_608_900, -122_335_600, "Pike Place Market"));
    all.push(landmark(47_595_200, -122_331_600, "Pioneer Square"));
    all.push(landmark(47_604_000, -122_334_900, "Waterfront"));
    all.push(landmark(47_613_100, -122_342_400, "Belltown"));
    all.push(landmark(47_624_900, -122_336_400, "Capitol Hill"));
    all.push(landmark(47_669_000, -122_384_700, "Ballard"));
    all.push(landmark(47_681_500, -122_353_400, "Fremont"));
    assert(forall|i: int| 0 <= i < 8 ==> all@[i].0 == #[trigger] landmarks()[i].0 && all@[i].1 == landmarks()[i].1
        && all@[i].2@ == landmarks()[i].2);
    let mut r: Vec<String> = Vec::new();
    let mut i: usize = 0;
    while i < all.len()
        invariant
            i <= 8,
            all@.len() == 8,
            coord_ok(lat as int),
            coord_ok(lng as int),
            forall|j: int| 0 <= j < 8 ==> all@[j].0 == #[trigger] landmarks()[j].0 && all@[j].1 == landmarks()[j].1
                && all@[j].2@ == landmarks()[j].2,
            crate::metrics::views_of(r@) == landmarks_near(lat as int, lng as int, i as int),
        decreases 8 - i,
    {
        let ghost l = landmarks()[i as int];
        assert(all@[i as int].0 == l.0 && all@[i as int].1 == l.1 && all@[i as int].2@ == l.2);
        let ghost prev = r@;
        if distance_sq(lat, lng, all[i].0, all[i].1) < 4_000_000_000_000 {
            r.push(all[i].2.clone());
            assert(crate::metrics::views_of(r@) =~= crate::metrics::views_of(prev).push(l.2));
        }
        i = i + 1;
    }
    r
}

/// The city of a point.
fn determine_city(lat: i64, lng: i64) -> (r: Option<String>)
    ensures
        crate::text::opt_view(r) == city_of(lat as int, lng as int),
{
    if is_within_city_bounds(lat, lng) {
        Some(owned("Seattle"))
    } else {
        None
    }
}

/// Whether a point lies in Seattle's bounding box.
fn is_within_city_bounds(lat: i64, lng: i64) -> (r: bool)
    ensures
        r == in_seattle(lat as int, lng as int),
{
    47_480_000 <= lat && lat <= 47_740_000 && -122_460_000 <= lng && lng <= -122_220_000
}

/// The district of a point.
fn determine_district(lat: i64, lng: i64) -> (r: Option<String>)
    ensures
        crate::text::opt_view(r) == district_of(lat as int, lng as int),
{
    if lat > 47_620_000 && lng > -122_340_000 {
        Some(owned("Capitol Hill"))
    } else if lat > 47_660_000 && lng < -122_370_000 {
        Some(owned("Ballard"))
    } else if lat > 47_610_000 && lng > -122_350_000 {
        Some(owned("Belltown"))
    } else if lat < 47_600_000 && lng > -122_340_000 {
        Some(owned("Pioneer Square"))
    } else if lat > 47_670_000 && lng > -122_360_000 {
        Some(owned("Fremont"))
    } else if is_within_city_bounds(lat, lng) {
        Some(owned("Seattle"))
    } else {
        None
    }
}

/// The density class of a squared distance.
fn classify_population_density(d2: u128) -> (r: PopulationDensity)
    ensures
        r == density_of(d2 as int),
{
    if d2 < 25_000_000_000_000 {
        PopulationDensity::Dense
    } else if d2 < 225_000_000_000_000 {
        PopulationDensity::Urban
    } else if d2 < 900_000_000_000_000 {
        PopulationDensity::Suburban
    } else {
        PopulationDensity::Rural
    }
}

/// Transit accessibility for a distance in millimetres.
fn estimate_transit_accessibility(d_mm: u64) -> (r: u32)
    ensures
        r == transit_of(d_mm as int),
{
    let used = d_mm / 50_000;
    if used >= 1000 {
        0
    } else {
        (1000 - used) as u32
    }
}

/// `x` rounded down to cells of `g`, saturated to `i32`.
fn cell(x: i64, g: i64) -> (r: i64)
    ensures
        r == cell_of(x as int, g as int),
{
    if g == 0 {
        return if x > 0 {
            2147483647
        } else if x < 0 {
            -2147483648
        } else {
            0
        };
    }
    let (a, b): (i128, i128) = if g > 0 { (x as i128, g as i128) } else { (-(x as i128), -(g as i128)) };
    assert(a / b == floor_div(x as int, g as int));
    let c: i128 = if a >= 0 {
        let q = a as u128 / b as u128;
        proof {
            assert(q == a / b) by (nonlinear_arith)
                requires
                    a >= 0,
                    b > 0,
                    q == (a as u128) / (b as u128),
            ;
        }
        q as i128
    } else {
        let n = (-a) as u128;
        let q = (n + b as u128 - 1) / b as u128;
        proof {
            lemma_floor_negative(a as int, b as int, n as int, q as int);
        }
        -(q as i128)
    };
    if c < -2147483648 {
        -2147483648
    } else if c > 2147483647 {
        2147483647
    } else {
        c as i64
    }
}

/// For a negative `x`, the floor of `x / g` is minus the ceiling of
/// `-x / g`.
proof fn lemma_floor_negative(x: int, g: int, n: int, q: int)
    requires
        x < 0,
        g > 0,
        n == -x,
        q == (n + g - 1) / g,
    ensures
        -q == x / g,
        0 < q <= n,
{
    assert(-q == x / g && 0 < q <= n) by (nonlinear_arith)
        requires
            x < 0,
            g > 0,
            n == -x,
            q == (n + g - 1) / g,
    ;
}

/// The spatial bin of a point.
fn spatial_bin(lat: i64, lng: i64, g: i64) -> (r: String)
    ensures
        r@ == bin_of(lat as int, lng as int, g as int),
{
    let mut r = owned("seattle_grid_");
    let a = i64_text(cell(lat, g));
    r.append(a.as_str());
    r.append("_");
    let b = i64_text(cell(lng, g));
    r.append(b.as_str());
    r
}

/// The tags of a record.
fn generate_tags(entity: &NormalizedEntity, district: &Option<String>) -> (r: Vec<String>)
    ensures
        crate::metrics::views_of(r@) == tags_of(entity@, crate::text::opt_view(*district)),
{
    let mut tags: Vec<String> = Vec::new();
    match entity {
        NormalizedEntity::Event(_) => {
            tags.push(owned("event"));
            tags.push(owned("music"));
            tags.push(owned("entertainment"));
        },
        NormalizedEntity::Venue(_) => {
            tags.push(owned("venue"));
            tags.push(owned("location"));
            tags.push(owned("entertainment"));
        },
        NormalizedEntity::Artist(_) => {
            tags.push(owned("artist"));
            tags.push(owned("performer"));
            tags.push(owned("music"));
        },
    }
    let ghost base = crate::metrics::views_of(tags@);
    assert(base =~= kind_tags(entity@));
    match district {
        Some(d) => {
            proof {
                reveal_strlit(" ");
            }
            let low = to_lowercase(d.as_str());
            tags.push(replace_str(low.as_str(), " ", "_"));
            if str_eq(d.as_str(), "Capitol Hill") {
                tags.push(owned("nightlife"));
                tags.push(owned("arts"));
                tags.push(owned("hipster"));
            } else if str_eq(d.as_str(), "Ballard") {
                tags.push(owned("craft_beer"));
                tags.push(owned("maritime"));
            } else if str_eq(d.as_str(), "Belltown") {
                tags.push(owned("urban"));
                tags.push(owned("upscale"));
            } else if str_eq(d.as_str(), "Pioneer Square") {
                tags.push(owned("historic"));
                tags.push(owned("downtown"));
            }
            assert(crate::metrics::views_of(tags@) =~= base + district_tags(d@));
        },
        None => {},
    }
    let ghost mid = crate::metrics::views_of(tags@);
    tags.push(owned("seattle"));
    tags.push(owned("pacific_northwest"));
    assert(crate::metrics::views_of(tags@) =~= mid + seq!["seattle"@, "pacific_northwest"@]);
    tags
}

/// A copy of optional text.
fn copy_text(o: &Option<String>) -> (r: Option<String>)
    ensures
        r == *o,
{
    match o {
        Some(s) => Some(s.clone()),
        None => None,
    }
}

impl DefaultEnricher {
    /// The Seattle enricher: centre 47.6062, -122.3321; cells of 0.01 degree.
    pub fn new() -> (r: Self)
        ensures
            r.city_center == (47_606_200i64, -122_332_100i64),
            r.spatial_grid_size == 10_000,
            crate::text::opt_view(r.reference_versions.city_boundaries) == Some("seattle_v1.0"@),
            crate::text::opt_view(r.reference_versions.admin_boundaries) == Some("wa_king_county_v1.0"@),
            crate::text::opt_view(r.reference_versions.spatial_grid) == Some("grid_1km_v1.0"@),
            crate::text::opt_view(r.reference_versions.poi_data) == Some("seattle_poi_v1.0"@),
            enricher_ok(r),
    {
        DefaultEnricher {
            city_center: (47_606_200, -122_332_100),
            spatial_grid_size: 10_000,
            reference_versions: ReferenceVersions {
                city_boundaries: Some(owned("seattle_v1.0")),
                admin_boundaries: Some(owned("wa_king_county_v1.0")),
                spatial_grid: Some(owned("grid_1km_v1.0")),
                poi_data: Some(owned("seattle_poi_v1.0")),
            },
        }
    }

    /// The Seattle enricher around another centre.
    pub fn with_city_center(lat: i64, lng: i64) -> (r: Self)
        requires
            coord_ok(lat as int),
            coord_ok(lng as int),
        ensures
            r.city_center == (lat, lng),
            r.spatial_grid_size == 10_000,
            crate::text::opt_view(r.reference_versions.city_boundaries) == Some("seattle_v1.0"@),
            crate::text::opt_view(r.reference_versions.admin_boundaries) == Some("wa_king_county_v1.0"@),
            crate::text::opt_view(r.reference_versions.spatial_grid) == Some("grid_1km_v1.0"@),
            crate::text::opt_view(r.reference_versions.poi_data) == Some("seattle_poi_v1.0"@),
            enricher_ok(r),
    {
        let mut r = Self::new();
        r.city_center = (lat, lng);
        r
    }

    /// The enrichment of a record at `enriched_at`.
    pub fn enrich_at(&self, record: QualityAssessedRecord, enriched_at: i64) -> (r: EnrichedRecord)
        requires
            enricher_ok(*self),
            record.quality_assessment.quality_score <= 1000,
            match coordinates_of(record.normalized_record.entity@) {
                Some((lat, lng)) => coord_ok(lat) && coord_ok(lng),
                None => true,
            },
        ensures
            r.quality_assessed_record == record,
            r.enriched_at == enriched_at,
            enrichment_is(r.enrichment, *self, record.normalized_record.entity@, record.quality_assessment.quality_score as int),
            r.enrichment.reference_versions.city_boundaries == self.reference_versions.city_boundaries,
            r.enrichment.reference_versions.admin_boundaries == self.reference_versions.admin_boundaries,
            r.enrichment.reference_versions.spatial_grid == self.reference_versions.spatial_grid,
            r.enrichment.reference_versions.poi_data == self.reference_versions.poi_data,
    {
        let ghost ev = record.normalized_record.entity@;
        let mut warnings: Vec<String> = Vec::new();
        let coordinates: Option<(i64, i64)> = match &record.normalized_record.entity {
            NormalizedEntity::Venue(v) => Some((v.latitude, v.longitude)),
            _ => None,
        };
        let (city, district, geo_properties, spatial_bin) = match coordinates {
            Some((lat, lng)) => {
                let city = determine_city(lat, lng);
                let district = determine_district(lat, lng);
                let d2 = distance_sq(lat, lng, self.city_center.0, self.city_center.1);
                let distance = isqrt(d2);
                let within = is_within_city_bounds(lat, lng);
                if !within {
                    warnings.push(owned("Coordinates appear to be outside Seattle city bounds"));
                }
                let geo = GeoProperties {
                    within_city_bounds: within,
                    distance_from_center_mm: Some(distance),
                    population_density: classify_population_density(d2),
                    transit_accessibility: Some(estimate_transit_accessibility(distance)),
                    nearby_landmarks: nearby_landmarks(lat, lng),
                };
                let bin = spatial_bin(lat, lng, self.spatial_grid_size);
                (city, district, geo, Some(bin))
            },
            None => {
                warnings.push(owned("No coordinates available for geographic enrichment"));
                let geo = GeoProperties {
                    within_city_bounds: false,
                    distance_from_center_mm: None,
                    population_density: PopulationDensity::Unknown,
                    transit_accessibility: None,
                    nearby_landmarks: Vec::new(),
                };
                (None, None, geo, None)
            },
        };
        let tags = generate_tags(&record.normalized_record.entity, &district);
        let q = record.quality_assessment.quality_score;
        let confidence: u32 = match coordinates {
            Some(_) => {
                let shortfall = (1000 - q + 4) / 5;
                let bounds_penalty: u32 = if geo_properties.within_city_bounds { 0 } else { 100 };
                if shortfall + bounds_penalty + 300 > 900 {
                    300
                } else {
                    900 - shortfall - bounds_penalty
                }
            },
            None => 600,
        };
        let reference_versions = ReferenceVersions {
            city_boundaries: copy_text(&self.reference_versions.city_boundaries),
            admin_boundaries: copy_text(&self.reference_versions.admin_boundaries),
            spatial_grid: copy_text(&self.reference_versions.spatial_grid),
            poi_data: copy_text(&self.reference_versions.poi_data),
        };
        let enrichment = EnrichmentMetadata {
            city,
            district,
            region: Some(owned("King County, WA")),
            spatial_bin,
            tags,
            geo_properties,
            reference_versions,
            strategy: owned("default_seattle_enrichment"),
            confidence,
            warnings,
        };
        proof {
            match coordinates {
                Some(_) => {
                    assert(crate::metrics::views_of(enrichment.warnings@) =~= if enrichment.geo_properties.within_city_bounds {
                        Seq::<Seq<char>>::empty()
                    } else {
                        seq!["Coordinates appear to be outside Seattle city bounds"@]
                    });
                },
                None => {
                    assert(crate::metrics::views_of(enrichment.warnings@) =~= seq![
                        "No coordinates available for geographic enrichment"@,
                    ]);
                },
            }
        }
        EnrichedRecord { quality_assessed_record: record, enrichment, enriched_at }
    }
}

impl DefaultEnricher {
    /// The distance between two points in millimetres, rounded down.
    pub fn calculate_distance(&self, lat1: i64, lng1: i64, lat2: i64, lng2: i64) -> (r: u64)
        requires
            coord_ok(lat1 as int),
            coord_ok(lng1 as int),
            coord_ok(lat2 as int),
            coord_ok(lng2 as int),
        ensures
            is_isqrt(dist_sq(lat1 as int, lng1 as int, lat2 as int, lng2 as int), r as int),
    {
        isqrt(distance_sq(lat1, lng1, lat2, lng2))
    }

    /// The spatial bin of a point on the enricher's grid.
    pub fn generate_spatial_bin(&self, lat: i64, lng: i64) -> (r: String)
        ensures
            r@ == bin_of(lat as int, lng as int, self.spatial_grid_size as int),
    {
        spatial_bin(lat, lng, self.spatial_grid_size)
    }
}

/// The enricher can compute the enrichment of a record.
pub open spec fn computable(e: DefaultEnricher, record: QualityAssessedRecord) -> bool {
    &&& enricher_ok(e)
    &&& record.quality_assessment.quality_score <= 1000
    &&& match coordinates_of(record.normalized_record.entity@) {
        Some((lat, lng)) => coord_ok(lat) && coord_ok(lng),
        None => true,
    }
}

impl DefaultEnricher {
    /// Whether the enricher can compute the enrichment of a record.
    pub fn can_enrich(&self, record: &QualityAssessedRecord) -> (r: bool)
        ensures
            r == computable(*self, *record),
    {
        let settings = -COORD_LIMIT <= self.city_center.0 && self.city_center.0 <= COORD_LIMIT && -COORD_LIMIT <= self.city_center.1
            && self.city_center.1 <= COORD_LIMIT;
        let coords = match &record.normalized_record.entity {
            NormalizedEntity::Venue(v) => -COORD_LIMIT <= v.latitude && v.latitude <= COORD_LIMIT && -COORD_LIMIT <= v.longitude
                && v.longitude <= COORD_LIMIT,
            _ => true,
        };
        settings && record.quality_assessment.quality_score <= 1000 && coords
    }
}

impl Enricher for DefaultEnricher {
    /// The enrichment of a record now, by the clock; an error when the
    /// record or the settings are outside what the enricher computes with.
    fn enrich(&self, record: QualityAssessedRecord) -> (r: Result<EnrichedRecord, EnrichError>)
        ensures
            computable(*self, record) <==> r is Ok,
            r matches Ok(e) ==> e.quality_assessed_record == record && enrichment_is(
                e.enrichment,
                *self,
                record.normalized_record.entity@,
                record.quality_assessment.quality_score as int,
            ),
            r matches Err(e) ==> e == EnrichError::OutOfRange,
    {
        if !self.can_enrich(&record) {
            return Err(EnrichError::OutOfRange);
        }
        let at = now_ms();
        Ok(self.enrich_at(record, at))
    }
}

/// The density class of an enriched point follows its distance `d` from
/// the centre (in millimetres): dense below 5 km, urban from 5 km to below
/// 15 km, suburban from 15 km to below 30 km, rural from 30 km on; in
/// squared millimetres, below 25e12, below 225e12, below 900e12.
pub proof fn lemma_density_bands(m: EnrichmentMetadata, cfg: DefaultEnricher, e: NormalizedEntityView, quality: int, lat: int, lng: int)
    requires
        enrichment_is(m, cfg, e, quality),
        coordinates_of(e) == Some((lat, lng)),
    ensures
        ({
            let d2 = dist_sq(lat, lng, cfg.city_center.0 as int, cfg.city_center.1 as int);
            &&& d2 < 25_000_000_000_000 ==> m.geo_properties.population_density == PopulationDensity::Dense
            &&& 25_000_000_000_000 <= d2 < 225_000_000_000_000 ==> m.geo_properties.population_density == PopulationDensity::Urban
            &&& 225_000_000_000_000 <= d2 < 900_000_000_000_000 ==> m.geo_properties.population_density == PopulationDensity::Suburban
            &&& 900_000_000_000_000 <= d2 ==> m.geo_properties.population_density == PopulationDensity::Rural
        }),
        m.geo_properties.distance_from_center_mm matches Some(d) && (d as int) < 5_000_000
            ==> m.geo_properties.population_density == PopulationDensity::Dense,
        m.geo_properties.distance_from_center_mm matches Some(d) && 5_000_000 <= (d as int) < 15_000_000
            ==> m.geo_properties.population_density == PopulationDensity::Urban,
        m.geo_properties.distance_from_center_mm matches Some(d) && 15_000_000 <= (d as int) < 30_000_000
            ==> m.geo_properties.population_density == PopulationDensity::Suburban,
        m.geo_properties.distance_from_center_mm matches Some(d) && 30_000_000 <= (d as int)
            ==> m.geo_properties.population_density == PopulationDensity::Rural,
{
    let d2 = dist_sq(lat, lng, cfg.city_center.0 as int, cfg.city_center.1 as int);
    let d = m.geo_properties.distance_from_center_mm->0 as int;
    assert(is_isqrt(d2, d));
    assert(d < 5_000_000 ==> d2 < 25_000_000_000_000) by (nonlinear_arith)
        requires
            0 <= d && d2 < (d + 1) * (d + 1),
    ;
    assert(5_000_000 <= d ==> 25_000_000_000_000 <= d2) by (nonlinear_arith)
        requires
            0 <= d && d * d <= d2,
    ;
    assert(d < 15_000_000 ==> d2 < 225_000_000_000_000) by (nonlinear_arith)
        requires
            0 <= d && d2 < (d + 1) * (d + 1),
    ;
    assert(15_000_000 <= d ==> 225_000_000_000_000 <= d2) by (nonlinear_arith)
        requires
            0 <= d && d * d <= d2,
    ;
    assert(d < 30_000_000 ==> d2 < 900_000_000_000_000) by (nonlinear_arith)
        requires
            0 <= d && d2 < (d + 1) * (d + 1),
    ;
    assert(30_000_000 <= d ==> 900_000_000_000_000 <= d2) by (nonlinear_arith)
        requires
            0 <= d && d * d <= d2,
    ;
}

/// Where an enriched point lies decides its city, district, transit score
/// and tags. The city is Seattle exactly inside the box from 47.48 to 47.74
/// north and 122.46 to 122.22 west, and outside it the enrichment warns
/// that the point is out of bounds. Transit accessibility falls by one
/// thousandth per 50 m from the centre and is zero from 50 km on. The
/// district is Capitol Hill north of 47.62 and east of 122.34 west; else
/// Ballard north of 47.66 and west of 122.37; else Belltown north of 47.61
/// and east of 122.35; else Pioneer Square south of 47.60 and east of
/// 122.34; else Fremont north of 47.67 and east of 122.36; else Seattle
/// inside the box; else none. A venue's tags open with "venue",
/// "location", "entertainment" and close with "seattle",
/// "pacific_northwest"; Ballard adds "craft_beer" and "maritime", Capitol
/// Hill "nightlife", "arts" and "hipster".
pub proof fn lemma_enrich_geography(m: EnrichmentMetadata, cfg: DefaultEnricher, e: NormalizedEntityView, quality: int, lat: int, lng: int)
    requires
        enrichment_is(m, cfg, e, quality),
        coordinates_of(e) == Some((lat, lng)),
    ensures
        m.geo_properties.within_city_bounds == (47_480_000 <= lat <= 47_740_000 && -122_460_000 <= lng <= -122_220_000),
        m.geo_properties.within_city_bounds ==> crate::text::opt_view(m.city) == Some("Seattle"@)
            && crate::metrics::views_of(m.warnings@) == Seq::<Seq<char>>::empty(),
        !m.geo_properties.within_city_bounds ==> m.city is None
            && crate::metrics::views_of(m.warnings@) == seq!["Coordinates appear to be outside Seattle city bounds"@],
        ({
            let d = m.geo_properties.distance_from_center_mm->0 as int;
            &&& d < 50_000_000 ==> m.geo_properties.transit_accessibility == Some((1000 - d / 50_000) as u32)
            &&& 50_000_000 <= d ==> m.geo_properties.transit_accessibility == Some(0u32)
        }),
        lat > 47_620_000 && lng > -122_340_000 ==> crate::text::opt_view(m.district) == Some("Capitol Hill"@),
        !(lat > 47_620_000 && lng > -122_340_000) && lat > 47_660_000 && lng < -122_370_000
            ==> crate::text::opt_view(m.district) == Some("Ballard"@),
        !(lat > 47_620_000 && lng > -122_340_000) && !(lat > 47_660_000 && lng < -122_370_000) && lat > 47_610_000
            && lng > -122_350_000 ==> crate::text::opt_view(m.district) == Some("Belltown"@),
        !(lat > 47_620_000 && lng > -122_340_000) && !(lat > 47_660_000 && lng < -122_370_000) && !(lat > 47_610_000
            && lng > -122_350_000) && lat < 47_600_000 && lng > -122_340_000 ==> crate::text::opt_view(m.district) == Some(
            "Pioneer Square"@),
        !(lat > 47_620_000 && lng > -122_340_000) && !(lat > 47_660_000 && lng < -122_370_000) && !(lat > 47_610_000
            && lng > -122_350_000) && !(lat < 47_600_000 && lng > -122_340_000) && lat > 47_670_000 && lng > -122_360_000
            ==> crate::text::opt_view(m.district) == Some("Fremont"@),
        !(lat > 47_620_000 && lng > -122_340_000) && !(lat > 47_660_000 && lng < -122_370_000) && !(lat > 47_610_000
            && lng > -122_350_000) && !(lat < 47_600_000 && lng > -122_340_000) && !(lat > 47_670_000 && lng > -122_360_000)
            ==> crate::text::opt_view(m.district) == (if m.geo_properties.within_city_bounds { Some("Seattle"@) } else { None }),
        ({
            let t = crate::metrics::views_of(m.tags@);
            &&& t.len() >= 5
            &&& t[0] == "venue"@ && t[1] == "location"@ && t[2] == "entertainment"@
            &&& t[t.len() - 2] == "seattle"@ && t[t.len() - 1] == "pacific_northwest"@
            &&& crate::text::opt_view(m.district) == Some("Ballard"@) ==> t.contains("craft_beer"@) && t.contains("maritime"@)
            &&& crate::text::opt_view(m.district) == Some("Capitol Hill"@) ==> t.contains("nightlife"@) && t.contains("arts"@)
                && t.contains("hipster"@)
        }),
{
    let t = crate::metrics::views_of(m.tags@);
    let k = kind_tags(e);
    let dt: Seq<Seq<char>> = match crate::text::opt_view(m.district) {
        Some(d) => district_tags(d),
        None => Seq::empty(),
    };
    let tail = seq!["seattle"@, "pacific_northwest"@];
    assert(t == k + dt + tail);
    assert(e is Venue);
    assert(t[0] == k[0] && t[1] == k[1] && t[2] == k[2]);
    assert(t[t.len() - 2] == tail[0] && t[t.len() - 1] == tail[1]);
    if crate::text::opt_view(m.district) == Some("Ballard"@) {
        reveal_strlit("Ballard");
        reveal_strlit("Capitol Hill");
        assert("Ballard"@.len() != "Capitol Hill"@.len());
        assert(dt[1] == "craft_beer"@ && dt[2] == "maritime"@);
        assert(t[4] == dt[1]);
        assert(t[5] == dt[2]);
    }
    if crate::text::opt_view(m.district) == Some("Capitol Hill"@) {
        assert(dt[1] == "nightlife"@ && dt[2] == "arts"@ && dt[3] == "hipster"@);
        assert(t[4] == dt[1]);
        assert(t[5] == dt[2]);
        assert(t[6] == dt[3]);
    }
    if !m.geo_properties.within_city_bounds {
        assert(crate::text::opt_view(m.city) is None);
    }
}

} // verus!
