//! Geocoding with a Nominatim service.
//!
//! This module builds the address of the request and reads the answer. The
//! request itself, and the distance across the bounding box, are the
//! caller's part.

use vstd::prelude::*;
use crate::configuration::ApplicationConfig;
use crate::models::decimal::parsed;
use crate::models::decimal::written;
use crate::models::Decimal;
use crate::models::Enrichments;
use crate::models::Property;
use crate::pattern::option_view;
use crate::text::find_from;
use crate::text::replace;
use crate::text::replaced;
use crate::text::replaced_from;

verus! {

/// One place in the answer of the service, as it is written there.
#[derive(Debug)]
pub struct ApiResult {
    pub lat: String,
    pub lon: String,
    pub boundingbox: Vec<String>,
}

/// A place and the radius in metres within which it lies.
#[derive(Clone, Copy, Debug)]
pub struct GeocodeResult {
    pub coord: Coordinate,
    pub uncertainty: Decimal,
}

#[derive(Clone, Copy, Debug)]
pub struct Coordinate {
    pub latitude: Decimal,
    pub longitude: Decimal,
}

#[derive(Clone, Copy, Debug)]
pub struct BoundingBox {
    pub min_lat: Decimal,
    pub max_lat: Decimal,
    pub min_lon: Decimal,
    pub max_lon: Decimal,
}

/// A place with the box that bounds it.
#[derive(Clone, Copy, Debug)]
pub struct Place {
    pub coord: Coordinate,
    pub bounds: BoundingBox,
}

#[derive(Debug)]
pub struct Error {
    pub message: String,
}

pub struct Nominatim {}

/// The longest base address, key or value, in characters, that goes into the
/// address of a request.
pub const MAX_URL_PART: usize = 1_000_000;

/// The address `base` with two pairs added to its query, as the `url` crate
/// writes it. `None` where `base` is no absolute URL.
pub uninterp spec fn url_with_pairs(
    base: Seq<char>,
    first_key: Seq<char>,
    first_value: Seq<char>,
    second_key: Seq<char>,
    second_value: Seq<char>,
) -> Option<Seq<char>>;

/// Adds two pairs to the query of an address.
///
/// Trusted: parses `base` with `url::Url::parse`, adds the pairs with
/// `Url::query_pairs_mut` and `Serializer::append_pair`, and returns the
/// serialization. The contract only names the result; `None` stands for a
/// base that does not parse. The bounds keep the address under the four
/// gigabytes above which the crate panics.
#[verifier::external_body]
fn with_query(base: &str, first: (&str, &str), second: (&str, &str)) -> (r: Option<String>)
    requires
        base@.len() <= MAX_URL_PART,
        first.0@.len() <= MAX_URL_PART,
        first.1@.len() <= MAX_URL_PART,
        second.0@.len() <= MAX_URL_PART,
        second.1@.len() <= MAX_URL_PART,
    ensures
        option_view(r) == url_with_pairs(base@, first.0@, first.1@, second.0@, second.1@),
{
    let mut url = url::Url::parse(base).ok()?;
    url.query_pairs_mut().append_pair(first.0, first.1).append_pair(second.0, second.1);
    Some(String::from(url))
}

/// The address of the request for `address`: the configured address of the
/// service with the query `q`, which is `address` without `(Kreis)`, and the
/// query `format=json`.
pub open spec fn request_url(service: Seq<char>, address: Seq<char>) -> Result<
    Seq<char>,
    Seq<char>,
> {
    match url_with_pairs(service, "q"@, replaced(address, "(Kreis)"@, ""@), "format"@, "json"@) {
        Some(url) => Ok(url),
        None => Err("Parse Error"@),
    }
}

/// A result whose value is a string, with the error reduced to its message.
pub open spec fn url_outcome(r: Result<String, Error>) -> Result<Seq<char>, Seq<char>> {
    match r {
        Ok(s) => Ok(s@),
        Err(e) => Err(e.message@),
    }
}

/// Removing every occurrence of a text does not make a text longer.
pub proof fn lemma_removal_shrinks(s: Seq<char>, from: Seq<char>, pos: int)
    requires
        0 <= pos <= s.len(),
    ensures
        replaced_from(s, from, Seq::empty(), pos).len() <= s.len() - pos,
    decreases s.len() - pos,
{
    match find_from(s, from, pos) {
        Some(i) => {
            if 0 <= pos <= i && from.len() > 0 && i + from.len() <= s.len() {
                lemma_removal_shrinks(s, from, i + from.len());
            }
        },
        None => {},
    }
}

/// The bounding box written in the four texts `b`: smallest and largest
/// latitude, then smallest and largest longitude.
pub open spec fn bounds_of(b: Seq<String>) -> Option<BoundingBox> {
    if b.len() >= 4 {
        match (parsed(b[0]@), parsed(b[1]@), parsed(b[2]@), parsed(b[3]@)) {
            (Some(min_lat), Some(max_lat), Some(min_lon), Some(max_lon)) => Some(
                BoundingBox { min_lat, max_lat, min_lon, max_lon },
            ),
            _ => None,
        }
    } else {
        None
    }
}

/// The coordinate written in the texts `lat` and `lon`.
pub open spec fn coordinate_of(lat: Seq<char>, lon: Seq<char>) -> Option<Coordinate> {
    match (parsed(lat), parsed(lon)) {
        (Some(latitude), Some(longitude)) => Some(Coordinate { latitude, longitude }),
        _ => None,
    }
}

/// The place that an answer gives: its first result, if its coordinate and
/// its bounding box can be read.
pub open spec fn located(results: Seq<ApiResult>) -> Result<Place, Seq<char>> {
    if results.len() >= 1 {
        match (
            coordinate_of(results[0].lat@, results[0].lon@),
            bounds_of(results[0].boundingbox@),
        ) {
            (Some(coord), Some(bounds)) => Ok(Place { coord, bounds }),
            _ => Err("Could not geocode location!"@),
        }
    } else {
        Err("Not found!"@)
    }
}

/// An outcome of [`geocode`] with the error reduced to its message.
pub open spec fn place_outcome(r: Result<Place, Error>) -> Result<Place, Seq<char>> {
    match r {
        Ok(p) => Ok(p),
        Err(e) => Err(e.message@),
    }
}

/// The address of the request that asks the service for `address`.
pub fn geocode_url(app_config: &ApplicationConfig, address: &String) -> (r: Result<String, Error>)
    requires
        app_config.nominatim.nominatim_url@.len() <= MAX_URL_PART,
        address@.len() <= MAX_URL_PART,
    ensures
        url_outcome(r) == request_url(app_config.nominatim.nominatim_url@, address@),
{
    proof {
        reveal_strlit("(Kreis)");
        reveal_strlit("q");
        reveal_strlit("format");
        reveal_strlit("json");
        reveal_strlit("");
        lemma_removal_shrinks(address@, "(Kreis)"@, 0);
        assert(""@ =~= Seq::<char>::empty());
    }
    let query = replace(address.as_str(), "(Kreis)", "");
    match with_query(
        app_config.nominatim.nominatim_url.as_str(),
        ("q", query.as_str()),
        ("format", "json"),
    ) {
        Some(url) => Ok(url),
        None => Err(Error { message: "Parse Error".to_string() }),
    }
}

/// Reads the bounding box of a result.
fn read_bounds(b: &Vec<String>) -> (r: Option<BoundingBox>)
    ensures
        r == bounds_of(b@),
{
    if b.len() < 4 {
        return None;
    }
    let min_lat = Decimal::parse(b[0].as_str());
    let max_lat = Decimal::parse(b[1].as_str());
    let min_lon = Decimal::parse(b[2].as_str());
    let max_lon = Decimal::parse(b[3].as_str());
    match (min_lat, max_lat, min_lon, max_lon) {
        (Some(min_lat), Some(max_lat), Some(min_lon), Some(max_lon)) => Some(
            BoundingBox { min_lat, max_lat, min_lon, max_lon },
        ),
        _ => None,
    }
}

/// Reads the answer of the service: the place of its first result. An empty
/// answer and a first result that cannot be read are errors.
pub fn geocode(results: &Vec<ApiResult>) -> (r: Result<Place, Error>)
    ensures
        place_outcome(r) == located(results@),
{
    if results.len() >= 1 {
        let best_match = &results[0];
        let bounds = read_bounds(&best_match.boundingbox);
        let coord = match (
            Decimal::parse(best_match.lat.as_str()),
            Decimal::parse(best_match.lon.as_str()),
        ) {
            (Some(latitude), Some(longitude)) => Some(Coordinate { latitude, longitude }),
            _ => None,
        };
        match (coord, bounds) {
            (Some(c), Some(b)) => Ok(Place { coord: c, bounds: b }),
            _ => Err(Error { message: "Could not geocode location!".to_string() }),
        }
    } else {
        Err(Error { message: "Not found!".to_string() })
    }
}

/// The enrichments for a geocoded place: its latitude, longitude and
/// uncertainty as text.
pub open spec fn place_enrichments(result: GeocodeResult) -> Map<Seq<char>, Seq<char>> {
    Map::<Seq<char>, Seq<char>>::empty().insert(
        "latitude"@,
        written(result.coord.latitude.micros as int),
    ).insert("longitude"@, written(result.coord.longitude.micros as int)).insert(
        "uncertainty"@,
        written(result.uncertainty.micros as int),
    )
}

impl Nominatim {
    pub fn name(&self) -> (r: String)
        ensures
            r@ == "nominatim"@,
    {
        "nominatim".to_string()
    }

    pub fn init(&mut self, _app_config: &ApplicationConfig) -> (r: Result<(), String>)
        ensures
            r is Ok,
    {
        Ok(())
    }

    /// The address to geocode for a listing: that of its data.
    pub fn address(property: &Property) -> (r: Option<String>)
        ensures
            option_view(r) == match property@.data {
                Some(data) => Some(data.address),
                None => None,
            },
    {
        match &property.data {
            Some(data) => Some(data.address.clone()),
            None => None,
        }
    }

    /// The enrichments for the outcome of geocoding a listing: those of the
    /// place, or none where the listing could not be geocoded.
    pub fn enrich(outcome: Option<GeocodeResult>) -> (r: Enrichments)
        ensures
            r@ == match outcome {
                Some(result) => place_enrichments(result),
                None => Map::<Seq<char>, Seq<char>>::empty(),
            },
    {
        let mut enrichments = Enrichments::new();
        match outcome {
            Some(result) => {
                enrichments.insert("latitude".to_string(), result.coord.latitude.to_text());
                enrichments.insert("longitude".to_string(), result.coord.longitude.to_text());
                enrichments.insert("uncertainty".to_string(), result.uncertainty.to_text());
            },
            None => {},
        }
        enrichments
    }
}

} // verus!
