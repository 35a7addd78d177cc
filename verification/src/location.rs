//! The place the lookup service reports, and how a reply becomes one.

use vstd::prelude::*;

verus! {

/// One reply of the lookup service, field by field as it arrived. Coordinates
/// are in ten-thousandths of a degree; a field that the reply lacked is `None`.
#[derive(Debug, PartialEq, Eq)]
pub struct LocationResponse {
    pub lat: Option<i32>,
    pub lon: Option<i32>,
    pub city: Option<String>,
    pub country: Option<String>,
}

impl Clone for LocationResponse {
    fn clone(&self) -> (copy: LocationResponse)
        ensures
            copy == *self,
    {
        LocationResponse {
            lat: self.lat,
            lon: self.lon,
            city: match &self.city {
                Some(text) => Some(text.clone()),
                None => None,
            },
            country: match &self.country {
                Some(text) => Some(text.clone()),
                None => None,
            },
        }
    }
}

/// A place on the globe. Latitude and longitude are in ten-thousandths of a
/// degree, north and east positive.
#[derive(Debug, PartialEq, Eq)]
pub struct Location {
    pub latitude: i32,
    pub longitude: i32,
    pub city: String,
    pub country: String,
}

/// What a `Location` says, as mathematical values.
pub struct LocationView {
    pub latitude: int,
    pub longitude: int,
    pub city: Seq<char>,
    pub country: Seq<char>,
}

impl View for Location {
    type V = LocationView;

    open spec fn view(&self) -> LocationView {
        LocationView {
            latitude: self.latitude as int,
            longitude: self.longitude as int,
            city: self.city@,
            country: self.country@,
        }
    }
}

impl Clone for Location {
    fn clone(&self) -> (copy: Location)
        ensures
            copy@ == self@,
    {
        Location {
            latitude: self.latitude,
            longitude: self.longitude,
            city: self.city.clone(),
            country: self.country.clone(),
        }
    }
}

/// The place that is known, if any, as mathematical values.
pub open spec fn known(location: Option<Location>) -> Option<LocationView> {
    match location {
        Some(place) => Some(place@),
        None => None,
    }
}

/// Why a lookup gave no location.
#[derive(Debug, Clone, Copy, PartialEq, Eq, Structural)]
pub enum FetchError {
    /// No reply could be had or read.
    NoResponse,
    /// The reply carries no latitude.
    MissingLatitude,
    /// The reply carries a latitude but no longitude.
    MissingLongitude,
}

/// The name shown for a city or country that the reply did not give.
pub open spec fn unknown() -> Seq<char> {
    "Unknown"@
}

/// The text of an optional name: the name, or `unknown()` in its place.
pub open spec fn name_or_unknown(name: Option<String>) -> Seq<char> {
    match name {
        Some(text) => text@,
        None => unknown(),
    }
}

/// What a lookup that ended with `reply` yields: the place it names, or the
/// reason why it names none. Latitude is looked for before longitude.
pub open spec fn located(reply: Option<LocationResponse>) -> Result<LocationView, FetchError> {
    match reply {
        None => Err(FetchError::NoResponse),
        Some(response) => match (response.lat, response.lon) {
            (None, _) => Err(FetchError::MissingLatitude),
            (Some(_), None) => Err(FetchError::MissingLongitude),
            (Some(lat), Some(lon)) => Ok(
                LocationView {
                    latitude: lat as int,
                    longitude: lon as int,
                    city: name_or_unknown(response.city),
                    country: name_or_unknown(response.country),
                },
            ),
        },
    }
}

/// The outcome of a lookup as mathematical values.
pub open spec fn outcome_view(outcome: Result<Location, FetchError>) -> Result<
    LocationView,
    FetchError,
> {
    match outcome {
        Ok(location) => Ok(location@),
        Err(error) => Err(error),
    }
}

/// The name itself, or "Unknown" where there is none.
fn or_unknown(name: Option<String>) -> (text: String)
    ensures
        text@ == name_or_unknown(name),
{
    match name {
        Some(text) => text,
        None => String::from_str("Unknown"),
    }
}

/// Turns the end of one lookup into a location. `reply` is `None` where the
/// request or the decoding of its answer failed. A reply without latitude or
/// longitude is an error; a missing city or country reads "Unknown".
pub fn get_location(reply: Option<LocationResponse>) -> (outcome: Result<Location, FetchError>)
    ensures
        outcome_view(outcome) == located(reply),
{
    match reply {
        None => Err(FetchError::NoResponse),
        Some(response) => {
            let LocationResponse { lat, lon, city, country } = response;
            match lat {
                None => Err(FetchError::MissingLatitude),
                Some(latitude) => match lon {
                    None => Err(FetchError::MissingLongitude),
                    Some(longitude) => Ok(
                        Location {
                            latitude,
                            longitude,
                            city: or_unknown(city),
                            country: or_unknown(country),
                        },
                    ),
                },
            }
        },
    }
}

/// A lookup fails exactly when there is no reply or the reply lacks a
/// coordinate.
pub proof fn lemma_located_fails_iff_incomplete(reply: Option<LocationResponse>)
    ensures
        located(reply) is Err <==> (reply is None || reply->Some_0.lat is None
            || reply->Some_0.lon is None),
{
}

/// Where a complete reply lacks the city, the location's city reads
/// "Unknown"; likewise for the country. Names that are given are kept.
pub proof fn lemma_missing_names_read_unknown(response: LocationResponse)
    requires
        response.lat is Some,
        response.lon is Some,
    ensures
        located(Some(response)) is Ok,
        response.city is None ==> located(Some(response))->Ok_0.city == "Unknown"@,
        response.country is None ==> located(Some(response))->Ok_0.country == "Unknown"@,
        response.city matches Some(city) ==> located(Some(response))->Ok_0.city == city@,
        response.country matches Some(country) ==> located(Some(response))->Ok_0.country
            == country@,
{
}

} // verus!
