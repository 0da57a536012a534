//! Where an IP address is, as the geolocation service answers.
//!
//! The service is asked over HTTP by the caller; this module builds the
//! address to ask and reads the answer.

use vstd::prelude::*;
use vstd::string::*;
use crate::error::JsonError;
use crate::float::Float;
use crate::json::{json_of, parse, parse_json, Extract, Json};
use crate::text::{decode_lossy, utf8_lossy};

verus! {

/// A place: its address in words and, where known, its position.
#[derive(Debug)]
pub struct Coordinates {
    /// The address, from the largest unit to the smallest.
    pub addr: String,
    /// The latitude.
    pub lat: Option<Float>,
    /// The longitude.
    pub lon: Option<Float>,
}

/// The mathematical content of [`Coordinates`].
pub struct CoordinatesView {
    pub addr: Seq<char>,
    pub lat: Option<Float>,
    pub lon: Option<Float>,
}

impl View for Coordinates {
    type V = CoordinatesView;

    open spec fn view(&self) -> CoordinatesView {
        CoordinatesView { addr: self.addr@, lat: self.lat, lon: self.lon }
    }
}

impl CoordinatesView {
    /// Latitude and longitude are known together or not at all.
    pub open spec fn wf(self) -> bool {
        self.lat is Some <==> self.lon is Some
    }
}

impl Coordinates {
    /// Latitude and longitude are known together or not at all.
    pub open spec fn wf(&self) -> bool {
        self@.wf()
    }
}

impl Default for Coordinates {
    /// No address and no position.
    fn default() -> (r: Coordinates)
        ensures
            r@ == (CoordinatesView { addr: Seq::empty(), lat: None, lon: None }),
            r.wf(),
    {
        Coordinates { addr: String::new(), lat: None, lon: None }
    }
}

/// The address at which the service answers for `ip`.
pub open spec fn lookup_url(ip: Seq<char>) -> Seq<char> {
    "http://ip-api.com/json/"@ + ip + "?fields=61439&lang=zh-CN"@
}

/// The address to ask for `ip_address`: the service's address, the IP address
/// as it was given, and the request for every field, with names in Chinese.
pub fn request_url(ip_address: &str) -> (url: String)
    ensures
        url@ == lookup_url(ip_address@),
{
    let mut url = String::from_str("http://ip-api.com/json/");
    url.append(ip_address);
    url.append("?fields=61439&lang=zh-CN");
    url
}

/// What is said of an address that is not publicly routable.
pub open spec fn private_network() -> CoordinatesView {
    CoordinatesView { addr: "局域网"@, lat: None, lon: None }
}

/// The place that an answer with content `response` names.
///
/// An answer whose `status` is `"fail"` stands for a private network, which is
/// no error. Any other answer must hold `country`, `regionName` and `city` as
/// strings and `lat` and `lon` as numbers; the first of these, in this order,
/// that is absent or of another type decides the error.
pub open spec fn located(response: Json) -> Result<CoordinatesView, JsonError> {
    match Extract::spec_get_str(response, "status"@) {
        Err(e) => Err(e),
        Ok(status) => if status == "fail"@ {
            Ok(private_network())
        } else {
            match Extract::spec_get_str(response, "country"@) {
                Err(e) => Err(e),
                Ok(country) => match Extract::spec_get_str(response, "regionName"@) {
                    Err(e) => Err(e),
                    Ok(region) => match Extract::spec_get_str(response, "city"@) {
                        Err(e) => Err(e),
                        Ok(city) => match Extract::spec_get_f64(response, "lat"@) {
                            Err(e) => Err(e),
                            Ok(lat) => match Extract::spec_get_f64(response, "lon"@) {
                                Err(e) => Err(e),
                                Ok(lon) => Ok(
                                    CoordinatesView {
                                        addr: country + " "@ + region + " "@ + city,
                                        lat: Some(lat),
                                        lon: Some(lon),
                                    },
                                ),
                            },
                        },
                    },
                },
            }
        },
    }
}

/// An answer whose status is `"fail"` names the private network, whatever
/// else it holds: that status is a result, not an error.
pub proof fn lemma_failed_status_is_private_network(response: Json)
    requires
        response.get("status"@) == Some(Json::Text("fail"@)),
    ensures
        located(response) == Ok::<CoordinatesView, JsonError>(private_network()),
{
}

/// Every place that an answer names has its latitude and its longitude
/// together or neither of them.
pub proof fn lemma_located_is_wf(response: Json)
    ensures
        located(response) matches Ok(place) ==> place.wf(),
{
}

/// Whether `r` is the outcome `expected`, success or failure.
pub open spec fn is_outcome(r: Result<Coordinates, JsonError>, expected: Result<
    CoordinatesView,
    JsonError,
>) -> bool {
    match expected {
        Ok(place) => r is Ok && r.unwrap()@ == place,
        Err(e) => r is Err && r.unwrap_err() == e,
    }
}

/// Reads the place out of the service's answer.
pub fn coordinates_from_value(response: &serde_json::Value) -> (r: Result<Coordinates, JsonError>)
    ensures
        is_outcome(r, located(json_of(*response))),
        r is Ok ==> r.unwrap().wf(),
{
    let status = Extract::get_str(response, "status")?;
    if status.eq("fail") {
        return Ok(Coordinates { addr: String::from_str("局域网"), lat: None, lon: None });
    }
    let country = Extract::get_str(response, "country")?;
    let region_name = Extract::get_str(response, "regionName")?;
    let city = Extract::get_str(response, "city")?;
    let mut addr = String::from_str(country);
    addr.append(" ");
    addr.append(region_name);
    addr.append(" ");
    addr.append(city);
    let lat = Extract::get_f64(response, "lat")?;
    let lon = Extract::get_f64(response, "lon")?;
    Ok(Coordinates { addr, lat: Some(lat), lon: Some(lon) })
}

/// The place that an answer with the bytes `body` names.
pub open spec fn answered(body: Seq<u8>) -> Result<CoordinatesView, JsonError> {
    match parse_json(utf8_lossy(body)) {
        Some(response) => located(response),
        None => Err(JsonError::Parse),
    }
}

/// Reads the place out of the bytes of the service's answer. The bytes are
/// decoded leniently, read as JSON and then searched as
/// [`coordinates_from_value`] does.
pub fn coordinates_from_response(body: &[u8]) -> (r: Result<Coordinates, JsonError>)
    ensures
        is_outcome(r, answered(body@)),
        r is Ok ==> r.unwrap().wf(),
{
    let text = decode_lossy(body);
    let response = parse(text.as_str())?;
    coordinates_from_value(&response)
}

} // verus!
