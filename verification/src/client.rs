//! Endpoint URLs and response classification.
//!
//! The HTTP exchange itself happens outside the library. A caller builds the
//! request URL here, performs the GET, and hands the outcome back as
//! `Option<(status, body)>` — `None` for a connection failure. The
//! `..._from_fetch` functions turn that outcome into a typed response or an
//! error: a failure or non-success status is always `TransportError`, and a
//! body that does not decode is always `DecodeError`, never a partial value.

use vstd::prelude::*;
use vstd::string::StringExecFns;
use crate::decode::{
    decode_map_data, decode_map_names, decode_war_data, map_data_of, map_names_of, war_data_of,
};
use crate::json::{parse_json, parse_model};
use crate::response_types::{MapDataModel, MapDataResponse, MapNameResponse, WarDataModel,
    WarDataResponse};
use crate::{ApiError, Shard};

verus! {

/// Base URL of a shard's API.
pub open spec fn base_url_of(shard: Shard) -> Seq<char> {
    match shard {
        Shard::Live1 => "https://war-service-live.foxholeservices.com/api"@,
        Shard::Live2 => "https://war-service-live-2.foxholeservices.com/api"@,
    }
}

/// Base URL of the given shard's API.
pub fn shard_base_url(shard: &Shard) -> (r: String)
    ensures
        r@ == base_url_of(*shard),
{
    match shard {
        Shard::Live1 => String::from_str("https://war-service-live.foxholeservices.com/api"),
        Shard::Live2 => String::from_str("https://war-service-live-2.foxholeservices.com/api"),
    }
}

/// Full URL for an endpoint path on the given shard.
pub fn request_url(shard: &Shard, path: &str) -> (r: String)
    ensures
        r@ == base_url_of(*shard) + path@,
{
    let mut url = shard_base_url(shard);
    url.append(path);
    url
}

/// Path of the war-status endpoint.
pub fn war_data_path() -> (r: String)
    ensures
        r@ == "/worldconquest/war"@,
{
    String::from_str("/worldconquest/war")
}

/// Path of the map-name listing endpoint.
pub fn map_names_path() -> (r: String)
    ensures
        r@ == "/worldconquest/maps"@,
{
    String::from_str("/worldconquest/maps")
}

/// Path of the static map-data endpoint for the given map.
pub fn map_data_static_path(map_name: &str) -> (r: String)
    ensures
        r@ == "/worldconquest/maps/"@ + map_name@ + "/static"@,
{
    let mut path = String::from_str("/worldconquest/maps/");
    path.append(map_name);
    path.append("/static");
    path
}

/// Path of the public dynamic map-data endpoint for the given map.
pub fn map_data_dynamic_path(map_name: &str) -> (r: String)
    ensures
        r@ == "/worldconquest/maps/"@ + map_name@ + "/dynamic/public"@,
{
    let mut path = String::from_str("/worldconquest/maps/");
    path.append(map_name);
    path.append("/dynamic/public");
    path
}

/// Model of a war-status call: the outcome of the GET, classified.
pub open spec fn war_fetch_model(fetch: Option<(u16, String)>) -> Result<WarDataModel, ApiError> {
    match fetch {
        Option::None => Result::Err(ApiError::TransportError),
        Option::Some((status, body)) => if status != 200 {
            Result::Err(ApiError::TransportError)
        } else {
            match parse_model(body@) {
                Option::None => Result::Err(ApiError::DecodeError),
                Option::Some(j) => match war_data_of(j) {
                    Option::None => Result::Err(ApiError::DecodeError),
                    Option::Some(m) => Result::Ok(m),
                },
            }
        },
    }
}

/// Turns the outcome of a war-status GET into the typed response. A
/// connection failure (`None`) or non-success status is a transport error; a
/// status-200 body yields exactly what the decode model yields for it.
pub fn war_data_from_fetch(fetch: Option<(u16, String)>) -> (r: Result<WarDataResponse, ApiError>)
    ensures
        r matches Ok(w) ==> war_fetch_model(fetch) == Result::<WarDataModel, ApiError>::Ok(w@),
        r matches Err(e) ==> war_fetch_model(fetch) == Result::<WarDataModel, ApiError>::Err(e),
{
    match fetch {
        None => Err(ApiError::TransportError),
        Some((status, body)) => {
            if status != 200 {
                Err(ApiError::TransportError)
            } else {
                match parse_json(body.as_str()) {
                    None => Err(ApiError::DecodeError),
                    Some(j) => decode_war_data(&j),
                }
            }
        },
    }
}

/// Model of a map-name call: the outcome of the GET, classified.
pub open spec fn map_names_fetch_model(fetch: Option<(u16, String)>) -> Result<
    Seq<Seq<char>>,
    ApiError,
> {
    match fetch {
        Option::None => Result::Err(ApiError::TransportError),
        Option::Some((status, body)) => if status != 200 {
            Result::Err(ApiError::TransportError)
        } else {
            match parse_model(body@) {
                Option::None => Result::Err(ApiError::DecodeError),
                Option::Some(j) => match map_names_of(j) {
                    Option::None => Result::Err(ApiError::DecodeError),
                    Option::Some(m) => Result::Ok(m),
                },
            }
        },
    }
}

/// Turns the outcome of a map-name GET into the typed response, on the same
/// terms as [`war_data_from_fetch`].
pub fn map_names_from_fetch(fetch: Option<(u16, String)>) -> (r: Result<MapNameResponse, ApiError>)
    ensures
        r matches Ok(m) ==> map_names_fetch_model(fetch) == Result::<
            Seq<Seq<char>>,
            ApiError,
        >::Ok(m@),
        r matches Err(e) ==> map_names_fetch_model(fetch) == Result::<
            Seq<Seq<char>>,
            ApiError,
        >::Err(e),
{
    match fetch {
        None => Err(ApiError::TransportError),
        Some((status, body)) => {
            if status != 200 {
                Err(ApiError::TransportError)
            } else {
                match parse_json(body.as_str()) {
                    None => Err(ApiError::DecodeError),
                    Some(j) => decode_map_names(&j),
                }
            }
        },
    }
}

/// Model of a map-data call: the outcome of the GET, classified.
pub open spec fn map_data_fetch_model(fetch: Option<(u16, String)>) -> Result<
    MapDataModel,
    ApiError,
> {
    match fetch {
        Option::None => Result::Err(ApiError::TransportError),
        Option::Some((status, body)) => if status != 200 {
            Result::Err(ApiError::TransportError)
        } else {
            match parse_model(body@) {
                Option::None => Result::Err(ApiError::DecodeError),
                Option::Some(j) => match map_data_of(j) {
                    Option::None => Result::Err(ApiError::DecodeError),
                    Option::Some(m) => Result::Ok(m),
                },
            }
        },
    }
}

/// Turns the outcome of a static or dynamic map-data GET into the typed
/// response, on the same terms as [`war_data_from_fetch`].
pub fn map_data_from_fetch(fetch: Option<(u16, String)>) -> (r: Result<MapDataResponse, ApiError>)
    ensures
        r matches Ok(d) ==> map_data_fetch_model(fetch) == Result::<MapDataModel, ApiError>::Ok(
            d@,
        ),
        r matches Err(e) ==> map_data_fetch_model(fetch) == Result::<MapDataModel, ApiError>::Err(
            e,
        ),
{
    match fetch {
        None => Err(ApiError::TransportError),
        Some((status, body)) => {
            if status != 200 {
                Err(ApiError::TransportError)
            } else {
                match parse_json(body.as_str()) {
                    None => Err(ApiError::DecodeError),
                    Some(j) => decode_map_data(&j),
                }
            }
        },
    }
}

} // verus!
