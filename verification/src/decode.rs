//! Strict decoding of JSON trees into the response types.
//!
//! Each `..._of` spec function is the decode model of one JSON shape: it
//! yields the decoded value exactly when the tree matches the shape, and
//! nothing otherwise. The executable decoders return precisely what their
//! model yields, and `ApiError::DecodeError` exactly when it yields nothing:
//! a missing required field, a type mismatch or an unknown enumeration tag
//! is an error, never a default. Unknown extra fields are ignored; the two
//! optional war timestamps read as unset when absent or null.

use vstd::prelude::*;
use crate::ApiError;
use crate::json::{lookup, obj_get, JsonField, JsonValue};
use crate::response_types::{
    icon_of_tag, icon_type_from_tag, map_marker_from_token, marker_of_token, team_id_from_token,
    team_of_token, IconType, MapDataModel, MapDataResponse, MapItem, MapItemModel,
    MapNameResponse, MapTextItem, MapTextItemModel, MapMarkerType, TeamId, WarDataModel,
    WarDataResponse,
};
use crate::util::{dec_val, is_digit_seq, parse_uint};

verus! {

/// String content of a JSON string value.
pub open spec fn as_str_val(v: JsonValue) -> Option<Seq<char>> {
    match v {
        JsonValue::Str(s) => Option::Some(s@),
        _ => Option::None,
    }
}

/// Value of a JSON number that is a plain unsigned integer of at most `max`.
pub open spec fn as_uint_val(v: JsonValue, max: int) -> Option<int> {
    match v {
        JsonValue::Num(t) => if is_digit_seq(t@) && dec_val(t@) <= max {
            Option::Some(dec_val(t@))
        } else {
            Option::None
        },
        _ => Option::None,
    }
}

/// Raw decimal token of a JSON number value.
pub open spec fn as_token_val(v: JsonValue) -> Option<Seq<char>> {
    match v {
        JsonValue::Num(t) => Option::Some(t@),
        _ => Option::None,
    }
}

/// String bound to `key` in the fields, if present with that type.
pub open spec fn str_field(fs: Seq<JsonField>, key: Seq<char>) -> Option<Seq<char>> {
    match lookup(fs, key) {
        Option::Some(v) => as_str_val(v),
        Option::None => Option::None,
    }
}

/// Unsigned integer of at most `max` bound to `key`, if present.
pub open spec fn uint_field(fs: Seq<JsonField>, key: Seq<char>, max: int) -> Option<int> {
    match lookup(fs, key) {
        Option::Some(v) => as_uint_val(v, max),
        Option::None => Option::None,
    }
}

/// Optional unsigned integer bound to `key`: unset when the field is absent
/// or null, a value when it is an integer of at most `max`, and a failure on
/// any other value.
pub open spec fn opt_uint_field(fs: Seq<JsonField>, key: Seq<char>, max: int) -> Option<
    Option<int>,
> {
    match lookup(fs, key) {
        Option::None => Option::Some(Option::None),
        Option::Some(JsonValue::Null) => Option::Some(Option::None),
        Option::Some(v) => match as_uint_val(v, max) {
            Option::Some(n) => Option::Some(Option::Some(n)),
            Option::None => Option::None,
        },
    }
}

/// Number token bound to `key`, if present as a number.
pub open spec fn token_field(fs: Seq<JsonField>, key: Seq<char>) -> Option<Seq<char>> {
    match lookup(fs, key) {
        Option::Some(v) => as_token_val(v),
        Option::None => Option::None,
    }
}

/// Team bound to `key`, decoded from its string token.
pub open spec fn team_field(fs: Seq<JsonField>, key: Seq<char>) -> Option<TeamId> {
    match str_field(fs, key) {
        Option::Some(s) => team_of_token(s),
        Option::None => Option::None,
    }
}

/// Icon kind bound to `key`, decoded from its integer tag.
pub open spec fn icon_field(fs: Seq<JsonField>, key: Seq<char>) -> Option<IconType> {
    match uint_field(fs, key, 0xFFFF) {
        Option::Some(n) => icon_of_tag(n),
        Option::None => Option::None,
    }
}

/// Marker size bound to `key`, decoded from its string token.
pub open spec fn marker_field(fs: Seq<JsonField>, key: Seq<char>) -> Option<MapMarkerType> {
    match str_field(fs, key) {
        Option::Some(s) => marker_of_token(s),
        Option::None => Option::None,
    }
}

fn get_str(fields: &Vec<JsonField>, key: &str) -> (r: Option<String>)
    ensures
        r matches Some(s) ==> str_field(fields@, key@) == Option::Some(s@),
        r is None ==> str_field(fields@, key@) is None,
{
    match obj_get(fields, key) {
        Some(v) => match v {
            JsonValue::Str(s) => Some(s.clone()),
            _ => None,
        },
        None => None,
    }
}

fn get_uint(fields: &Vec<JsonField>, key: &str, max: u64) -> (r: Option<u64>)
    ensures
        r matches Some(n) ==> uint_field(fields@, key@, max as int) == Option::Some(n as int),
        r is None ==> uint_field(fields@, key@, max as int) is None,
{
    match obj_get(fields, key) {
        Some(v) => match v {
            JsonValue::Num(t) => parse_uint(t.as_str(), max),
            _ => None,
        },
        None => None,
    }
}

fn get_opt_uint(fields: &Vec<JsonField>, key: &str, max: u64) -> (r: Option<Option<u64>>)
    ensures
        r matches Some(o) ==> opt_uint_field(fields@, key@, max as int) == Option::Some(
            match o {
                Option::Some(n) => Option::Some(n as int),
                Option::None => Option::None,
            },
        ),
        r is None ==> opt_uint_field(fields@, key@, max as int) is None,
{
    match obj_get(fields, key) {
        Some(v) => match v {
            JsonValue::Null => Some(None),
            JsonValue::Num(t) => match parse_uint(t.as_str(), max) {
                Some(n) => Some(Some(n)),
                None => None,
            },
            _ => None,
        },
        None => Some(None),
    }
}

fn get_token(fields: &Vec<JsonField>, key: &str) -> (r: Option<String>)
    ensures
        r matches Some(t) ==> token_field(fields@, key@) == Option::Some(t@),
        r is None ==> token_field(fields@, key@) is None,
{
    match obj_get(fields, key) {
        Some(v) => match v {
            JsonValue::Num(t) => Some(t.clone()),
            _ => None,
        },
        None => None,
    }
}

fn get_team(fields: &Vec<JsonField>, key: &str) -> (r: Option<TeamId>)
    ensures
        r == team_field(fields@, key@),
{
    match obj_get(fields, key) {
        Some(v) => match v {
            JsonValue::Str(s) => team_id_from_token(s.as_str()),
            _ => None,
        },
        None => None,
    }
}

fn get_icon(fields: &Vec<JsonField>, key: &str) -> (r: Option<IconType>)
    ensures
        r == icon_field(fields@, key@),
{
    match get_uint(fields, key, 0xFFFF) {
        Some(n) => icon_type_from_tag(n as u16),
        None => None,
    }
}

fn get_marker(fields: &Vec<JsonField>, key: &str) -> (r: Option<MapMarkerType>)
    ensures
        r == marker_field(fields@, key@),
{
    match obj_get(fields, key) {
        Some(v) => match v {
            JsonValue::Str(s) => map_marker_from_token(s.as_str()),
            _ => None,
        },
        None => None,
    }
}

/// Decode model of the war-status object.
pub open spec fn war_data_of(v: JsonValue) -> Option<WarDataModel> {
    match v {
        JsonValue::Obj(fields) => {
            let fs = fields@;
            if str_field(fs, "warId"@) is Some && uint_field(fs, "warNumber"@, u32::MAX as int)
                is Some && team_field(fs, "winner"@) is Some && uint_field(
                fs,
                "conquestStartTime"@,
                u64::MAX as int,
            ) is Some && opt_uint_field(fs, "conquestEndTime"@, u64::MAX as int) is Some
                && opt_uint_field(fs, "resistanceStartTime"@, u64::MAX as int) is Some
                && uint_field(fs, "requiredVictoryTowns"@, u8::MAX as int) is Some {
                Option::Some(
                    WarDataModel {
                        war_id: str_field(fs, "warId"@).unwrap(),
                        war_number: uint_field(fs, "warNumber"@, u32::MAX as int).unwrap(),
                        winner: team_field(fs, "winner"@).unwrap(),
                        conquest_start_time: uint_field(
                            fs,
                            "conquestStartTime"@,
                            u64::MAX as int,
                        ).unwrap(),
                        conquest_end_time: opt_uint_field(
                            fs,
                            "conquestEndTime"@,
                            u64::MAX as int,
                        ).unwrap(),
                        resistance_start_time: opt_uint_field(
                            fs,
                            "resistanceStartTime"@,
                            u64::MAX as int,
                        ).unwrap(),
                        required_victory_towns: uint_field(
                            fs,
                            "requiredVictoryTowns"@,
                            u8::MAX as int,
                        ).unwrap(),
                    },
                )
            } else {
                Option::None
            }
        },
        _ => Option::None,
    }
}

/// Decodes the war-status object; returns exactly what [`war_data_of`]
/// yields, and a decode error exactly when it yields nothing.
pub fn decode_war_data(v: &JsonValue) -> (r: Result<WarDataResponse, ApiError>)
    ensures
        r matches Ok(w) ==> war_data_of(*v) == Option::Some(w@),
        r is Err <==> war_data_of(*v) is None,
        r matches Err(e) ==> e == ApiError::DecodeError,
{
    let fields = match v {
        JsonValue::Obj(fields) => fields,
        _ => {
            return Err(ApiError::DecodeError);
        },
    };
    let war_id = match get_str(fields, "warId") {
        Some(s) => s,
        None => {
            return Err(ApiError::DecodeError);
        },
    };
    let war_number = match get_uint(fields, "warNumber", u32::MAX as u64) {
        Some(n) => n as u32,
        None => {
            return Err(ApiError::DecodeError);
        },
    };
    let winner = match get_team(fields, "winner") {
        Some(t) => t,
        None => {
            return Err(ApiError::DecodeError);
        },
    };
    let conquest_start_time = match get_uint(fields, "conquestStartTime", u64::MAX) {
        Some(n) => n,
        None => {
            return Err(ApiError::DecodeError);
        },
    };
    let conquest_end_time = match get_opt_uint(fields, "conquestEndTime", u64::MAX) {
        Some(o) => o,
        None => {
            return Err(ApiError::DecodeError);
        },
    };
    let resistance_start_time = match get_opt_uint(fields, "resistanceStartTime", u64::MAX) {
        Some(o) => o,
        None => {
            return Err(ApiError::DecodeError);
        },
    };
    let required_victory_towns = match get_uint(fields, "requiredVictoryTowns", u8::MAX as u64) {
        Some(n) => n as u8,
        None => {
            return Err(ApiError::DecodeError);
        },
    };
    Ok(
        WarDataResponse {
            war_id,
            war_number,
            winner,
            conquest_start_time,
            conquest_end_time,
            resistance_start_time,
            required_victory_towns,
        },
    )
}

/// Decode model of one map item object.
pub open spec fn map_item_of(v: JsonValue) -> Option<MapItemModel> {
    match v {
        JsonValue::Obj(fields) => {
            let fs = fields@;
            if team_field(fs, "teamId"@) is Some && icon_field(fs, "iconType"@) is Some
                && token_field(fs, "x"@) is Some && token_field(fs, "y"@) is Some && uint_field(
                fs,
                "flags"@,
                u16::MAX as int,
            ) is Some {
                Option::Some(
                    MapItemModel {
                        team_id: team_field(fs, "teamId"@).unwrap(),
                        icon_type: icon_field(fs, "iconType"@).unwrap(),
                        x: token_field(fs, "x"@).unwrap(),
                        y: token_field(fs, "y"@).unwrap(),
                        flags: uint_field(fs, "flags"@, u16::MAX as int).unwrap(),
                    },
                )
            } else {
                Option::None
            }
        },
        _ => Option::None,
    }
}

/// Decodes one map item; returns exactly what [`map_item_of`] yields, and a
/// decode error exactly when it yields nothing.
pub fn decode_map_item(v: &JsonValue) -> (r: Result<MapItem, ApiError>)
    ensures
        r matches Ok(m) ==> map_item_of(*v) == Option::Some(m@),
        r is Err <==> map_item_of(*v) is None,
        r matches Err(e) ==> e == ApiError::DecodeError,
{
    let fields = match v {
        JsonValue::Obj(fields) => fields,
        _ => {
            return Err(ApiError::DecodeError);
        },
    };
    let team_id = match get_team(fields, "teamId") {
        Some(t) => t,
        None => {
            return Err(ApiError::DecodeError);
        },
    };
    let icon_type = match get_icon(fields, "iconType") {
        Some(t) => t,
        None => {
            return Err(ApiError::DecodeError);
        },
    };
    let x = match get_token(fields, "x") {
        Some(t) => t,
        None => {
            return Err(ApiError::DecodeError);
        },
    };
    let y = match get_token(fields, "y") {
        Some(t) => t,
        None => {
            return Err(ApiError::DecodeError);
        },
    };
    let flags = match get_uint(fields, "flags", u16::MAX as u64) {
        Some(n) => n as u16,
        None => {
            return Err(ApiError::DecodeError);
        },
    };
    Ok(MapItem { team_id, icon_type, x, y, flags })
}

/// Decode model of one map label object.
pub open spec fn map_text_item_of(v: JsonValue) -> Option<MapTextItemModel> {
    match v {
        JsonValue::Obj(fields) => {
            let fs = fields@;
            if str_field(fs, "text"@) is Some && token_field(fs, "x"@) is Some && token_field(
                fs,
                "y"@,
            ) is Some && marker_field(fs, "mapMarkerType"@) is Some {
                Option::Some(
                    MapTextItemModel {
                        text: str_field(fs, "text"@).unwrap(),
                        x: token_field(fs, "x"@).unwrap(),
                        y: token_field(fs, "y"@).unwrap(),
                        map_marker_type: marker_field(fs, "mapMarkerType"@).unwrap(),
                    },
                )
            } else {
                Option::None
            }
        },
        _ => Option::None,
    }
}

/// Decodes one map label; returns exactly what [`map_text_item_of`] yields,
/// and a decode error exactly when it yields nothing.
pub fn decode_map_text_item(v: &JsonValue) -> (r: Result<MapTextItem, ApiError>)
    ensures
        r matches Ok(m) ==> map_text_item_of(*v) == Option::Some(m@),
        r is Err <==> map_text_item_of(*v) is None,
        r matches Err(e) ==> e == ApiError::DecodeError,
{
    let fields = match v {
        JsonValue::Obj(fields) => fields,
        _ => {
            return Err(ApiError::DecodeError);
        },
    };
    let text = match get_str(fields, "text") {
        Some(s) => s,
        None => {
            return Err(ApiError::DecodeError);
        },
    };
    let x = match get_token(fields, "x") {
        Some(t) => t,
        None => {
            return Err(ApiError::DecodeError);
        },
    };
    let y = match get_token(fields, "y") {
        Some(t) => t,
        None => {
            return Err(ApiError::DecodeError);
        },
    };
    let map_marker_type = match get_marker(fields, "mapMarkerType") {
        Some(m) => m,
        None => {
            return Err(ApiError::DecodeError);
        },
    };
    Ok(MapTextItem { text, x, y, map_marker_type })
}

/// Whether every element decodes as a map item.
pub open spec fn items_ok(elems: Seq<JsonValue>) -> bool {
    forall|i: int| 0 <= i < elems.len() ==> map_item_of(#[trigger] elems[i]) is Some
}

/// Element-wise decode of a map item array, order preserved.
pub open spec fn items_of(elems: Seq<JsonValue>) -> Seq<MapItemModel> {
    Seq::new(elems.len(), |i: int| map_item_of(elems[i]).unwrap())
}

/// Map item sequence bound to `key`: present as an array whose every
/// element decodes, in server order; an empty array is an empty sequence.
pub open spec fn map_items_field(fs: Seq<JsonField>, key: Seq<char>) -> Option<
    Seq<MapItemModel>,
> {
    match lookup(fs, key) {
        Option::Some(JsonValue::Arr(elems)) => if items_ok(elems@) {
            Option::Some(items_of(elems@))
        } else {
            Option::None
        },
        _ => Option::None,
    }
}

fn get_map_items(fields: &Vec<JsonField>, key: &str) -> (r: Option<Vec<MapItem>>)
    ensures
        r matches Some(items) ==> map_items_field(fields@, key@) == Option::Some(
            items@.map_values(|m: MapItem| m@),
        ),
        r is None ==> map_items_field(fields@, key@) is None,
{
    let arr = match obj_get(fields, key) {
        Some(v) => match v {
            JsonValue::Arr(elems) => elems,
            _ => {
                return None;
            },
        },
        None => {
            return None;
        },
    };
    let n = arr.len();
    let mut out: Vec<MapItem> = Vec::new();
    let mut i: usize = 0;
    while i < n
        invariant
            i <= n == arr@.len(),
            out@.len() == i,
            lookup(fields@, key@) == Option::Some(JsonValue::Arr(*arr)),
            forall|j: int| 0 <= j < i ==> map_item_of(#[trigger] arr@[j]) == Option::Some(
                out@[j]@,
            ),
        decreases n - i,
    {
        match decode_map_item(&arr[i]) {
            Ok(item) => out.push(item),
            Err(_) => {
                proof {
                    assert(map_item_of(arr@[i as int]) is None);
                    assert(!items_ok(arr@));
                }
                return None;
            },
        }
        i = i + 1;
    }
    proof {
        assert(out@.map_values(|m: MapItem| m@) =~= items_of(arr@));
    }
    Some(out)
}

/// Whether every element decodes as a map label.
pub open spec fn text_items_ok(elems: Seq<JsonValue>) -> bool {
    forall|i: int| 0 <= i < elems.len() ==> map_text_item_of(#[trigger] elems[i]) is Some
}

/// Element-wise decode of a map label array, order preserved.
pub open spec fn text_items_of(elems: Seq<JsonValue>) -> Seq<MapTextItemModel> {
    Seq::new(elems.len(), |i: int| map_text_item_of(elems[i]).unwrap())
}

/// Map label sequence bound to `key`: present as an array whose every
/// element decodes, in server order; an empty array is an empty sequence.
pub open spec fn map_text_items_field(fs: Seq<JsonField>, key: Seq<char>) -> Option<
    Seq<MapTextItemModel>,
> {
    match lookup(fs, key) {
        Option::Some(JsonValue::Arr(elems)) => if text_items_ok(elems@) {
            Option::Some(text_items_of(elems@))
        } else {
            Option::None
        },
        _ => Option::None,
    }
}

fn get_map_text_items(fields: &Vec<JsonField>, key: &str) -> (r: Option<Vec<MapTextItem>>)
    ensures
        r matches Some(items) ==> map_text_items_field(fields@, key@) == Option::Some(
            items@.map_values(|m: MapTextItem| m@),
        ),
        r is None ==> map_text_items_field(fields@, key@) is None,
{
    let arr = match obj_get(fields, key) {
        Some(v) => match v {
            JsonValue::Arr(elems) => elems,
            _ => {
                return None;
            },
        },
        None => {
            return None;
        },
    };
    let n = arr.len();
    let mut out: Vec<MapTextItem> = Vec::new();
    let mut i: usize = 0;
    while i < n
        invariant
            i <= n == arr@.len(),
            out@.len() == i,
            lookup(fields@, key@) == Option::Some(JsonValue::Arr(*arr)),
            forall|j: int| 0 <= j < i ==> map_text_item_of(#[trigger] arr@[j]) == Option::Some(
                out@[j]@,
            ),
        decreases n - i,
    {
        match decode_map_text_item(&arr[i]) {
            Ok(item) => out.push(item),
            Err(_) => {
                proof {
                    assert(map_text_item_of(arr@[i as int]) is None);
                    assert(!text_items_ok(arr@));
                }
                return None;
            },
        }
        i = i + 1;
    }
    proof {
        assert(out@.map_values(|m: MapTextItem| m@) =~= text_items_of(arr@));
    }
    Some(out)
}

/// Decode model of the map-data object.
pub open spec fn map_data_of(v: JsonValue) -> Option<MapDataModel> {
    match v {
        JsonValue::Obj(fields) => {
            let fs = fields@;
            if uint_field(fs, "regionId"@, u16::MAX as int) is Some && uint_field(
                fs,
                "scorchedVictoryTowns"@,
                u16::MAX as int,
            ) is Some && map_items_field(fs, "mapItems"@) is Some && map_text_items_field(
                fs,
                "mapTextItems"@,
            ) is Some && uint_field(fs, "lastUpdated"@, u64::MAX as int) is Some && uint_field(
                fs,
                "version"@,
                u16::MAX as int,
            ) is Some {
                Option::Some(
                    MapDataModel {
                        region_id: uint_field(fs, "regionId"@, u16::MAX as int).unwrap(),
                        scorched_victory_towns: uint_field(
                            fs,
                            "scorchedVictoryTowns"@,
                            u16::MAX as int,
                        ).unwrap(),
                        map_items: map_items_field(fs, "mapItems"@).unwrap(),
                        map_text_items: map_text_items_field(fs, "mapTextItems"@).unwrap(),
                        last_updated: uint_field(fs, "lastUpdated"@, u64::MAX as int).unwrap(),
                        version: uint_field(fs, "version"@, u16::MAX as int).unwrap(),
                    },
                )
            } else {
                Option::None
            }
        },
        _ => Option::None,
    }
}

/// Decodes the map-data object; returns exactly what [`map_data_of`] yields,
/// and a decode error exactly when it yields nothing.
pub fn decode_map_data(v: &JsonValue) -> (r: Result<MapDataResponse, ApiError>)
    ensures
        r matches Ok(d) ==> map_data_of(*v) == Option::Some(d@),
        r is Err <==> map_data_of(*v) is None,
        r matches Err(e) ==> e == ApiError::DecodeError,
{
    let fields = match v {
        JsonValue::Obj(fields) => fields,
        _ => {
            return Err(ApiError::DecodeError);
        },
    };
    let region_id = match get_uint(fields, "regionId", u16::MAX as u64) {
        Some(n) => n as u16,
        None => {
            return Err(ApiError::DecodeError);
        },
    };
    let scorched_victory_towns = match get_uint(fields, "scorchedVictoryTowns", u16::MAX as u64) {
        Some(n) => n as u16,
        None => {
            return Err(ApiError::DecodeError);
        },
    };
    let map_items = match get_map_items(fields, "mapItems") {
        Some(items) => items,
        None => {
            return Err(ApiError::DecodeError);
        },
    };
    let map_text_items = match get_map_text_items(fields, "mapTextItems") {
        Some(items) => items,
        None => {
            return Err(ApiError::DecodeError);
        },
    };
    let last_updated = match get_uint(fields, "lastUpdated", u64::MAX) {
        Some(n) => n,
        None => {
            return Err(ApiError::DecodeError);
        },
    };
    let version = match get_uint(fields, "version", u16::MAX as u64) {
        Some(n) => n as u16,
        None => {
            return Err(ApiError::DecodeError);
        },
    };
    Ok(
        MapDataResponse {
            region_id,
            scorched_victory_towns,
            map_items,
            map_text_items,
            last_updated,
            version,
        },
    )
}

/// Whether every element is a JSON string.
pub open spec fn names_ok(elems: Seq<JsonValue>) -> bool {
    forall|i: int| 0 <= i < elems.len() ==> as_str_val(#[trigger] elems[i]) is Some
}

/// Element-wise read of a string array, order preserved.
pub open spec fn names_of(elems: Seq<JsonValue>) -> Seq<Seq<char>> {
    Seq::new(elems.len(), |i: int| as_str_val(elems[i]).unwrap())
}

/// Decode model of the map-name list: an array of strings, in server order.
pub open spec fn map_names_of(v: JsonValue) -> Option<Seq<Seq<char>>> {
    match v {
        JsonValue::Arr(elems) => if names_ok(elems@) {
            Option::Some(names_of(elems@))
        } else {
            Option::None
        },
        _ => Option::None,
    }
}

/// Decodes the map-name list; returns exactly what [`map_names_of`] yields,
/// order preserved, and a decode error exactly when it yields nothing.
pub fn decode_map_names(v: &JsonValue) -> (r: Result<MapNameResponse, ApiError>)
    ensures
        r matches Ok(m) ==> map_names_of(*v) == Option::Some(m@),
        r is Err <==> map_names_of(*v) is None,
        r matches Err(e) ==> e == ApiError::DecodeError,
{
    let arr = match v {
        JsonValue::Arr(elems) => elems,
        _ => {
            return Err(ApiError::DecodeError);
        },
    };
    let n = arr.len();
    let mut maps: Vec<String> = Vec::new();
    let mut i: usize = 0;
    while i < n
        invariant
            i <= n == arr@.len(),
            maps@.len() == i,
            *v == JsonValue::Arr(*arr),
            forall|j: int| 0 <= j < i ==> as_str_val(#[trigger] arr@[j]) == Option::Some(
                maps@[j]@,
            ),
        decreases n - i,
    {
        match &arr[i] {
            JsonValue::Str(s) => maps.push(s.clone()),
            _ => {
                proof {
                    assert(as_str_val(arr@[i as int]) is None);
                    assert(!names_ok(arr@));
                }
                return Err(ApiError::DecodeError);
            },
        }
        i = i + 1;
    }
    proof {
        assert(maps@.map_values(|s: String| s@) =~= names_of(arr@));
    }
    Ok(MapNameResponse { maps })
}

} // verus!
