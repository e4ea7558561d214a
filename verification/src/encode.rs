//! Re-encoding of response values as JSON trees.
//!
//! Each encoder's contract is a round-trip law: the tree it builds decodes,
//! under the decode model of [`crate::decode`], to exactly the value that
//! was encoded. Together with the decoders' contracts this gives
//! decode-then-reencode-then-decode the identity on every decoded value.

use vstd::prelude::*;
use vstd::string::StringExecFns;
use crate::decode::{
    as_str_val, as_token_val, as_uint_val, items_of, items_ok, map_data_of, map_item_of,
    map_items_field, map_text_item_of, map_text_items_field, map_names_of, names_of, names_ok,
    opt_uint_field, text_items_of, text_items_ok, uint_field, war_data_of,
};
use crate::json::{lemma_lookup_at, JsonField, JsonValue};
use crate::response_types::{
    icon_type_tag, map_marker_token, team_id_token, MapDataResponse, MapItem, MapNameResponse,
    MapTextItem, WarDataResponse,
};
use crate::util::{dec_digits_of, lemma_dec_digits_of_val, u64_to_dec};

verus! {

fn num_field(key: &'static str, n: u64) -> (r: JsonField)
    ensures
        r.name@ == key@,
        r.value matches JsonValue::Num(t) && t@ == dec_digits_of(n as int),
        as_uint_val(r.value, n as int) == Option::Some(n as int),
        as_token_val(r.value) == Option::Some(dec_digits_of(n as int)),
{
    let token = u64_to_dec(n);
    proof {
        lemma_dec_digits_of_val(n as int);
    }
    JsonField { name: String::from_str(key), value: JsonValue::Num(token) }
}

/// Builds the JSON object that decodes to exactly the given map item.
pub fn encode_map_item(m: &MapItem) -> (j: JsonValue)
    ensures
        map_item_of(j) == Option::Some(m@),
{
    let mut fields: Vec<JsonField> = Vec::new();
    fields.push(
        JsonField {
            name: String::from_str("teamId"),
            value: JsonValue::Str(String::from_str(team_id_token(&m.team_id))),
        },
    );
    fields.push(num_field("iconType", icon_type_tag(&m.icon_type) as u64));
    fields.push(JsonField { name: String::from_str("x"), value: JsonValue::Num(m.x.clone()) });
    fields.push(JsonField { name: String::from_str("y"), value: JsonValue::Num(m.y.clone()) });
    fields.push(num_field("flags", m.flags as u64));
    let ghost fs = fields@;
    let j = JsonValue::Obj(fields);
    proof {
        reveal_strlit("teamId");
        reveal_strlit("iconType");
        reveal_strlit("x");
        reveal_strlit("y");
        reveal_strlit("flags");
        assert("teamId"@.len() == 6 && "iconType"@.len() == 8 && "x"@.len() == 1 && "y"@.len()
            == 1 && "flags"@.len() == 5);
        assert("y"@[0] != "x"@[0]);
        lemma_lookup_at(fs, "teamId"@, 0);
        lemma_lookup_at(fs, "iconType"@, 1);
        lemma_lookup_at(fs, "x"@, 2);
        lemma_lookup_at(fs, "y"@, 3);
        lemma_lookup_at(fs, "flags"@, 4);
        assert(uint_field(fs, "flags"@, u16::MAX as int) == Option::Some(m.flags as int));
        assert(map_item_of(j) == Option::Some(m@));
    }
    j
}

/// Builds the JSON object that decodes to exactly the given map label.
pub fn encode_map_text_item(m: &MapTextItem) -> (j: JsonValue)
    ensures
        map_text_item_of(j) == Option::Some(m@),
{
    let mut fields: Vec<JsonField> = Vec::new();
    fields.push(
        JsonField { name: String::from_str("text"), value: JsonValue::Str(m.text.clone()) },
    );
    fields.push(JsonField { name: String::from_str("x"), value: JsonValue::Num(m.x.clone()) });
    fields.push(JsonField { name: String::from_str("y"), value: JsonValue::Num(m.y.clone()) });
    fields.push(
        JsonField {
            name: String::from_str("mapMarkerType"),
            value: JsonValue::Str(String::from_str(map_marker_token(&m.map_marker_type))),
        },
    );
    let ghost fs = fields@;
    let j = JsonValue::Obj(fields);
    proof {
        reveal_strlit("text");
        reveal_strlit("x");
        reveal_strlit("y");
        reveal_strlit("mapMarkerType");
        assert("text"@.len() == 4 && "x"@.len() == 1 && "y"@.len() == 1 && "mapMarkerType"@.len()
            == 13);
        assert("y"@[0] != "x"@[0]);
        lemma_lookup_at(fs, "text"@, 0);
        lemma_lookup_at(fs, "x"@, 1);
        lemma_lookup_at(fs, "y"@, 2);
        lemma_lookup_at(fs, "mapMarkerType"@, 3);
        assert(map_text_item_of(j) == Option::Some(m@));
    }
    j
}

/// Builds the JSON object that decodes to exactly the given map data: the
/// decode-reencode round trip is the identity on every map-data value.
pub fn encode_map_data(d: &MapDataResponse) -> (j: JsonValue)
    ensures
        map_data_of(j) == Option::Some(d@),
{
    let n_items = d.map_items.len();
    let mut items: Vec<JsonValue> = Vec::new();
    let mut i: usize = 0;
    while i < n_items
        invariant
            i <= n_items == d.map_items@.len(),
            items@.len() == i,
            forall|k: int| 0 <= k < i ==> map_item_of(#[trigger] items@[k]) == Option::Some(
                d.map_items@[k]@,
            ),
        decreases n_items - i,
    {
        items.push(encode_map_item(&d.map_items[i]));
        i = i + 1;
    }
    let n_text = d.map_text_items.len();
    let mut text_items: Vec<JsonValue> = Vec::new();
    let mut t: usize = 0;
    while t < n_text
        invariant
            t <= n_text == d.map_text_items@.len(),
            text_items@.len() == t,
            forall|k: int| 0 <= k < t ==> map_text_item_of(#[trigger] text_items@[k])
                == Option::Some(d.map_text_items@[k]@),
        decreases n_text - t,
    {
        text_items.push(encode_map_text_item(&d.map_text_items[t]));
        t = t + 1;
    }
    proof {
        assert(items_ok(items@));
        assert(items_of(items@) =~= d@.map_items);
        assert(text_items_ok(text_items@));
        assert(text_items_of(text_items@) =~= d@.map_text_items);
    }
    let mut fields: Vec<JsonField> = Vec::new();
    fields.push(num_field("regionId", d.region_id as u64));
    fields.push(num_field("scorchedVictoryTowns", d.scorched_victory_towns as u64));
    fields.push(JsonField { name: String::from_str("mapItems"), value: JsonValue::Arr(items) });
    fields.push(
        JsonField { name: String::from_str("mapTextItems"), value: JsonValue::Arr(text_items) },
    );
    fields.push(num_field("lastUpdated", d.last_updated));
    fields.push(num_field("version", d.version as u64));
    let ghost fs = fields@;
    let j = JsonValue::Obj(fields);
    proof {
        reveal_strlit("regionId");
        reveal_strlit("scorchedVictoryTowns");
        reveal_strlit("mapItems");
        reveal_strlit("mapTextItems");
        reveal_strlit("lastUpdated");
        reveal_strlit("version");
        assert("regionId"@.len() == 8 && "scorchedVictoryTowns"@.len() == 20 && "mapItems"@.len()
            == 8 && "mapTextItems"@.len() == 12 && "lastUpdated"@.len() == 11 && "version"@.len()
            == 7);
        assert("mapItems"@[0] != "regionId"@[0]);
        lemma_lookup_at(fs, "regionId"@, 0);
        lemma_lookup_at(fs, "scorchedVictoryTowns"@, 1);
        lemma_lookup_at(fs, "mapItems"@, 2);
        lemma_lookup_at(fs, "mapTextItems"@, 3);
        lemma_lookup_at(fs, "lastUpdated"@, 4);
        lemma_lookup_at(fs, "version"@, 5);
        assert(uint_field(fs, "regionId"@, u16::MAX as int) == Option::Some(d.region_id as int));
        assert(uint_field(fs, "scorchedVictoryTowns"@, u16::MAX as int) == Option::Some(
            d.scorched_victory_towns as int,
        ));
        assert(uint_field(fs, "lastUpdated"@, u64::MAX as int) == Option::Some(
            d.last_updated as int,
        ));
        assert(uint_field(fs, "version"@, u16::MAX as int) == Option::Some(d.version as int));
        assert(map_items_field(fs, "mapItems"@) == Option::Some(d@.map_items));
        assert(map_text_items_field(fs, "mapTextItems"@) == Option::Some(d@.map_text_items));
        assert(map_data_of(j) == Option::Some(d@));
    }
    j
}

fn opt_num_field(key: &'static str, o: &Option<u64>) -> (r: JsonField)
    ensures
        r.name@ == key@,
        match *o {
            Option::Some(n) => (r.value matches JsonValue::Num(t) && t@ == dec_digits_of(
                n as int,
            )) && as_uint_val(r.value, n as int) == Option::Some(n as int),
            Option::None => r.value is Null,
        },
{
    match o {
        Some(n) => num_field(key, *n),
        None => JsonField { name: String::from_str(key), value: JsonValue::Null },
    }
}

/// Builds the JSON object that decodes to exactly the given war status: an
/// unset optional timestamp encodes as null.
pub fn encode_war_data(w: &WarDataResponse) -> (j: JsonValue)
    ensures
        war_data_of(j) == Option::Some(w@),
{
    let mut fields: Vec<JsonField> = Vec::new();
    fields.push(
        JsonField { name: String::from_str("warId"), value: JsonValue::Str(w.war_id.clone()) },
    );
    fields.push(num_field("warNumber", w.war_number as u64));
    fields.push(
        JsonField {
            name: String::from_str("winner"),
            value: JsonValue::Str(String::from_str(team_id_token(&w.winner))),
        },
    );
    fields.push(num_field("conquestStartTime", w.conquest_start_time));
    fields.push(opt_num_field("conquestEndTime", &w.conquest_end_time));
    fields.push(opt_num_field("resistanceStartTime", &w.resistance_start_time));
    fields.push(num_field("requiredVictoryTowns", w.required_victory_towns as u64));
    let ghost fs = fields@;
    let j = JsonValue::Obj(fields);
    proof {
        reveal_strlit("warId");
        reveal_strlit("warNumber");
        reveal_strlit("winner");
        reveal_strlit("conquestStartTime");
        reveal_strlit("conquestEndTime");
        reveal_strlit("resistanceStartTime");
        reveal_strlit("requiredVictoryTowns");
        assert("warId"@.len() == 5 && "warNumber"@.len() == 9 && "winner"@.len() == 6
            && "conquestStartTime"@.len() == 17 && "conquestEndTime"@.len() == 15
            && "resistanceStartTime"@.len() == 19 && "requiredVictoryTowns"@.len() == 20);
        lemma_lookup_at(fs, "warId"@, 0);
        lemma_lookup_at(fs, "warNumber"@, 1);
        lemma_lookup_at(fs, "winner"@, 2);
        lemma_lookup_at(fs, "conquestStartTime"@, 3);
        lemma_lookup_at(fs, "conquestEndTime"@, 4);
        lemma_lookup_at(fs, "resistanceStartTime"@, 5);
        lemma_lookup_at(fs, "requiredVictoryTowns"@, 6);
        assert(uint_field(fs, "warNumber"@, u32::MAX as int) == Option::Some(
            w.war_number as int,
        ));
        assert(uint_field(fs, "conquestStartTime"@, u64::MAX as int) == Option::Some(
            w.conquest_start_time as int,
        ));
        assert(uint_field(fs, "requiredVictoryTowns"@, u8::MAX as int) == Option::Some(
            w.required_victory_towns as int,
        ));
        assert(opt_uint_field(fs, "conquestEndTime"@, u64::MAX as int) == Option::Some(
            w@.conquest_end_time,
        ));
        assert(opt_uint_field(fs, "resistanceStartTime"@, u64::MAX as int) == Option::Some(
            w@.resistance_start_time,
        ));
        assert(war_data_of(j) == Option::Some(w@));
    }
    j
}

/// Builds the JSON array that decodes to exactly the given name list, in
/// the same order.
pub fn encode_map_names(m: &MapNameResponse) -> (j: JsonValue)
    ensures
        map_names_of(j) == Option::Some(m@),
{
    let n = m.maps.len();
    let mut elems: Vec<JsonValue> = Vec::new();
    let mut i: usize = 0;
    while i < n
        invariant
            i <= n == m.maps@.len(),
            elems@.len() == i,
            forall|k: int| 0 <= k < i ==> as_str_val(#[trigger] elems@[k]) == Option::Some(
                m.maps@[k]@,
            ),
        decreases n - i,
    {
        elems.push(JsonValue::Str(m.maps[i].clone()));
        i = i + 1;
    }
    proof {
        assert(names_ok(elems@));
        assert(names_of(elems@) =~= m@);
    }
    JsonValue::Arr(elems)
}

} // verus!
