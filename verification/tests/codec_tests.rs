use foxhole_api::client::map_data_from_fetch;
use foxhole_api::decode::{decode_map_data, decode_map_names, decode_war_data};
use foxhole_api::encode::{encode_map_data, encode_map_names, encode_war_data};
use foxhole_api::json::{parse_json, JsonValue};
use foxhole_api::response_types::{
    icon_type_from_tag, icon_type_tag, map_marker_from_token, map_marker_token,
    team_id_from_token, team_id_token, IconType, MapMarkerType, TeamId,
};
use foxhole_api::util::{parse_uint, u64_to_dec};
use foxhole_api::ApiError;

fn to_serde(v: &JsonValue) -> serde_json::Value {
    match v {
        JsonValue::Null => serde_json::Value::Null,
        JsonValue::Bool(b) => serde_json::Value::Bool(*b),
        JsonValue::Num(t) => {
            if let Ok(u) = t.parse::<u64>() {
                serde_json::Value::from(u)
            } else {
                serde_json::Value::from(t.parse::<f64>().unwrap())
            }
        }
        JsonValue::Str(s) => serde_json::Value::String(s.clone()),
        JsonValue::Arr(items) => serde_json::Value::Array(items.iter().map(to_serde).collect()),
        JsonValue::Obj(fields) => serde_json::Value::Object(
            fields.iter().map(|f| (f.name.clone(), to_serde(&f.value))).collect(),
        ),
    }
}

const DYNAMIC_BODY: &str = r#"{
        "regionId" : 38,
        "scorchedVictoryTowns" : 2,
        "mapItems" : [ {
          "teamId" : "NONE",
          "iconType" : 20,
          "x" : 0.43503433,
          "y" : 0.83201146,
          "flags" : 0
        }, {
          "teamId" : "COLONIALS",
          "iconType" : 45,
          "x" : 0.83840775,
          "y" : 0.45411408,
          "flags" : 41
        } ],
        "mapTextItems" : [ {
          "text" : "Captain's Dread",
          "x" : 0.8643478,
          "y" : 0.4387644,
          "mapMarkerType" : "Minor"
        } ],
        "lastUpdated" : 1635534670643,
        "version" : 5
      }"#;

#[test]
fn icon_tag_20_is_salvage_field() {
    assert_eq!(icon_type_from_tag(20), Some(IconType::SalvageField));
    assert_eq!(icon_type_tag(&IconType::SalvageField), 20);
}

#[test]
fn unknown_icon_tags_fail() {
    assert_eq!(icon_type_from_tag(999), None);
    for gap in [0u16, 4, 31, 42, 44, 48, 50, 55, 61] {
        assert_eq!(icon_type_from_tag(gap), None);
    }
}

#[test]
fn icon_tags_round_trip() {
    for icon in [
        IconType::StaticBase,
        IconType::TechCenter,
        IconType::SalvageField,
        IconType::TroopShip,
        IconType::SulfurMine,
        IconType::OilWell,
        IconType::RelicBase3,
        IconType::MassProductionFactory,
        IconType::IntelCenter,
    ] {
        let tag = icon_type_tag(&icon);
        assert_eq!(icon_type_from_tag(tag), Some(icon));
    }
}

#[test]
fn team_tokens_decode_exactly() {
    assert_eq!(team_id_from_token("WARDENS"), Some(TeamId::Wardens));
    assert_eq!(team_id_from_token("wardens"), None);
    assert_eq!(team_id_from_token("NONE"), Some(TeamId::NoTeam));
    assert_eq!(team_id_from_token("COLONIALS"), Some(TeamId::Colonials));
    assert_eq!(team_id_from_token(""), None);
    assert_eq!(team_id_token(&TeamId::Wardens), "WARDENS");
    assert_eq!(team_id_token(&TeamId::NoTeam), "NONE");
}

#[test]
fn marker_tokens_decode_exactly() {
    assert_eq!(map_marker_from_token("Major"), Some(MapMarkerType::Major));
    assert_eq!(map_marker_from_token("Minor"), Some(MapMarkerType::Minor));
    assert_eq!(map_marker_from_token("minor"), None);
    assert_eq!(map_marker_token(&MapMarkerType::Major), "Major");
}

#[test]
fn unknown_icon_tag_fails_map_decode() {
    let body = r#"{
        "regionId" : 1,
        "scorchedVictoryTowns" : 0,
        "mapItems" : [ { "teamId" : "NONE", "iconType" : 999, "x" : 0.5, "y" : 0.5, "flags" : 0 } ],
        "mapTextItems" : [],
        "lastUpdated" : 1,
        "version" : 1
      }"#;
    let r = map_data_from_fetch(Some((200, body.to_string())));
    assert_eq!(r.unwrap_err(), ApiError::DecodeError);
}

#[test]
fn wrong_case_team_fails_war_decode() {
    let body = r#"{
        "warId" : "w",
        "warNumber" : 1,
        "winner" : "wardens",
        "conquestStartTime" : 1,
        "conquestEndTime" : null,
        "resistanceStartTime" : null,
        "requiredVictoryTowns" : 32
      }"#;
    let j = parse_json(body).unwrap();
    assert_eq!(decode_war_data(&j).unwrap_err(), ApiError::DecodeError);
}

#[test]
fn missing_required_field_fails() {
    let body = r#"{
        "warNumber" : 1,
        "winner" : "NONE",
        "conquestStartTime" : 1,
        "conquestEndTime" : null,
        "resistanceStartTime" : null,
        "requiredVictoryTowns" : 32
      }"#;
    let j = parse_json(body).unwrap();
    assert_eq!(decode_war_data(&j).unwrap_err(), ApiError::DecodeError);
}

#[test]
fn wrong_field_type_fails() {
    let body = r#"{
        "warId" : "w",
        "warNumber" : "eighty-three",
        "winner" : "NONE",
        "conquestStartTime" : 1,
        "conquestEndTime" : null,
        "resistanceStartTime" : null,
        "requiredVictoryTowns" : 32
      }"#;
    let j = parse_json(body).unwrap();
    assert_eq!(decode_war_data(&j).unwrap_err(), ApiError::DecodeError);
}

#[test]
fn absent_optional_timestamps_read_unset() {
    let body = r#"{
        "warId" : "w",
        "warNumber" : 7,
        "winner" : "COLONIALS",
        "conquestStartTime" : 5,
        "requiredVictoryTowns" : 16
      }"#;
    let j = parse_json(body).unwrap();
    let w = decode_war_data(&j).unwrap();
    assert_eq!(w.conquest_end_time, None);
    assert_eq!(w.resistance_start_time, None);
    assert_eq!(w.winner, TeamId::Colonials);
}

#[test]
fn set_optional_timestamps_read_values() {
    let body = r#"{
        "warId" : "w",
        "warNumber" : 7,
        "winner" : "WARDENS",
        "conquestStartTime" : 5,
        "conquestEndTime" : 1632326703205,
        "resistanceStartTime" : 9,
        "requiredVictoryTowns" : 16
      }"#;
    let j = parse_json(body).unwrap();
    let w = decode_war_data(&j).unwrap();
    assert_eq!(w.conquest_end_time, Some(1632326703205));
    assert_eq!(w.resistance_start_time, Some(9));
}

#[test]
fn unknown_extra_fields_are_ignored() {
    let body = r#"{
        "warId" : "w",
        "warNumber" : 7,
        "winner" : "NONE",
        "conquestStartTime" : 5,
        "conquestEndTime" : null,
        "resistanceStartTime" : null,
        "requiredVictoryTowns" : 16,
        "somethingNew" : { "nested" : [1, 2, 3] }
      }"#;
    let j = parse_json(body).unwrap();
    let w = decode_war_data(&j).unwrap();
    assert_eq!(w.war_number, 7);
}

#[test]
fn empty_map_items_decode_to_empty_sequence() {
    let body = r#"{
        "regionId" : 3,
        "scorchedVictoryTowns" : 0,
        "mapItems" : [],
        "mapTextItems" : [],
        "lastUpdated" : 10,
        "version" : 2
      }"#;
    let d = map_data_from_fetch(Some((200, body.to_string()))).unwrap();
    assert_eq!(d.map_items.len(), 0);
    assert_eq!(d.map_text_items.len(), 0);
    assert_eq!(d.region_id, 3);
}

#[test]
fn map_data_round_trip_tree() {
    let j = parse_json(DYNAMIC_BODY).unwrap();
    let d = decode_map_data(&j).unwrap();
    let reencoded = encode_map_data(&d);
    let d2 = decode_map_data(&reencoded).unwrap();
    assert_eq!(d2, d);
}

#[test]
fn map_data_round_trip_text() {
    let d = map_data_from_fetch(Some((200, DYNAMIC_BODY.to_string()))).unwrap();
    let reencoded = encode_map_data(&d);
    let text = to_serde(&reencoded).to_string();
    let d2 = map_data_from_fetch(Some((200, text))).unwrap();
    assert_eq!(d2, d);
    assert_eq!(d2.map_items[0].x, "0.43503433");
}

#[test]
fn war_data_round_trip() {
    let body = r#"{
        "warId" : "1e82269a-d82b-4350-b1b1-06a98c983503",
        "warNumber" : 83,
        "winner" : "NONE",
        "conquestStartTime" : 1632326703205,
        "conquestEndTime" : null,
        "resistanceStartTime" : null,
        "requiredVictoryTowns" : 32
      }"#;
    let j = parse_json(body).unwrap();
    let w = decode_war_data(&j).unwrap();
    let reencoded = encode_war_data(&w);
    let w2 = decode_war_data(&reencoded).unwrap();
    assert_eq!(w2, w);
    let text = to_serde(&reencoded).to_string();
    let j2 = parse_json(&text).unwrap();
    let w3 = decode_war_data(&j2).unwrap();
    assert_eq!(w3, w);
}

#[test]
fn map_names_round_trip() {
    let body = r#"["TheFingersHex","GreatMarchHex","TempestIslandHex"]"#;
    let j = parse_json(body).unwrap();
    let m = decode_map_names(&j).unwrap();
    let reencoded = encode_map_names(&m);
    let m2 = decode_map_names(&reencoded).unwrap();
    assert_eq!(m2, m);
}

#[test]
fn duplicate_map_names_are_kept_in_order() {
    let j = parse_json(r#"["A","B","A"]"#).unwrap();
    let m = decode_map_names(&j).unwrap();
    assert_eq!(m.maps, vec!["A".to_string(), "B".to_string(), "A".to_string()]);
}

#[test]
fn decode_single_map_item() {
    let j = parse_json(
        r#"{ "teamId" : "WARDENS", "iconType" : 33, "x" : 0.5, "y" : 0.25, "flags" : 7 }"#,
    )
    .unwrap();
    let item = foxhole_api::decode::decode_map_item(&j).unwrap();
    assert_eq!(item.team_id, TeamId::Wardens);
    assert_eq!(item.icon_type, IconType::StorageFacility);
    assert_eq!(item.x, "0.5");
    assert_eq!(item.y, "0.25");
    assert_eq!(item.flags, 7);
}

#[test]
fn parse_uint_reads_digit_tokens() {
    assert_eq!(parse_uint("83", u32::MAX as u64), Some(83));
    assert_eq!(parse_uint("0", 255), Some(0));
    assert_eq!(parse_uint("1632326703205", u64::MAX), Some(1632326703205));
    assert_eq!(parse_uint("18446744073709551615", u64::MAX), Some(u64::MAX));
    assert_eq!(parse_uint("18446744073709551616", u64::MAX), None);
    assert_eq!(parse_uint("256", 255), None);
    assert_eq!(parse_uint("255", 255), Some(255));
    assert_eq!(parse_uint("8.3", u64::MAX), None);
    assert_eq!(parse_uint("-1", u64::MAX), None);
    assert_eq!(parse_uint("1e3", u64::MAX), None);
    assert_eq!(parse_uint("", u64::MAX), None);
}

#[test]
fn u64_to_dec_writes_digit_tokens() {
    assert_eq!(u64_to_dec(0), "0");
    assert_eq!(u64_to_dec(83), "83");
    assert_eq!(u64_to_dec(1635534670643), "1635534670643");
    assert_eq!(u64_to_dec(u64::MAX), "18446744073709551615");
}

#[test]
fn parsed_numbers_keep_their_tokens() {
    let j = parse_json(r#"{"x": 1234, "y": 0.25}"#).unwrap();
    match &j {
        JsonValue::Obj(fields) => {
            assert_eq!(fields.len(), 2);
            assert_eq!(fields[0].name, "x");
            assert!(matches!(&fields[0].value, JsonValue::Num(t) if t == "1234"));
            assert!(matches!(&fields[1].value, JsonValue::Num(t) if t == "0.25"));
        }
        _ => panic!("expected an object"),
    }
}

#[test]
fn malformed_json_fails_parse() {
    assert!(parse_json("{").is_none());
    assert!(parse_json("").is_none());
    assert!(parse_json("\"unterminated").is_none());
    assert!(parse_json("[1, 2,]").is_none());
}
