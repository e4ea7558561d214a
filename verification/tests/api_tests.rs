use foxhole_api::client::{
    map_data_dynamic_path, map_data_from_fetch, map_data_static_path, map_names_from_fetch,
    map_names_path, request_url, shard_base_url, war_data_from_fetch, war_data_path,
};
use foxhole_api::response_types::{IconType, MapMarkerType, MapNameResponse, TeamId,
    WarDataResponse};
use foxhole_api::{ApiError, Shard};

#[test]
fn test_war_data() {
    let war_data_string = r#"{
            "warId" : "1e82269a-d82b-4350-b1b1-06a98c983503",
            "warNumber" : 83,
            "winner" : "NONE",
            "conquestStartTime" : 1632326703205,
            "conquestEndTime" : null,
            "resistanceStartTime" : null,
            "requiredVictoryTowns" : 32
        }"#;

    let expected_response = WarDataResponse {
        war_id: "1e82269a-d82b-4350-b1b1-06a98c983503".to_string(),
        war_number: 83,
        winner: TeamId::NoTeam,
        conquest_start_time: 1632326703205,
        conquest_end_time: None,
        resistance_start_time: None,
        required_victory_towns: 32,
    };

    let response = war_data_from_fetch(Some((200, war_data_string.to_string()))).unwrap();
    assert_eq!(expected_response, response);
}

#[test]
fn test_map_name() {
    let map_name_string = r#"[
            "TheFingersHex",
            "GreatMarchHex",
            "TempestIslandHex"
          ]"#;

    let maps = vec![
        "TheFingersHex".to_string(),
        "GreatMarchHex".to_string(),
        "TempestIslandHex".to_string(),
    ];
    let expected_response = MapNameResponse { maps };

    let response = map_names_from_fetch(Some((200, map_name_string.to_string()))).unwrap();
    assert_eq!(expected_response, response);
}

#[test]
fn test_map_data_static() {
    let map_data_string = r#"{
            "regionId": 38,
            "scorchedVictoryTowns": 0,
            "mapItems": [],
            "mapTextItems": [
              {
                "text": "Captain's Dread",
                "x": 0.8643478,
                "y": 0.4387644,
                "mapMarkerType": "Minor"
              },
              {
                "text": "Cavitatis",
                "x": 0.43523252,
                "y": 0.6119927,
                "mapMarkerType": "Minor"
              }
            ],
            "lastUpdated": 1635388391413,
            "version": 3
          }"#;

    let response = map_data_from_fetch(Some((200, map_data_string.to_string()))).unwrap();
    assert_eq!(response.region_id, 38);
    assert_eq!(response.scorched_victory_towns, 0);
    assert_eq!(response.map_items.len(), 0);
    assert_eq!(response.last_updated, 1635388391413);
    assert_eq!(response.version, 3);
    assert_eq!(response.map_text_items.len(), 2);
    let first = &response.map_text_items[0];
    assert_eq!(first.text, "Captain's Dread");
    assert_eq!(first.x.parse::<f32>().unwrap(), 0.8643478);
    assert_eq!(first.y.parse::<f32>().unwrap(), 0.4387644);
    assert_eq!(first.map_marker_type, MapMarkerType::Minor);
    let second = &response.map_text_items[1];
    assert_eq!(second.text, "Cavitatis");
    assert_eq!(second.x.parse::<f32>().unwrap(), 0.43523252);
    assert_eq!(second.y.parse::<f32>().unwrap(), 0.6119927);
    assert_eq!(second.map_marker_type, MapMarkerType::Minor);
}

#[test]
fn test_map_data_dynamic() {
    let map_data_string = r#"{
            "regionId" : 38,
            "scorchedVictoryTowns" : 0,
            "mapItems" : [ {
              "teamId" : "NONE",
              "iconType" : 20,
              "x" : 0.43503433,
              "y" : 0.83201146,
              "flags" : 0
            }, {
              "teamId" : "COLONIALS",
              "iconType" : 20,
              "x" : 0.83840775,
              "y" : 0.45411408,
              "flags" : 0
            }, {
              "teamId" : "WARDENS",
              "iconType" : 20,
              "x" : 0.83840775,
              "y" : 0.45411408,
                "flags" : 0
            } ],
            "mapTextItems" : [ ],
            "lastUpdated" : 1635534670643,
            "version" : 5
          }"#;

    let response = map_data_from_fetch(Some((200, map_data_string.to_string()))).unwrap();
    assert_eq!(response.region_id, 38);
    assert_eq!(response.scorched_victory_towns, 0);
    assert_eq!(response.map_text_items.len(), 0);
    assert_eq!(response.last_updated, 1635534670643);
    assert_eq!(response.version, 5);
    assert_eq!(response.map_items.len(), 3);
    let teams = [TeamId::NoTeam, TeamId::Colonials, TeamId::Wardens];
    let coords = [(0.43503433f32, 0.83201146f32), (0.83840775, 0.45411408), (0.83840775, 0.45411408)];
    for (i, item) in response.map_items.iter().enumerate() {
        assert_eq!(item.team_id, teams[i]);
        assert_eq!(item.icon_type, IconType::SalvageField);
        assert_eq!(item.x.parse::<f32>().unwrap(), coords[i].0);
        assert_eq!(item.y.parse::<f32>().unwrap(), coords[i].1);
        assert_eq!(item.flags, 0);
    }
}

#[test]
fn connection_failure_is_transport_error() {
    assert_eq!(war_data_from_fetch(None), Err(ApiError::TransportError));
    assert_eq!(map_names_from_fetch(None).unwrap_err(), ApiError::TransportError);
    assert_eq!(map_data_from_fetch(None).unwrap_err(), ApiError::TransportError);
}

#[test]
fn non_success_status_is_transport_error() {
    let valid_war_body = r#"{
            "warId" : "1e82269a-d82b-4350-b1b1-06a98c983503",
            "warNumber" : 83,
            "winner" : "NONE",
            "conquestStartTime" : 1632326703205,
            "conquestEndTime" : null,
            "resistanceStartTime" : null,
            "requiredVictoryTowns" : 32
        }"#;
    let r = war_data_from_fetch(Some((404, valid_war_body.to_string())));
    assert_eq!(r, Err(ApiError::TransportError));
    let r = war_data_from_fetch(Some((500, valid_war_body.to_string())));
    assert_eq!(r, Err(ApiError::TransportError));
    let r = map_names_from_fetch(Some((503, "[]".to_string())));
    assert_eq!(r.unwrap_err(), ApiError::TransportError);
    let r = map_data_from_fetch(Some((301, "{}".to_string())));
    assert_eq!(r.unwrap_err(), ApiError::TransportError);
}

#[test]
fn malformed_body_is_decode_error() {
    let r = war_data_from_fetch(Some((200, "not json at all".to_string())));
    assert_eq!(r, Err(ApiError::DecodeError));
    let r = map_names_from_fetch(Some((200, "{\"oops\":".to_string())));
    assert_eq!(r.unwrap_err(), ApiError::DecodeError);
    let r = map_data_from_fetch(Some((200, "".to_string())));
    assert_eq!(r.unwrap_err(), ApiError::DecodeError);
}

#[test]
fn shard_urls() {
    assert_eq!(
        shard_base_url(&Shard::Live1),
        "https://war-service-live.foxholeservices.com/api"
    );
    assert_eq!(
        shard_base_url(&Shard::Live2),
        "https://war-service-live-2.foxholeservices.com/api"
    );
}

#[test]
fn endpoint_paths() {
    assert_eq!(war_data_path(), "/worldconquest/war");
    assert_eq!(map_names_path(), "/worldconquest/maps");
    let map_string = "TheFingersHex".to_string();
    assert_eq!(
        map_data_static_path(&map_string),
        format!("/worldconquest/maps/{}/static", map_string)
    );
    assert_eq!(
        map_data_dynamic_path(&map_string),
        format!("/worldconquest/maps/{}/dynamic/public", map_string)
    );
    assert_eq!(
        request_url(&Shard::Live1, &war_data_path()),
        "https://war-service-live.foxholeservices.com/api/worldconquest/war"
    );
}
