use avfallsor::pickup::LocalDateTime;
use avfallsor::pickup::Pickup;
use avfallsor::pickup::PickupType;

fn garbage_pickup(offset_seconds: i32) -> Pickup {
    let date = LocalDateTime {
        year: 2024,
        month: 3,
        day: 15,
        hour: 6,
        minute: 0,
        second: 0,
        offset_seconds,
    };
    Pickup::new(date, "Garbage".to_string(), PickupType::Garbage)
}

#[test]
fn category_tokens_map_to_their_categories() {
    assert_eq!(PickupType::from_str("residual"), Some(PickupType::Garbage));
    assert_eq!(PickupType::from_str("cardboard"), Some(PickupType::Paper));
    assert_eq!(PickupType::from_str("plastic"), Some(PickupType::Plastic));
    assert_eq!(PickupType::from_str("glass"), Some(PickupType::GlassMetal));
    assert_eq!(PickupType::from_str("bio"), Some(PickupType::FoodWaste));
}

#[test]
fn unrecognized_tokens_yield_no_match() {
    assert_eq!(PickupType::from_str(""), None);
    assert_eq!(PickupType::from_str("residua"), None);
    assert_eq!(PickupType::from_str("residuall"), None);
    assert_eq!(PickupType::from_str("Residual"), None);
    assert_eq!(PickupType::from_str("styrofoam"), None);
}

#[test]
fn identifier_and_topics_derive_from_category() {
    let p = garbage_pickup(3600);
    assert_eq!(p.identifier(), "avfallsor-garbage");
    assert_eq!(p.topic_prefix(), "homeassistant/sensor/avfallsor-garbage");
    assert_eq!(p.config_topic(), "homeassistant/sensor/avfallsor-garbage/config");
    assert_eq!(p.state_topic(), "homeassistant/sensor/avfallsor-garbage/state");
}

#[test]
fn identifier_ignores_date_and_label() {
    let a = garbage_pickup(3600);
    let date = LocalDateTime {
        year: 2031,
        month: 12,
        day: 1,
        hour: 23,
        minute: 59,
        second: 0,
        offset_seconds: -7200,
    };
    let b = Pickup::new(date, "another label".to_string(), PickupType::Garbage);
    assert_eq!(a.identifier(), b.identifier());
    assert_eq!(a.config_topic(), b.config_topic());
    assert_eq!(a.state_topic(), b.state_topic());
}

#[test]
fn every_category_has_a_distinct_identifier() {
    let kinds = [
        PickupType::Garbage,
        PickupType::Paper,
        PickupType::Plastic,
        PickupType::GlassMetal,
        PickupType::FoodWaste,
    ];
    let date = LocalDateTime {
        year: 2024,
        month: 3,
        day: 15,
        hour: 6,
        minute: 0,
        second: 0,
        offset_seconds: 0,
    };
    let mut ids: Vec<String> = kinds
        .iter()
        .map(|k| Pickup::new(date, format!("{:?}", k), *k).identifier())
        .collect();
    ids.sort();
    ids.dedup();
    assert_eq!(ids.len(), 5);
    assert!(ids.contains(&"avfallsor-glassmetal".to_string()));
    assert!(ids.contains(&"avfallsor-foodwaste".to_string()));
}

#[test]
fn state_message_is_offset_qualified_iso8601() {
    let p = garbage_pickup(3600);
    assert_eq!(p.homeassistant_state_message(), "2024-03-15T06:00:00+01:00");
    let q = garbage_pickup(-16200);
    assert_eq!(q.homeassistant_state_message(), "2024-03-15T06:00:00-04:30");
    let r = garbage_pickup(0);
    assert_eq!(r.homeassistant_state_message(), "2024-03-15T06:00:00+00:00");
}

#[test]
fn config_message_carries_the_sensor_metadata() {
    let p = garbage_pickup(3600);
    let m = p.homeassistant_config_message();
    assert_eq!(m.name, "Garbage");
    assert_eq!(m.device_class, "timestamp");
    assert_eq!(m.state_topic, "homeassistant/sensor/avfallsor-garbage/state");
    assert_eq!(m.unique_id, "avfallsor-garbage");
    assert_eq!(m.object_id, "avfallsor-garbage");
    assert_eq!(m.device.identifiers, vec!["avfallsor".to_string()]);
    assert_eq!(m.device.name, "Avfall S\u{f8}r");
}

#[test]
fn config_json_is_the_serialized_discovery_payload() {
    let p = garbage_pickup(3600);
    let expected = "{\"name\":\"Garbage\",\"device_class\":\"timestamp\",\"state_topic\":\"homeassistant/sensor/avfallsor-garbage/state\",\"unique_id\":\"avfallsor-garbage\",\"object_id\":\"avfallsor-garbage\",\"device\":{\"identifiers\":[\"avfallsor\"],\"name\":\"Avfall S\u{f8}r\"}}";
    assert_eq!(p.homeassistant_config_json(), expected);
}

#[test]
fn config_json_escapes_the_label() {
    let date = LocalDateTime {
        year: 2024,
        month: 3,
        day: 15,
        hour: 6,
        minute: 0,
        second: 0,
        offset_seconds: 0,
    };
    let p = Pickup::new(date, "a\"b\\c\nd".to_string(), PickupType::Paper);
    let json = p.homeassistant_config_json();
    assert!(json.starts_with("{\"name\":\"a\\\"b\\\\c\\nd\","));

    let q = Pickup::new(date, "a\u{1}b\r\tc".to_string(), PickupType::Paper);
    let json = q.homeassistant_config_json();
    assert!(json.starts_with("{\"name\":\"a\\u0001b\\r\\tc\","));
}
