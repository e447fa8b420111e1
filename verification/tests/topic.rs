use pc_mqtt_rs::library::topic::{relayed_address, segment_of};
use pc_mqtt_rs::Topic;

#[test]
fn vehicle_command_address() {
    assert_eq!(Topic::VehicleI("test").get(), String::from("Anki/Vehicles/U/test/I"));
}

#[test]
fn host_addresses() {
    assert_eq!(Topic::HostI.get(), "Anki/Hosts/U/hyperdrive/I");
    assert_eq!(Topic::HostS("vehicles").get(), "Anki/Hosts/U/hyperdrive/S/vehicles");
}

#[test]
fn vehicle_status_and_event_addresses() {
    assert_eq!(Topic::VehicleS("f2e85f2f5770").get(), "Anki/Vehicles/U/f2e85f2f5770/S");
    assert_eq!(
        Topic::VehicleE("f2e85f2f5770", "track").get(),
        "Anki/Vehicles/U/f2e85f2f5770/E/track"
    );
    assert_eq!(Topic::SpeedE("f2e85f2f5770").get(), "Anki/Vehicles/U/f2e85f2f5770/E/speed");
}

#[test]
fn group_addresses() {
    assert_eq!(Topic::Emergency.get(), "GroupG/Emergency/I");
    assert_eq!(Topic::Zone.get(), "GroupG/Zone/I");
    assert_eq!(Topic::Relay("#").get(), "GroupG/Relay/#");
    assert_eq!(Topic::Relay("").get(), "GroupG/Relay/");
}

#[test]
fn relay_wraps_any_address() {
    let direct = Topic::VehicleI("abc").get();
    assert_eq!(Topic::Relay(&direct).get(), "GroupG/Relay/Anki/Vehicles/U/abc/I");
}

#[test]
fn addresses_keep_text_that_is_not_ascii() {
    assert_eq!(Topic::VehicleI("wägen-é").get(), "Anki/Vehicles/U/wägen-é/I");
    assert_eq!(segment_of("Anki/Vehicles/U/wägen-é/I", 3), Some(String::from("wägen-é")));
}

#[test]
fn segment_counts_from_zero() {
    assert_eq!(segment_of("Anki/Vehicles/U/abc/I", 0), Some(String::from("Anki")));
    assert_eq!(segment_of("Anki/Vehicles/U/abc/I", 1), Some(String::from("Vehicles")));
    assert_eq!(segment_of("Anki/Vehicles/U/abc/I", 2), Some(String::from("U")));
    assert_eq!(segment_of("Anki/Vehicles/U/abc/I", 3), Some(String::from("abc")));
    assert_eq!(segment_of("Anki/Vehicles/U/abc/I", 4), Some(String::from("I")));
    assert_eq!(segment_of("Anki/Vehicles/U/abc/I", 5), None);
}

#[test]
fn segment_missing_in_short_address() {
    assert_eq!(segment_of("Anki/Vehicles/U", 3), None);
    assert_eq!(segment_of("", 1), None);
    assert_eq!(segment_of("no-slash", 3), None);
}

#[test]
fn segment_may_be_empty() {
    assert_eq!(segment_of("", 0), Some(String::new()));
    assert_eq!(segment_of("a//b", 1), Some(String::new()));
    assert_eq!(segment_of("a/b/c/", 3), Some(String::new()));
    assert_eq!(segment_of("/a", 0), Some(String::new()));
    assert_eq!(segment_of("/a", 1), Some(String::from("a")));
}

#[test]
fn segment_of_vehicle_addresses_is_the_vehicle() {
    assert_eq!(segment_of(&Topic::VehicleI("v1").get(), 3), Some(String::from("v1")));
    assert_eq!(segment_of(&Topic::VehicleS("v1").get(), 3), Some(String::from("v1")));
    assert_eq!(segment_of(&Topic::VehicleE("v1", "track").get(), 3), Some(String::from("v1")));
    assert_eq!(segment_of(&Topic::SpeedE("v1").get(), 3), Some(String::from("v1")));
}

#[test]
fn relayed_address_takes_the_prefix_off() {
    assert_eq!(
        relayed_address("GroupG/Relay/Anki/Vehicles/U/abc/I"),
        Some(String::from("Anki/Vehicles/U/abc/I"))
    );
    assert_eq!(relayed_address("GroupG/Relay/"), Some(String::new()));
    assert_eq!(relayed_address(&Topic::Relay("x/y").get()), Some(String::from("x/y")));
}

#[test]
fn relayed_address_needs_the_prefix_at_the_start() {
    assert_eq!(relayed_address("Anki/Vehicles/U/abc/I"), None);
    assert_eq!(relayed_address("GroupG/Relay"), None);
    assert_eq!(relayed_address(""), None);
    assert_eq!(relayed_address("groupg/relay/Anki/Vehicles/U/abc/I"), None);
    assert_eq!(relayed_address("x/GroupG/Relay/Anki/Vehicles/U/abc/I"), None);
    assert_eq!(relayed_address("GroupG/Emergency/I"), None);
    assert_eq!(relayed_address("GroupG/Zone/I"), None);
}
