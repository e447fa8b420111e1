use pc_mqtt_rs::client::relay::{
    CRUISE_VELOCITY, EMERGENCY_ACCELERATION, INITIAL_SPEED, STOP_ACCELERATION,
    ZONE_ENTRY_ACCELERATION, ZONE_EXIT_ACCELERATION, ZONE_VELOCITY,
};
use pc_mqtt_rs::{Command, Message, Payload, Relay, Topic};

fn strings(items: &[&str]) -> Vec<String> {
    items.iter().map(|s| s.to_string()).collect()
}

fn speed_to(vehicle: &str, velocity: i16, acceleration: u16) -> Message {
    Message {
        topic: format!("Anki/Vehicles/U/{}/I", vehicle),
        payload: format!(
            r#"{{"type":"speed","payload":{{"velocity": {},"acceleration": {}}}}}"#,
            velocity, acceleration
        )
        .into_bytes(),
    }
}

fn pending(vehicle: &str) -> String {
    format!("GroupG/Relay/Anki/Vehicles/U/{}/I", vehicle)
}

#[test]
fn constants_of_the_deployment() {
    assert_eq!(CRUISE_VELOCITY, 200);
    assert_eq!(ZONE_VELOCITY, 200);
    assert_eq!(EMERGENCY_ACCELERATION, 1000);
    assert_eq!(STOP_ACCELERATION, 2000);
    assert_eq!(ZONE_ENTRY_ACCELERATION, 1000);
    assert_eq!(ZONE_EXIT_ACCELERATION, 500);
    assert_eq!(INITIAL_SPEED, 0);
}

#[test]
fn new_relay_is_calm() {
    let relay = Relay::new(&strings(&["A", "B"]));
    assert_eq!(relay.vehicle_list(), &strings(&["A", "B"]));
    assert!(!relay.emergency());
    assert!(relay.inside_slow_zone().is_empty());
    assert_eq!(relay.last_speed(), 0);
}

#[test]
fn relay_subscriptions() {
    assert_eq!(
        Relay::subscriptions(),
        strings(&["GroupG/Relay/#", "GroupG/Emergency/I", "GroupG/Zone/I"])
    );
}

#[test]
fn emergency_stops_every_vehicle() {
    let mut relay = Relay::new(&strings(&["A", "B", "C"]));
    let out = relay.on_emergency(true);
    assert!(relay.emergency());
    assert_eq!(
        out,
        vec![speed_to("A", 0, 1000), speed_to("B", 0, 1000), speed_to("C", 0, 1000)]
    );
}

#[test]
fn emergency_release_returns_to_cruise() {
    let mut relay = Relay::new(&strings(&["A", "B"]));
    relay.on_emergency(true);
    let out = relay.on_emergency(false);
    assert!(!relay.emergency());
    assert_eq!(out, vec![speed_to("A", 200, 1000), speed_to("B", 200, 1000)]);
}

#[test]
fn emergency_reaches_each_vehicle_once() {
    let vehicles = strings(&["A", "B", "C", "D"]);
    let mut relay = Relay::new(&vehicles);
    let out = relay.on_emergency(true);
    for vehicle in &vehicles {
        let address = Topic::VehicleI(vehicle).get();
        let hits: Vec<&Message> = out.iter().filter(|m| m.topic == address).collect();
        assert_eq!(hits.len(), 1);
        assert_eq!(hits[0].payload, Payload::Speed(0, 1000).get().into_bytes());
    }
}

#[test]
fn emergency_without_vehicles_publishes_nothing() {
    let mut relay = Relay::new(&[]);
    assert_eq!(relay.on_emergency(true), Vec::new());
    assert!(relay.emergency());
}

#[test]
fn repeated_emergency_is_broadcast_again() {
    let mut relay = Relay::new(&strings(&["A", "B"]));
    let first = relay.on_emergency(true);
    let second = relay.on_emergency(true);
    assert_eq!(first, second);
    assert_eq!(second.len(), 2);
    assert!(relay.emergency());
    let third = relay.on_emergency(false);
    let fourth = relay.on_emergency(false);
    assert_eq!(third, fourth);
    assert_eq!(fourth, vec![speed_to("A", 200, 1000), speed_to("B", 200, 1000)]);
}

#[test]
fn emergency_leaves_zone_and_speed_alone() {
    let mut relay = Relay::new(&strings(&["A"]));
    relay.on_zone(strings(&["A"]));
    relay.on_command(&pending("A"), b"{}", Command::Speed(321));
    relay.on_emergency(true);
    assert_eq!(relay.inside_slow_zone(), &strings(&["A"]));
    assert_eq!(relay.last_speed(), 321);
    assert_eq!(relay.vehicle_list(), &strings(&["A"]));
}

#[test]
fn zone_update_slows_every_member() {
    let mut relay = Relay::new(&strings(&["A", "B"]));
    let out = relay.on_zone(strings(&["B", "A"]));
    assert_eq!(relay.inside_slow_zone(), &strings(&["B", "A"]));
    assert_eq!(out, vec![speed_to("B", 200, 1000), speed_to("A", 200, 1000)]);
}

#[test]
fn zone_update_slows_members_again() {
    let mut relay = Relay::new(&strings(&["A", "B"]));
    relay.on_zone(strings(&["A"]));
    let out = relay.on_zone(strings(&["A", "B"]));
    assert_eq!(out, vec![speed_to("A", 200, 1000), speed_to("B", 200, 1000)]);
    let again = relay.on_zone(strings(&["A", "B"]));
    assert_eq!(again, out);
}

#[test]
fn zone_update_restores_those_who_left() {
    let mut relay = Relay::new(&strings(&["A", "B", "C"]));
    relay.on_command(&pending("A"), b"ignored", Command::Speed(450));
    relay.on_zone(strings(&["A", "B", "C"]));
    let out = relay.on_zone(strings(&["B"]));
    assert_eq!(relay.inside_slow_zone(), &strings(&["B"]));
    assert_eq!(
        out,
        vec![speed_to("A", 450, 500), speed_to("C", 450, 500), speed_to("B", 200, 1000)]
    );
}

#[test]
fn zone_update_restores_to_initial_speed_before_any_speed_command() {
    let mut relay = Relay::new(&strings(&["A"]));
    relay.on_zone(strings(&["A"]));
    assert_eq!(relay.on_zone(Vec::new()), vec![speed_to("A", 0, 500)]);
    assert!(relay.inside_slow_zone().is_empty());
}

#[test]
fn zone_update_replaces_membership_wholesale() {
    let mut relay = Relay::new(&strings(&["A", "B"]));
    relay.on_zone(strings(&["A"]));
    relay.on_zone(strings(&["B"]));
    assert_eq!(relay.inside_slow_zone(), &strings(&["B"]));
    relay.on_zone(strings(&["X", "X"]));
    assert_eq!(relay.inside_slow_zone(), &strings(&["X", "X"]));
}

#[test]
fn zone_update_leaves_flag_and_speed_alone() {
    let mut relay = Relay::new(&strings(&["A"]));
    relay.on_emergency(true);
    relay.on_command(&pending("A"), b"x", Command::Speed(77));
    relay.on_zone(strings(&["A"]));
    assert!(relay.emergency());
    assert_eq!(relay.last_speed(), 77);
}

#[test]
fn command_without_prefix_is_discarded() {
    let mut relay = Relay::new(&strings(&["A"]));
    for address in [
        "Anki/Vehicles/U/A/I",
        "",
        "GroupG/Relay",
        "x/GroupG/Relay/Anki/Vehicles/U/A/I",
        "groupg/relay/Anki/Vehicles/U/A/I",
    ] {
        assert_eq!(relay.on_command(address, b"{}", Command::Speed(500)), None);
        assert_eq!(relay.on_command(address, b"{}", Command::Other), None);
    }
    assert_eq!(relay.last_speed(), 0);
}

#[test]
fn command_without_vehicle_segment_is_discarded() {
    let mut relay = Relay::new(&strings(&["A"]));
    assert_eq!(relay.on_command("GroupG/Relay/Anki/Vehicles/U", b"{}", Command::Speed(9)), None);
    assert_eq!(relay.on_command("GroupG/Relay/", b"{}", Command::Speed(9)), None);
    assert_eq!(relay.on_command("GroupG/Relay/#", b"{}", Command::Other), None);
    assert_eq!(relay.last_speed(), 0);
}

#[test]
fn speed_command_passes_when_nothing_overrides() {
    let mut relay = Relay::new(&strings(&["A", "B"]));
    relay.on_zone(strings(&["B"]));
    let payload = br#"{"type":"speed","payload":{"velocity":300,"acceleration":500}, "note":"kept" }"#;
    let out = relay.on_command(&pending("A"), payload, Command::Speed(300));
    assert_eq!(
        out,
        Some(Message { topic: String::from("Anki/Vehicles/U/A/I"), payload: payload.to_vec() })
    );
    assert_eq!(relay.last_speed(), 300);
}

#[test]
fn speed_command_is_stopped_during_emergency() {
    let mut relay = Relay::new(&strings(&["A"]));
    relay.on_emergency(true);
    for velocity in [-32768i16, -5, 0, 1, 200, 900, 32767] {
        let payload = Payload::Speed(velocity, 500).get();
        let out = relay.on_command(&pending("A"), payload.as_bytes(), Command::Speed(velocity));
        assert_eq!(out, Some(speed_to("A", 0, 2000)));
        assert_eq!(relay.last_speed(), velocity);
    }
}

#[test]
fn speed_command_is_slowed_inside_the_zone() {
    let mut relay = Relay::new(&strings(&["A", "B"]));
    relay.on_zone(strings(&["A"]));
    let payload = Payload::Speed(700, 500).get();
    let out = relay.on_command(&pending("A"), payload.as_bytes(), Command::Speed(700));
    assert_eq!(out, Some(speed_to("A", 200, 1000)));
    assert_eq!(relay.last_speed(), 700);
}

#[test]
fn emergency_comes_before_the_zone() {
    let mut relay = Relay::new(&strings(&["A"]));
    relay.on_zone(strings(&["A"]));
    relay.on_emergency(true);
    let out = relay.on_command(&pending("A"), b"{}", Command::Speed(700));
    assert_eq!(out, Some(speed_to("A", 0, 2000)));
}

#[test]
fn other_command_passes_byte_for_byte() {
    let mut relay = Relay::new(&strings(&["A"]));
    relay.on_zone(strings(&["A"]));
    relay.on_emergency(true);
    let payload: Vec<u8> = vec![b'{', b' ', 0xc3, 0xa9, b'\n', b'}', 0x00, 0xff];
    let out = relay.on_command(&pending("A"), &payload, Command::Other);
    assert_eq!(
        out,
        Some(Message { topic: String::from("Anki/Vehicles/U/A/I"), payload: payload.clone() })
    );
    assert_eq!(relay.last_speed(), 0);
    assert!(relay.emergency());
    assert_eq!(relay.inside_slow_zone(), &strings(&["A"]));
}

#[test]
fn command_goes_to_what_follows_the_prefix() {
    let mut relay = Relay::new(&strings(&["A"]));
    let out = relay.on_command("GroupG/Relay/Some/Other/Place/A/and/more", b"p", Command::Other);
    assert_eq!(
        out,
        Some(Message { topic: String::from("Some/Other/Place/A/and/more"), payload: vec![b'p'] })
    );
}

#[test]
fn command_for_unlisted_vehicle_is_relayed() {
    let mut relay = Relay::new(&strings(&["A"]));
    let out = relay.on_command(&pending("Z"), b"p", Command::Other);
    assert_eq!(
        out,
        Some(Message { topic: String::from("Anki/Vehicles/U/Z/I"), payload: vec![b'p'] })
    );
}

#[test]
fn handle_emergency_message() {
    let mut relay = Relay::new(&strings(&["A", "B"]));
    let out = relay.handle("GroupG/Emergency/I", Payload::Emergency(true).get().as_bytes());
    assert!(relay.emergency());
    assert_eq!(out, vec![speed_to("A", 0, 1000), speed_to("B", 0, 1000)]);
    let out = relay.handle("GroupG/Emergency/I", Payload::Emergency(false).get().as_bytes());
    assert!(!relay.emergency());
    assert_eq!(out, vec![speed_to("A", 200, 1000), speed_to("B", 200, 1000)]);
}

#[test]
fn handle_skips_malformed_emergency() {
    let mut relay = Relay::new(&strings(&["A"]));
    relay.on_emergency(true);
    for payload in [
        &b"nonsense"[..],
        &br#"{"payload":{"value":"false"}}"#[..],
        &br#"{"payload":{}}"#[..],
        &br#"{"type":"emergency"}"#[..],
        &b""[..],
    ] {
        assert_eq!(relay.handle("GroupG/Emergency/I", payload), Vec::new());
        assert!(relay.emergency());
    }
}

#[test]
fn handle_zone_message() {
    let mut relay = Relay::new(&strings(&["A", "B"]));
    let members = strings(&["A"]);
    let out = relay.handle("GroupG/Zone/I", Payload::Zone200(&members).get().as_bytes());
    assert_eq!(relay.inside_slow_zone(), &members);
    assert_eq!(out, vec![speed_to("A", 200, 1000)]);
    let out = relay.handle("GroupG/Zone/I", Payload::Zone200(&Vec::new()).get().as_bytes());
    assert!(relay.inside_slow_zone().is_empty());
    assert_eq!(out, vec![speed_to("A", 0, 500)]);
}

#[test]
fn handle_skips_malformed_zone() {
    let mut relay = Relay::new(&strings(&["A"]));
    relay.on_zone(strings(&["A"]));
    for payload in [
        &b"]"[..],
        &br#"{"payload":{"value":"A"}}"#[..],
        &br#"{"payload":{"value":["B", 3]}}"#[..],
        &br#"{"payload":{"members":["B"]}}"#[..],
    ] {
        assert_eq!(relay.handle("GroupG/Zone/I", payload), Vec::new());
        assert_eq!(relay.inside_slow_zone(), &strings(&["A"]));
    }
}

#[test]
fn handle_relays_pending_commands() {
    let mut relay = Relay::new(&strings(&["A"]));
    let speed = Payload::Speed(350, 500).get();
    let out = relay.handle(&pending("A"), speed.as_bytes());
    assert_eq!(
        out,
        vec![Message { topic: String::from("Anki/Vehicles/U/A/I"), payload: speed.into_bytes() }]
    );
    assert_eq!(relay.last_speed(), 350);

    let lights = Payload::Lights(true, true).get();
    let out = relay.handle(&pending("A"), lights.as_bytes());
    assert_eq!(
        out,
        vec![Message { topic: String::from("Anki/Vehicles/U/A/I"), payload: lights.into_bytes() }]
    );
    assert_eq!(relay.last_speed(), 350);
}

#[test]
fn handle_replaces_speed_during_emergency() {
    let mut relay = Relay::new(&strings(&["A"]));
    relay.handle("GroupG/Emergency/I", Payload::Emergency(true).get().as_bytes());
    let out = relay.handle(&pending("A"), Payload::Speed(640, 500).get().as_bytes());
    assert_eq!(out, vec![speed_to("A", 0, 2000)]);
    assert_eq!(relay.last_speed(), 640);

    let lane = Payload::Lane(-30, 200, 500).get();
    let out = relay.handle(&pending("A"), lane.as_bytes());
    assert_eq!(
        out,
        vec![Message { topic: String::from("Anki/Vehicles/U/A/I"), payload: lane.into_bytes() }]
    );
}

#[test]
fn handle_discards_what_is_not_prefixed() {
    let mut relay = Relay::new(&strings(&["A"]));
    let speed = Payload::Speed(350, 500).get();
    for topic in [
        "Anki/Vehicles/U/A/I",
        "Anki/Vehicles/U/A/E/track",
        "GroupG/Emergency",
        "GroupG/Zone/I/x",
        "",
    ] {
        assert_eq!(relay.handle(topic, speed.as_bytes()), Vec::new());
    }
    assert_eq!(relay.last_speed(), 0);
    assert!(!relay.emergency());
}

#[test]
fn handle_skips_pending_commands_that_cannot_be_decoded() {
    let mut relay = Relay::new(&strings(&["A"]));
    for payload in [
        &b"not json"[..],
        &br#"{"payload":{"velocity":5}}"#[..],
        &br#"{"type":"speed","payload":{}}"#[..],
        &br#"{"type":"speed","payload":{"velocity":40000}}"#[..],
        &br#"{"type":7}"#[..],
    ] {
        assert_eq!(relay.handle(&pending("A"), payload), Vec::new());
    }
    assert_eq!(relay.last_speed(), 0);
    let out = relay.handle(&pending("A"), Payload::Connect(true).get().as_bytes());
    assert_eq!(out.len(), 1);
}

#[test]
fn handle_keeps_going_after_a_bad_message() {
    let mut relay = Relay::new(&strings(&["A"]));
    assert_eq!(relay.handle("GroupG/Relay/short", b"{"), Vec::new());
    assert_eq!(
        relay.handle("GroupG/Relay/short", Payload::Speed(1, 1).get().as_bytes()),
        Vec::new()
    );
    assert_eq!(relay.last_speed(), 0);
    let out = relay.handle("GroupG/Emergency/I", Payload::Emergency(true).get().as_bytes());
    assert_eq!(out, vec![speed_to("A", 0, 1000)]);
}
