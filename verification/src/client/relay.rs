//! The relay: the one place that decides what is sent to a vehicle.
//!
//! Every command for a vehicle is published under the relay prefix first. The
//! relay takes the prefix off and passes the command on, unless the emergency
//! stop or a slow zone says otherwise: then a speed command is replaced. It
//! also tells the vehicles at once when the emergency flag or the zone
//! membership changes.
use vstd::prelude::*;
use vstd::slice::slice_to_vec;
use vstd::utf8::encode_utf8;
use crate::library::message::{speed_message, speed_messages, text_message, Message, MessageView};
use crate::library::payload::{
    command_of,
    decode_command,
    decode_flag,
    decode_members,
    flag_of,
    members_of,
    speed_text,
    Command,
    Payload,
};
use crate::library::json::json_parse;
use crate::library::text::{
    bytes_of,
    contains_text,
    copy_texts,
    lemma_without_contains,
    same_text,
    texts_without,
    without,
};
use crate::library::topic::{
    lemma_control_addresses_are_not_relayed,
    lemma_relay_prefix_comes_off,
    lemma_vehicle_address_names_one_vehicle,
    lemma_vehicle_addresses_name_the_vehicle,
    relayed,
    relayed_address,
    segment,
    segment_of,
    Topic,
    TopicView,
};

verus! {

/// The velocity that the vehicles return to when the emergency stop is
/// released.
pub const CRUISE_VELOCITY: i16 = 200;

/// The velocity of a vehicle inside the slow zone.
pub const ZONE_VELOCITY: i16 = 200;

/// The acceleration of the speed command that every vehicle gets when the
/// emergency flag is set or released.
pub const EMERGENCY_ACCELERATION: u16 = 1000;

/// The acceleration of the stop that replaces a relayed speed command while
/// the emergency flag is set.
pub const STOP_ACCELERATION: u16 = 2000;

/// The acceleration of the slow-down of a vehicle inside the slow zone.
pub const ZONE_ENTRY_ACCELERATION: u16 = 1000;

/// The acceleration with which a vehicle that left the slow zone returns to
/// the last relayed speed.
pub const ZONE_EXIT_ACCELERATION: u16 = 500;

/// The last relayed speed before any speed command has been relayed.
pub const INITIAL_SPEED: i16 = 0;

/// The state of the relay.
///
/// Everything but the list of vehicles changes with the messages that arrive.
pub struct Relay {
    vehicle_list: Vec<String>,
    emergency: bool,
    inside_slow_zone: Vec<String>,
    last_speed: i16,
}

/// The state of a [`Relay`], as plain values.
pub struct RelayView {
    /// The vehicles that the relay knows, in the order given.
    pub vehicles: Seq<Seq<char>>,
    /// Whether the emergency stop is active.
    pub emergency: bool,
    /// The vehicles inside the slow zone, as the last zone update listed them.
    pub slow_zone: Seq<Seq<char>>,
    /// The velocity of the last speed command that was relayed.
    pub last_speed: i16,
}

/// What one message does to the relay: its next state and the messages it
/// publishes, in order.
pub struct RelayStep {
    pub state: RelayView,
    pub messages: Seq<MessageView>,
}

impl RelayView {
    /// A message that changes nothing and publishes nothing.
    pub open spec fn skip(self) -> RelayStep {
        RelayStep { state: self, messages: Seq::empty() }
    }

    /// An emergency update: the flag is taken over, and every known vehicle
    /// is told to stop, or to return to the cruise velocity.
    pub open spec fn on_emergency(self, active: bool) -> RelayStep {
        let velocity = if active {
            0i16
        } else {
            CRUISE_VELOCITY
        };
        RelayStep {
            state: RelayView { emergency: active, ..self },
            messages: speed_messages(self.vehicles, velocity, EMERGENCY_ACCELERATION),
        }
    }

    /// The vehicles that a zone update releases: the members so far that
    /// `members` no longer lists, in their order.
    pub open spec fn released(self, members: Seq<Seq<char>>) -> Seq<Seq<char>> {
        without(self.slow_zone, members)
    }

    /// A zone update: the membership is replaced. First every released
    /// vehicle is sent back to the last relayed speed, then every member is
    /// told to slow down, whether it was a member before or not.
    pub open spec fn on_zone(self, members: Seq<Seq<char>>) -> RelayStep {
        let released = self.released(members);
        RelayStep {
            state: RelayView { slow_zone: members, ..self },
            messages: speed_messages(released, self.last_speed, ZONE_EXIT_ACCELERATION)
                + speed_messages(members, ZONE_VELOCITY, ZONE_ENTRY_ACCELERATION),
        }
    }

    /// The bytes that are sent on for a pending command to `vehicle`: a stop
    /// for a speed command during an emergency, else the zone velocity for a
    /// speed command to a vehicle inside the slow zone, else the bytes that
    /// arrived.
    pub open spec fn outbound(self, vehicle: Seq<char>, payload: Seq<u8>, command: Command) -> Seq<
        u8,
    > {
        match command {
            Command::Speed(_) => if self.emergency {
                encode_utf8(speed_text(0, STOP_ACCELERATION))
            } else if self.slow_zone.contains(vehicle) {
                encode_utf8(speed_text(ZONE_VELOCITY, ZONE_ENTRY_ACCELERATION))
            } else {
                payload
            },
            Command::Other => payload,
        }
    }

    /// What is published for a pending command: `address` has to begin with
    /// the relay prefix, and what follows the prefix has to name the vehicle
    /// in its fourth segment. The command is then published to what follows
    /// the prefix.
    pub open spec fn forwarded(
        self,
        address: Seq<char>,
        payload: Seq<u8>,
        command: Command,
    ) -> Option<MessageView> {
        match relayed(address) {
            None => None,
            Some(target) => match segment(target, 3) {
                None => None,
                Some(vehicle) => Some(
                    MessageView {
                        topic: target,
                        payload: self.outbound(vehicle, payload, command),
                    },
                ),
            },
        }
    }

    /// A pending command: skipped where nothing is published for it; else it
    /// is published, and a speed command leaves its velocity as the last
    /// relayed speed.
    pub open spec fn on_command(
        self,
        address: Seq<char>,
        payload: Seq<u8>,
        command: Command,
    ) -> RelayStep {
        match self.forwarded(address, payload, command) {
            None => self.skip(),
            Some(message) => RelayStep {
                state: match command {
                    Command::Speed(velocity) => RelayView { last_speed: velocity, ..self },
                    Command::Other => self,
                },
                messages: seq![message],
            },
        }
    }

    /// Any message: one on the emergency address is an emergency update, one
    /// on the zone address is a zone update, any other is a pending command.
    /// A message whose payload cannot be decoded is skipped.
    pub open spec fn route(self, topic: Seq<char>, payload: Seq<u8>) -> RelayStep {
        match json_parse(payload) {
            None => self.skip(),
            Some(doc) => if topic == TopicView::Emergency.text() {
                match flag_of(doc) {
                    Some(active) => self.on_emergency(active),
                    None => self.skip(),
                }
            } else if topic == TopicView::Zone.text() {
                match members_of(doc) {
                    Some(members) => self.on_zone(members),
                    None => self.skip(),
                }
            } else {
                match command_of(doc) {
                    Some(command) => self.on_command(topic, payload, command),
                    None => self.skip(),
                }
            },
        }
    }
}

impl View for Relay {
    type V = RelayView;

    closed spec fn view(&self) -> RelayView {
        RelayView {
            vehicles: self.vehicle_list.deep_view(),
            emergency: self.emergency,
            slow_zone: self.inside_slow_zone.deep_view(),
            last_speed: self.last_speed,
        }
    }
}

impl Relay {
    /// A relay for the vehicles of `vehicle_list`: no emergency, nobody
    /// inside the slow zone, and [`INITIAL_SPEED`] as the last relayed speed.
    pub fn new(vehicle_list: &[String]) -> (r: Relay)
        ensures
            r@ == (RelayView {
                vehicles: vehicle_list.deep_view(),
                emergency: false,
                slow_zone: Seq::empty(),
                last_speed: INITIAL_SPEED,
            }),
    {
        let r = Relay {
            vehicle_list: copy_texts(vehicle_list),
            emergency: false,
            inside_slow_zone: Vec::new(),
            last_speed: INITIAL_SPEED,
        };
        assert(r.vehicle_list.deep_view() =~= vehicle_list.deep_view());
        assert(r.inside_slow_zone.deep_view() =~= Seq::empty());
        r
    }

    /// The vehicles that the relay knows.
    pub fn vehicle_list(&self) -> (r: &Vec<String>)
        ensures
            r.deep_view() == self@.vehicles,
    {
        &self.vehicle_list
    }

    /// Whether the emergency stop is active.
    pub fn emergency(&self) -> (r: bool)
        ensures
            r == self@.emergency,
    {
        self.emergency
    }

    /// The vehicles inside the slow zone, as the last zone update listed
    /// them.
    pub fn inside_slow_zone(&self) -> (r: &Vec<String>)
        ensures
            r.deep_view() == self@.slow_zone,
    {
        &self.inside_slow_zone
    }

    /// The velocity of the last speed command that was relayed.
    pub fn last_speed(&self) -> (r: i16)
        ensures
            r == self@.last_speed,
    {
        self.last_speed
    }

    /// The addresses that the relay listens to: everything under the relay
    /// prefix, the emergency address and the zone address.
    pub fn subscriptions() -> (out: Vec<String>)
        ensures
            out.deep_view() == seq![
                TopicView::Relay("#"@).text(),
                TopicView::Emergency.text(),
                TopicView::Zone.text(),
            ],
    {
        let mut out: Vec<String> = Vec::new();
        out.push(Topic::Relay("#").get());
        out.push(Topic::Emergency.get());
        out.push(Topic::Zone.get());
        assert(out.deep_view() =~= seq![
            TopicView::Relay("#"@).text(),
            TopicView::Emergency.text(),
            TopicView::Zone.text(),
        ]);
        out
    }

    /// Takes over the emergency flag and tells every known vehicle, whether
    /// the flag changed or not.
    pub fn on_emergency(&mut self, active: bool) -> (out: Vec<Message>)
        ensures
            final(self)@ == old(self)@.on_emergency(active).state,
            out.deep_view() == old(self)@.on_emergency(active).messages,
            out.len() == old(self)@.vehicles.len(),
    {
        self.emergency = active;
        let velocity: i16 = if active {
            0
        } else {
            CRUISE_VELOCITY
        };
        Message::speed_all(&self.vehicle_list, velocity, EMERGENCY_ACCELERATION)
    }

    /// Replaces the membership of the slow zone, sends every released vehicle
    /// back to the last relayed speed, and slows every member down.
    pub fn on_zone(&mut self, members: Vec<String>) -> (out: Vec<Message>)
        ensures
            final(self)@ == old(self)@.on_zone(members.deep_view()).state,
            out.deep_view() == old(self)@.on_zone(members.deep_view()).messages,
    {
        let released = texts_without(&self.inside_slow_zone, &members);
        let mut out = Message::speed_all(&released, self.last_speed, ZONE_EXIT_ACCELERATION);
        let mut slowed = Message::speed_all(&members, ZONE_VELOCITY, ZONE_ENTRY_ACCELERATION);
        let ghost first = out.deep_view();
        let ghost second = slowed.deep_view();
        out.append(&mut slowed);
        assert(out.deep_view() =~= first + second);
        self.inside_slow_zone = members;
        out
    }

    /// Passes a pending command on to the vehicle it is meant for, or
    /// replaces it where the emergency stop or the slow zone says so.
    ///
    /// `address` is the address that the command arrived on, `payload` its
    /// bytes, and `command` what [`decode_command`] read from them. `None`
    /// where the command is skipped.
    pub fn on_command(&mut self, address: &str, payload: &[u8], command: Command) -> (out: Option<
        Message,
    >)
        ensures
            final(self)@ == old(self)@.on_command(address@, payload@, command).state,
            out.deep_view() == old(self)@.forwarded(address@, payload@, command),
    {
        let target = match relayed_address(address) {
            Some(target) => target,
            None => {
                return None;
            },
        };
        let vehicle = match segment_of(target.as_str(), 3) {
            Some(vehicle) => vehicle,
            None => {
                return None;
            },
        };
        let sent = match command {
            Command::Speed(velocity) => {
                self.last_speed = velocity;
                if self.emergency {
                    bytes_of(Payload::Speed(0, STOP_ACCELERATION).get().as_str())
                } else if contains_text(&self.inside_slow_zone, vehicle.as_str()) {
                    bytes_of(Payload::Speed(ZONE_VELOCITY, ZONE_ENTRY_ACCELERATION).get().as_str())
                } else {
                    slice_to_vec(payload)
                }
            },
            Command::Other => slice_to_vec(payload),
        };
        Some(Message { topic: target, payload: sent })
    }

    /// Takes one message from the bus and answers with the messages to
    /// publish, in order.
    ///
    /// A message that cannot be decoded, or that is addressed to nobody,
    /// changes nothing and publishes nothing.
    pub fn handle(&mut self, topic: &str, payload: &[u8]) -> (out: Vec<Message>)
        ensures
            final(self)@ == old(self)@.route(topic@, payload@).state,
            out.deep_view() == old(self)@.route(topic@, payload@).messages,
    {
        if same_text(topic, Topic::Emergency.get().as_str()) {
            match decode_flag(payload) {
                Some(active) => self.on_emergency(active),
                None => Vec::new(),
            }
        } else if same_text(topic, Topic::Zone.get().as_str()) {
            match decode_members(payload) {
                Some(members) => self.on_zone(members),
                None => Vec::new(),
            }
        } else {
            match decode_command(payload) {
                Some(command) => match self.on_command(topic, payload, command) {
                    Some(message) => {
                        let mut out = Vec::new();
                        out.push(message);
                        out
                    },
                    None => Vec::new(),
                },
                None => Vec::new(),
            }
        }
    }
}

/// An emergency update sets the flag and sends one speed command to each
/// known vehicle, on the vehicle's own address: a stop when the flag is
/// raised, the cruise velocity when it is released. Where no vehicle is
/// listed twice, no other message of the update goes to that address.
pub proof fn lemma_emergency_tells_every_vehicle(state: RelayView, active: bool, i: int)
    requires
        0 <= i < state.vehicles.len(),
    ensures
        ({
            let step = state.on_emergency(active);
            let velocity = if active {
                0i16
            } else {
                CRUISE_VELOCITY
            };
            &&& step.state.emergency == active
            &&& step.messages.len() == state.vehicles.len()
            &&& step.messages[i] == speed_message(
                state.vehicles[i],
                velocity,
                EMERGENCY_ACCELERATION,
            )
            &&& state.vehicles.no_duplicates() ==> forall|j: int|
                0 <= j < step.messages.len() && j != i ==> (#[trigger] step.messages[j]).topic
                    != step.messages[i].topic
        }),
{
    let step = state.on_emergency(active);
    if state.vehicles.no_duplicates() {
        assert forall|j: int| 0 <= j < step.messages.len() && j != i implies (
        #[trigger] step.messages[j]).topic != step.messages[i].topic by {
            if step.messages[j].topic == step.messages[i].topic {
                lemma_vehicle_address_names_one_vehicle(state.vehicles[j], state.vehicles[i]);
            }
        }
    }
}

/// An emergency update that repeats the current flag leaves the state as it
/// is and still sends the whole broadcast.
pub proof fn lemma_repeated_emergency_is_broadcast_again(state: RelayView, active: bool)
    ensures
        state.on_emergency(active).state.on_emergency(active) == state.on_emergency(active),
        state.emergency == active ==> state.on_emergency(active).state == state,
        state.on_emergency(active).messages.len() == state.vehicles.len(),
{
}

/// A zone update replaces the membership. A vehicle that was a member and is
/// none any more is sent back to the last relayed speed; a vehicle that is a
/// member now is told to slow down, whether it was a member before or not.
pub proof fn lemma_zone_update_reaches_vehicle(
    state: RelayView,
    members: Seq<Seq<char>>,
    vehicle: Seq<char>,
)
    ensures
        ({
            let step = state.on_zone(members);
            &&& step.state.slow_zone == members
            &&& state.slow_zone.contains(vehicle) && !members.contains(vehicle)
                ==> step.messages.contains(
                speed_message(vehicle, state.last_speed, ZONE_EXIT_ACCELERATION),
            )
            &&& members.contains(vehicle) ==> step.messages.contains(
                speed_message(vehicle, ZONE_VELOCITY, ZONE_ENTRY_ACCELERATION),
            )
        }),
{
    let step = state.on_zone(members);
    let released = state.released(members);
    let restored = speed_messages(released, state.last_speed, ZONE_EXIT_ACCELERATION);
    let slowed = speed_messages(members, ZONE_VELOCITY, ZONE_ENTRY_ACCELERATION);
    if state.slow_zone.contains(vehicle) && !members.contains(vehicle) {
        let i = choose|i: int| 0 <= i < state.slow_zone.len() && state.slow_zone[i] == vehicle;
        state.slow_zone.lemma_filter_contains(|s: Seq<char>| !members.contains(s), i);
        assert(released.contains(vehicle));
        let k = choose|k: int| 0 <= k < released.len() && released[k] == vehicle;
        assert(restored[k] == speed_message(vehicle, state.last_speed, ZONE_EXIT_ACCELERATION));
        assert(step.messages[k] == restored[k]);
    }
    if members.contains(vehicle) {
        let k = choose|k: int| 0 <= k < members.len() && members[k] == vehicle;
        assert(slowed[k] == speed_message(vehicle, ZONE_VELOCITY, ZONE_ENTRY_ACCELERATION));
        assert(step.messages[restored.len() + k] == slowed[k]);
    }
}

/// A zone update that repeats the current membership releases nobody, leaves
/// the state as it is, and slows every member down once more.
pub proof fn lemma_repeated_zone_update_slows_again(state: RelayView, members: Seq<Seq<char>>)
    ensures
        ({
            let once = state.on_zone(members).state;
            &&& once.on_zone(members).state == once
            &&& once.on_zone(members).messages == speed_messages(
                members,
                ZONE_VELOCITY,
                ZONE_ENTRY_ACCELERATION,
            )
        }),
{
    let once = state.on_zone(members).state;
    let released = once.released(members);
    if released.len() > 0 {
        assert(released.contains(released[0]));
        lemma_without_contains(members, members, released[0]);
    }
    assert(once.on_zone(members).messages =~= speed_messages(
        members,
        ZONE_VELOCITY,
        ZONE_ENTRY_ACCELERATION,
    ));
}

/// A command on an address without the relay prefix is discarded: nothing is
/// published and the state stays as it is.
pub proof fn lemma_unprefixed_command_is_discarded(
    state: RelayView,
    address: Seq<char>,
    payload: Seq<u8>,
    command: Command,
)
    requires
        relayed(address) is None,
    ensures
        state.on_command(address, payload, command) == state.skip(),
{
}

/// A message on an address that is neither the emergency address, nor the
/// zone address, nor relay-prefixed is discarded, whatever it carries.
pub proof fn lemma_unprefixed_message_is_discarded(
    state: RelayView,
    topic: Seq<char>,
    payload: Seq<u8>,
)
    requires
        relayed(topic) is None,
        topic != TopicView::Emergency.text(),
        topic != TopicView::Zone.text(),
    ensures
        state.route(topic, payload) == state.skip(),
{
}

/// A message on a relay-prefixed address is a pending command: it is decoded
/// and passed on, or skipped where it cannot be decoded.
pub proof fn lemma_prefixed_message_is_command(
    state: RelayView,
    topic: Seq<char>,
    payload: Seq<u8>,
)
    requires
        relayed(topic) is Some,
    ensures
        state.route(topic, payload) == match json_parse(payload) {
            Some(doc) => match command_of(doc) {
                Some(command) => state.on_command(topic, payload, command),
                None => state.skip(),
            },
            None => state.skip(),
        },
{
    lemma_control_addresses_are_not_relayed();
}

/// While the emergency flag is set, a relayed speed command is replaced by a
/// stop, whatever velocity it asks for, and that velocity is kept as the last
/// relayed speed.
pub proof fn lemma_emergency_replaces_speed(
    state: RelayView,
    address: Seq<char>,
    payload: Seq<u8>,
    velocity: i16,
)
    requires
        state.emergency,
        relayed(address) is Some,
        segment(relayed(address)->0, 3) is Some,
    ensures
        ({
            let step = state.on_command(address, payload, Command::Speed(velocity));
            &&& step.messages == seq![
                text_message(relayed(address)->0, speed_text(0, STOP_ACCELERATION)),
            ]
            &&& step.state == (RelayView { last_speed: velocity, ..state })
        }),
{
}

/// A relayed command that is no speed command is passed on byte for byte,
/// and leaves the state as it is.
pub proof fn lemma_other_command_passes_unchanged(
    state: RelayView,
    address: Seq<char>,
    payload: Seq<u8>,
)
    requires
        relayed(address) is Some,
        segment(relayed(address)->0, 3) is Some,
    ensures
        ({
            let step = state.on_command(address, payload, Command::Other);
            &&& step.messages == seq![MessageView { topic: relayed(address)->0, payload }]
            &&& step.state == state
        }),
{
}

/// A command that was addressed to the relay for a vehicle is published on
/// that vehicle's own address, as long as the vehicle's id holds no slash.
pub proof fn lemma_command_goes_to_its_vehicle(
    state: RelayView,
    vehicle: Seq<char>,
    payload: Seq<u8>,
    command: Command,
)
    requires
        !vehicle.contains('/'),
    ensures
        ({
            let direct = TopicView::VehicleI(vehicle).text();
            state.on_command(TopicView::Relay(direct).text(), payload, command).messages == seq![
                MessageView { topic: direct, payload: state.outbound(vehicle, payload, command) },
            ]
        }),
{
    lemma_relay_prefix_comes_off(TopicView::VehicleI(vehicle).text());
    lemma_vehicle_addresses_name_the_vehicle(vehicle, Seq::empty());
}

/// No message changes the list of known vehicles. The emergency flag changes
/// only to the flag of an emergency update, the membership of the slow zone
/// only to the members of a zone update, and the last relayed speed only to
/// the velocity of a speed command on a relay-prefixed address.
pub proof fn lemma_route_changes_one_thing(state: RelayView, topic: Seq<char>, payload: Seq<u8>)
    ensures
        ({
            let next = state.route(topic, payload).state;
            &&& next.vehicles == state.vehicles
            &&& next.emergency != state.emergency ==> {
                &&& topic == TopicView::Emergency.text()
                &&& json_parse(payload) matches Some(doc)
                &&& flag_of(doc) == Some(next.emergency)
            }
            &&& next.slow_zone != state.slow_zone ==> {
                &&& topic == TopicView::Zone.text()
                &&& json_parse(payload) matches Some(doc)
                &&& members_of(doc) == Some(next.slow_zone)
            }
            &&& next.last_speed != state.last_speed ==> {
                &&& relayed(topic) is Some
                &&& json_parse(payload) matches Some(doc)
                &&& command_of(doc) == Some(Command::Speed(next.last_speed))
            }
        }),
{
}

} // verus!
