//! The zone detector: which vehicles are on a slow track right now.
//!
//! The detector listens to the track telemetry of every vehicle. A vehicle
//! that reports a slow track joins the slow zone, one that reports any other
//! track leaves it, and the membership is announced on the zone address each
//! time it changes, and only then.
use vstd::prelude::*;
use crate::library::json::json_parse;
use crate::library::message::{text_message, Message, MessageView};
use crate::library::payload::{decode_track, track_of, Payload, PayloadView};
use crate::library::text::{
    contains_text,
    copy_texts,
    lemma_without_contains,
    lemma_without_distinct,
    texts_without,
    without,
};
use crate::library::topic::{segment, segment_of, Topic, TopicView};

verus! {

/// The state of the zone detector.
pub struct Track {
    vehicle_list: Vec<String>,
    slow_tracks: Vec<u64>,
    slow_vehicles: Vec<String>,
}

/// The state of a [`Track`], as plain values.
pub struct TrackView {
    /// The vehicles whose telemetry the detector listens to.
    pub vehicles: Seq<Seq<char>>,
    /// The ids of the slow tracks.
    pub slow_tracks: Seq<u64>,
    /// The vehicles inside the slow zone, in the order in which they entered.
    pub slow_vehicles: Seq<Seq<char>>,
}

/// What one telemetry message does to the detector: its next state, and the
/// announcement it publishes where the membership changed.
pub struct TrackStep {
    pub state: TrackView,
    pub message: Option<MessageView>,
}

impl TrackView {
    /// Whether `vehicle`, seen on `track_id`, enters or leaves the slow zone.
    pub open spec fn changes(self, vehicle: Seq<char>, track_id: u64) -> bool {
        self.slow_tracks.contains(track_id) != self.slow_vehicles.contains(vehicle)
    }

    /// The state after `vehicle` was seen on `track_id`: on a slow track it
    /// joins the members at the end, unless it is one already; on any other
    /// track it leaves them, and the others keep their order.
    pub open spec fn observe(self, vehicle: Seq<char>, track_id: u64) -> TrackView {
        if !self.changes(vehicle, track_id) {
            self
        } else if self.slow_tracks.contains(track_id) {
            TrackView { slow_vehicles: self.slow_vehicles.push(vehicle), ..self }
        } else {
            TrackView { slow_vehicles: without(self.slow_vehicles, seq![vehicle]), ..self }
        }
    }

    /// The addresses of the track telemetry of the vehicles, in their order.
    pub open spec fn subscriptions(self) -> Seq<Seq<char>> {
        Seq::new(
            self.vehicles.len(),
            |i: int| TopicView::VehicleE(self.vehicles[i], "track"@).text(),
        )
    }

    /// The announcement of the membership.
    pub open spec fn announcement(self) -> MessageView {
        text_message(TopicView::Zone.text(), PayloadView::Zone200(self.slow_vehicles).text())
    }

    /// A message that changes nothing and publishes nothing.
    pub open spec fn skip(self) -> TrackStep {
        TrackStep { state: self, message: None }
    }

    /// A telemetry message: the vehicle is the fourth segment of `topic`, the
    /// track id stands under `trackId` in `payload`. Where either is missing
    /// the message is skipped; else the vehicle is observed, and the new
    /// membership is announced where it differs from the old one.
    pub open spec fn on_telemetry(self, topic: Seq<char>, payload: Seq<u8>) -> TrackStep {
        match (segment(topic, 3), json_parse(payload)) {
            (Some(vehicle), Some(doc)) => match track_of(doc) {
                Some(track_id) => TrackStep {
                    state: self.observe(vehicle, track_id),
                    message: if self.changes(vehicle, track_id) {
                        Some(self.observe(vehicle, track_id).announcement())
                    } else {
                        None
                    },
                },
                None => self.skip(),
            },
            _ => self.skip(),
        }
    }
}

impl View for Track {
    type V = TrackView;

    closed spec fn view(&self) -> TrackView {
        TrackView {
            vehicles: self.vehicle_list.deep_view(),
            slow_tracks: self.slow_tracks@,
            slow_vehicles: self.slow_vehicles.deep_view(),
        }
    }
}

/// Whether `tracks` holds `track_id`.
fn contains_track(tracks: &Vec<u64>, track_id: u64) -> (r: bool)
    ensures
        r == tracks@.contains(track_id),
{
    let mut i: usize = 0;
    while i < tracks.len()
        invariant
            i <= tracks.len(),
            forall|j: int| 0 <= j < i ==> tracks@[j] != track_id,
        decreases tracks.len() - i,
    {
        if tracks[i] == track_id {
            return true;
        }
        i += 1;
    }
    false
}

impl Track {
    /// A detector for the vehicles of `vehicle_list` and the slow tracks
    /// `slow_tracks`, with nobody inside the slow zone.
    pub fn new(vehicle_list: &[String], slow_tracks: &[u64]) -> (r: Track)
        ensures
            r@ == (TrackView {
                vehicles: vehicle_list.deep_view(),
                slow_tracks: slow_tracks@,
                slow_vehicles: Seq::empty(),
            }),
    {
        let r = Track {
            vehicle_list: copy_texts(vehicle_list),
            slow_tracks: vstd::slice::slice_to_vec(slow_tracks),
            slow_vehicles: Vec::new(),
        };
        assert(r.vehicle_list.deep_view() =~= vehicle_list.deep_view());
        assert(r.slow_vehicles.deep_view() =~= Seq::empty());
        r
    }

    /// The vehicles inside the slow zone, in the order in which they entered.
    pub fn slow_vehicles(&self) -> (r: &Vec<String>)
        ensures
            r.deep_view() == self@.slow_vehicles,
    {
        &self.slow_vehicles
    }

    /// The addresses that the detector listens to: the track telemetry of
    /// each of its vehicles, in their order.
    pub fn subscriptions(&self) -> (out: Vec<String>)
        ensures
            out.deep_view() == self@.subscriptions(),
    {
        let mut out: Vec<String> = Vec::new();
        let mut i: usize = 0;
        while i < self.vehicle_list.len()
            invariant
                i <= self.vehicle_list.len(),
                out.len() == i,
                forall|j: int|
                    0 <= j < i ==> (#[trigger] out@[j])@ == TopicView::VehicleE(
                        self.vehicle_list@[j]@,
                        "track"@,
                    ).text(),
            decreases self.vehicle_list.len() - i,
        {
            out.push(Topic::VehicleE(self.vehicle_list[i].as_str(), "track").get());
            i += 1;
        }
        assert(out.deep_view() =~= self@.subscriptions());
        out
    }

    /// Takes note that `vehicle` was seen on `track_id`, and says whether the
    /// membership of the slow zone changed by it.
    pub fn observe(&mut self, vehicle: &str, track_id: u64) -> (changed: bool)
        ensures
            final(self)@ == old(self)@.observe(vehicle@, track_id),
            changed == old(self)@.changes(vehicle@, track_id),
    {
        let slow = contains_track(&self.slow_tracks, track_id);
        let member = contains_text(&self.slow_vehicles, vehicle);
        if slow && !member {
            let ghost before = self.slow_vehicles.deep_view();
            self.slow_vehicles.push(String::from_str(vehicle));
            assert(self.slow_vehicles.deep_view() =~= before.push(vehicle@));
            true
        } else if !slow && member {
            let mut leaving: Vec<String> = Vec::new();
            leaving.push(String::from_str(vehicle));
            assert(leaving.deep_view() =~= seq![vehicle@]);
            self.slow_vehicles = texts_without(&self.slow_vehicles, &leaving);
            true
        } else {
            false
        }
    }

    /// The announcement of the current membership.
    pub fn announce(&self) -> (r: Message)
        ensures
            r@ == self@.announcement(),
    {
        Message::new(Topic::Zone, &Payload::Zone200(&self.slow_vehicles))
    }

    /// Takes one telemetry message from the bus and answers with the
    /// announcement to publish, if the membership changed.
    ///
    /// A message whose address names no vehicle, or whose payload carries no
    /// track id, changes nothing and publishes nothing.
    pub fn handle(&mut self, topic: &str, payload: &[u8]) -> (out: Option<Message>)
        ensures
            final(self)@ == old(self)@.on_telemetry(topic@, payload@).state,
            out.deep_view() == old(self)@.on_telemetry(topic@, payload@).message,
    {
        let vehicle = match segment_of(topic, 3) {
            Some(vehicle) => vehicle,
            None => {
                return None;
            },
        };
        let track_id = match decode_track(payload) {
            Some(track_id) => track_id,
            None => {
                return None;
            },
        };
        if self.observe(vehicle.as_str(), track_id) {
            Some(self.announce())
        } else {
            None
        }
    }
}

/// After a vehicle was seen on a track, it is a member exactly if that track
/// is slow; every other vehicle is a member exactly if it was one before.
pub proof fn lemma_observation_decides_membership(
    state: TrackView,
    vehicle: Seq<char>,
    track_id: u64,
    other: Seq<char>,
)
    ensures
        ({
            let next = state.observe(vehicle, track_id);
            &&& next.vehicles == state.vehicles
            &&& next.slow_tracks == state.slow_tracks
            &&& next.slow_vehicles.contains(vehicle) == state.slow_tracks.contains(track_id)
            &&& other != vehicle ==> next.slow_vehicles.contains(other)
                == state.slow_vehicles.contains(other)
        }),
{
    let next = state.observe(vehicle, track_id);
    let leaving = seq![vehicle];
    assert(leaving[0] == vehicle);
    lemma_without_contains(state.slow_vehicles, leaving, vehicle);
    lemma_without_contains(state.slow_vehicles, leaving, other);
    if state.changes(vehicle, track_id) && state.slow_tracks.contains(track_id) {
        let grown = state.slow_vehicles.push(vehicle);
        assert(grown[state.slow_vehicles.len() as int] == vehicle);
        if state.slow_vehicles.contains(other) {
            let i = choose|i: int| 0 <= i < state.slow_vehicles.len() && state.slow_vehicles[i] == other;
            assert(grown[i] == other);
        }
    }
}

/// The membership is announced exactly when it changes: a telemetry message
/// publishes something if and only if it leaves the detector in another
/// state.
pub proof fn lemma_announces_exactly_changes(state: TrackView, topic: Seq<char>, payload: Seq<u8>)
    ensures
        ({
            let step = state.on_telemetry(topic, payload);
            &&& step.message is Some <==> step.state != state
            &&& step.message is Some <==> step.state.slow_vehicles != state.slow_vehicles
            &&& step.message matches Some(message) ==> message == step.state.announcement()
        }),
{
    match (segment(topic, 3), json_parse(payload)) {
        (Some(vehicle), Some(doc)) => match track_of(doc) {
            Some(track_id) => {
                lemma_observation_decides_membership(state, vehicle, track_id, vehicle);
            },
            None => {},
        },
        _ => {},
    }
}

/// Seeing a vehicle on the same track once more changes nothing and
/// announces nothing.
pub proof fn lemma_repeated_observation_is_silent(
    state: TrackView,
    vehicle: Seq<char>,
    track_id: u64,
)
    ensures
        !state.observe(vehicle, track_id).changes(vehicle, track_id),
        state.observe(vehicle, track_id).observe(vehicle, track_id) == state.observe(
            vehicle,
            track_id,
        ),
{
    lemma_observation_decides_membership(state, vehicle, track_id, vehicle);
}

/// A telemetry message that is delivered twice in a row is announced at most
/// once: the second delivery changes nothing and publishes nothing.
pub proof fn lemma_repeated_telemetry_is_silent(
    state: TrackView,
    topic: Seq<char>,
    payload: Seq<u8>,
)
    ensures
        ({
            let once = state.on_telemetry(topic, payload).state;
            once.on_telemetry(topic, payload) == once.skip()
        }),
{
    match (segment(topic, 3), json_parse(payload)) {
        (Some(vehicle), Some(doc)) => match track_of(doc) {
            Some(track_id) => {
                lemma_repeated_observation_is_silent(state, vehicle, track_id);
            },
            None => {},
        },
        _ => {},
    }
}

/// A membership without duplicates stays without duplicates.
pub proof fn lemma_members_stay_distinct(state: TrackView, vehicle: Seq<char>, track_id: u64)
    requires
        state.slow_vehicles.no_duplicates(),
    ensures
        state.observe(vehicle, track_id).slow_vehicles.no_duplicates(),
{
    lemma_without_distinct(state.slow_vehicles, seq![vehicle]);
}

} // verus!
