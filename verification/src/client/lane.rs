//! The lane client: walks through a list of lane offsets, over and over, and
//! asks every vehicle to move to the current one.
use vstd::prelude::*;
use vstd::slice::slice_to_vec;
use crate::library::message::{pending_messages, Message, MessageView};
use crate::library::payload::{Payload, PayloadView};
use crate::library::text::copy_texts;

verus! {

/// The seconds between two turns of the lane client.
pub const LANE_PERIOD: u64 = 5;

/// The velocity of a lane change.
pub const LANE_VELOCITY: u16 = 200;

/// The acceleration of a lane change.
pub const LANE_ACCELERATION: u16 = 500;

/// The offsets to walk through, the vehicles, and the place in the walk.
pub struct Lane {
    vehicles: Vec<String>,
    offsets: Vec<i16>,
    next: usize,
}

/// The state of a [`Lane`], as plain values.
pub struct LaneView {
    pub offsets: Seq<i16>,
    pub vehicles: Seq<Seq<char>>,
    /// The place in `offsets` of the offset of the next turn.
    pub next: int,
}

impl LaneView {
    /// Whether there is an offset for the next turn.
    pub open spec fn ready(self) -> bool {
        0 <= self.next < self.offsets.len()
    }

    /// The commands of the next turn: the current offset for every vehicle.
    pub open spec fn commands(self) -> Seq<MessageView>
        recommends
            self.ready(),
    {
        pending_messages(
            self.vehicles,
            PayloadView::Lane(self.offsets[self.next], LANE_VELOCITY, LANE_ACCELERATION).text(),
        )
    }

    /// The state after a turn: one offset further, from the last one back to
    /// the first.
    pub open spec fn advanced(self) -> LaneView
        recommends
            self.ready(),
    {
        LaneView {
            next: if self.next + 1 < self.offsets.len() {
                self.next + 1
            } else {
                0
            },
            ..self
        }
    }
}

impl View for Lane {
    type V = LaneView;

    closed spec fn view(&self) -> LaneView {
        LaneView {
            offsets: self.offsets@,
            vehicles: self.vehicles.deep_view(),
            next: self.next as int,
        }
    }
}

impl Lane {
    /// A lane client for the vehicles of `vehicles` that starts at the first
    /// offset of `offsets`.
    pub fn new(offsets: &[i16], vehicles: &[String]) -> (r: Lane)
        ensures
            r@ == (LaneView { offsets: offsets@, vehicles: vehicles.deep_view(), next: 0 }),
    {
        let r = Lane {
            offsets: slice_to_vec(offsets),
            vehicles: copy_texts(vehicles),
            next: 0,
        };
        assert(r.vehicles.deep_view() =~= vehicles.deep_view());
        r
    }

    /// Whether there is an offset for the next turn.
    pub fn ready(&self) -> (r: bool)
        ensures
            r == self@.ready(),
    {
        self.next < self.offsets.len()
    }

    /// One turn: answers with the current offset for every vehicle, addressed
    /// to the relay, and moves on to the next offset.
    ///
    /// There has to be an offset to send: the list given to [`Lane::new`] was
    /// not empty.
    pub fn tick(&mut self) -> (out: Vec<Message>)
        requires
            old(self)@.ready(),
        ensures
            final(self)@ == old(self)@.advanced(),
            final(self)@.ready(),
            out.deep_view() == old(self)@.commands(),
    {
        let out = Message::pending_all(
            &self.vehicles,
            &Payload::Lane(self.offsets[self.next], LANE_VELOCITY, LANE_ACCELERATION),
        );
        let count = self.offsets.len();
        self.next = if self.next + 1 < count {
            self.next + 1
        } else {
            0
        };
        out
    }
}

} // verus!
