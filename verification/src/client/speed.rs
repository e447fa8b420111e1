//! The speed client: walks through a list of velocities, over and over, and
//! asks every vehicle to drive at the current one.
use vstd::prelude::*;
use vstd::slice::slice_to_vec;
use crate::library::message::{pending_messages, Message, MessageView};
use crate::library::payload::{Payload, PayloadView};
use crate::library::text::copy_texts;

verus! {

/// The seconds between two turns of the speed client.
pub const SPEED_PERIOD: u64 = 3;

/// The acceleration that the speed client asks for.
pub const SPEED_ACCELERATION: u16 = 500;

/// The velocities to walk through, the vehicles, and the place in the walk.
pub struct Speed {
    velocity_list: Vec<i16>,
    vehicle_list: Vec<String>,
    next: usize,
}

/// The state of a [`Speed`], as plain values.
pub struct SpeedView {
    pub velocities: Seq<i16>,
    pub vehicles: Seq<Seq<char>>,
    /// The place in `velocities` of the velocity of the next turn.
    pub next: int,
}

impl SpeedView {
    /// Whether there is a velocity for the next turn.
    pub open spec fn ready(self) -> bool {
        0 <= self.next < self.velocities.len()
    }

    /// The commands of the next turn: the current velocity for every vehicle.
    pub open spec fn commands(self) -> Seq<MessageView>
        recommends
            self.ready(),
    {
        pending_messages(
            self.vehicles,
            PayloadView::Speed(self.velocities[self.next], SPEED_ACCELERATION).text(),
        )
    }

    /// The state after a turn: one velocity further, from the last one back
    /// to the first.
    pub open spec fn advanced(self) -> SpeedView
        recommends
            self.ready(),
    {
        SpeedView {
            next: if self.next + 1 < self.velocities.len() {
                self.next + 1
            } else {
                0
            },
            ..self
        }
    }
}

impl View for Speed {
    type V = SpeedView;

    closed spec fn view(&self) -> SpeedView {
        SpeedView {
            velocities: self.velocity_list@,
            vehicles: self.vehicle_list.deep_view(),
            next: self.next as int,
        }
    }
}

impl Speed {
    /// A speed client for the vehicles of `vehicle_list` that starts at the
    /// first velocity of `velocity_list`.
    pub fn new(velocity_list: &[i16], vehicle_list: &[String]) -> (r: Speed)
        ensures
            r@ == (SpeedView {
                velocities: velocity_list@,
                vehicles: vehicle_list.deep_view(),
                next: 0,
            }),
    {
        let r = Speed {
            velocity_list: slice_to_vec(velocity_list),
            vehicle_list: copy_texts(vehicle_list),
            next: 0,
        };
        assert(r.vehicle_list.deep_view() =~= vehicle_list.deep_view());
        r
    }

    /// Whether there is a velocity for the next turn.
    pub fn ready(&self) -> (r: bool)
        ensures
            r == self@.ready(),
    {
        self.next < self.velocity_list.len()
    }

    /// One turn: answers with the current velocity for every vehicle,
    /// addressed to the relay, and moves on to the next velocity.
    ///
    /// There has to be a velocity to send: the list given to [`Speed::new`]
    /// was not empty.
    pub fn tick(&mut self) -> (out: Vec<Message>)
        requires
            old(self)@.ready(),
        ensures
            final(self)@ == old(self)@.advanced(),
            final(self)@.ready(),
            out.deep_view() == old(self)@.commands(),
    {
        let out = Message::pending_all(
            &self.vehicle_list,
            &Payload::Speed(self.velocity_list[self.next], SPEED_ACCELERATION),
        );
        let count = self.velocity_list.len();
        self.next = if self.next + 1 < count {
            self.next + 1
        } else {
            0
        };
        out
    }
}

} // verus!
