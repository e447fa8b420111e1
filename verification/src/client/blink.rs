//! The blink client: switches the lights of every vehicle on and off in turn.
use vstd::prelude::*;
use crate::library::message::{pending_messages, Message, MessageView};
use crate::library::payload::{Payload, PayloadView};
use crate::library::text::copy_texts;

verus! {

/// The seconds between two turns of the blink client.
pub const BLINK_PERIOD: u64 = 1;

/// The state of the lights and the vehicles they belong to.
pub struct Blink {
    /// Whether the lights are on.
    state: bool,
    /// The ids of the vehicles.
    vehicles: Vec<String>,
}

/// The state of a [`Blink`], as plain values.
pub struct BlinkView {
    pub lit: bool,
    pub vehicles: Seq<Seq<char>>,
}

impl BlinkView {
    /// The commands of the next turn: both lights of every vehicle are
    /// switched to the opposite of what they are.
    pub open spec fn commands(self) -> Seq<MessageView> {
        pending_messages(self.vehicles, PayloadView::Lights(!self.lit, !self.lit).text())
    }
}

impl View for Blink {
    type V = BlinkView;

    closed spec fn view(&self) -> BlinkView {
        BlinkView { lit: self.state, vehicles: self.vehicles.deep_view() }
    }
}

impl Blink {
    /// A blink client for the vehicles of `vehicle_list`, with the lights
    /// off.
    pub fn new(vehicle_list: &[String]) -> (r: Blink)
        ensures
            r@ == (BlinkView { lit: false, vehicles: vehicle_list.deep_view() }),
    {
        let r = Blink { state: false, vehicles: copy_texts(vehicle_list) };
        assert(r.vehicles.deep_view() =~= vehicle_list.deep_view());
        r
    }

    /// Whether the lights are on.
    pub fn state(&self) -> (r: bool)
        ensures
            r == self@.lit,
    {
        self.state
    }

    /// One turn: toggles the lights and answers with the command for every
    /// vehicle, addressed to the relay.
    pub fn tick(&mut self) -> (out: Vec<Message>)
        ensures
            final(self)@ == (BlinkView { lit: !old(self)@.lit, ..old(self)@ }),
            out.deep_view() == old(self)@.commands(),
    {
        self.state = !self.state;
        Message::pending_all(&self.vehicles, &Payload::Lights(self.state, self.state))
    }
}

} // verus!
