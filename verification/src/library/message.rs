//! Messages on their way to the bus.
use vstd::prelude::*;
use vstd::utf8::encode_utf8;
use crate::library::payload::{speed_text, Payload};
use crate::library::text::bytes_of;
use crate::library::topic::{Topic, TopicView};

verus! {

/// A message to publish: the address it goes to and the bytes it carries.
#[derive(Clone, Debug, PartialEq, Eq)]
pub struct Message {
    pub topic: String,
    pub payload: Vec<u8>,
}

/// What a [`Message`] holds, as plain values.
pub struct MessageView {
    pub topic: Seq<char>,
    pub payload: Seq<u8>,
}

impl View for Message {
    type V = MessageView;

    open spec fn view(&self) -> MessageView {
        MessageView { topic: self.topic@, payload: self.payload@ }
    }
}

impl DeepView for Message {
    type V = MessageView;

    open spec fn deep_view(&self) -> MessageView {
        self@
    }
}

/// The message that carries `text`, encoded as UTF-8, to `topic`.
pub open spec fn text_message(topic: Seq<char>, text: Seq<char>) -> MessageView {
    MessageView { topic, payload: encode_utf8(text) }
}

/// The speed command that goes straight to `vehicle`.
pub open spec fn speed_message(vehicle: Seq<char>, velocity: i16, acceleration: u16) -> MessageView {
    text_message(TopicView::VehicleI(vehicle).text(), speed_text(velocity, acceleration))
}

/// One speed command for each of `vehicles`, in their order.
pub open spec fn speed_messages(vehicles: Seq<Seq<char>>, velocity: i16, acceleration: u16) -> Seq<
    MessageView,
> {
    Seq::new(vehicles.len(), |i: int| speed_message(vehicles[i], velocity, acceleration))
}

/// The command `payload` for `vehicle`, on its way through the relay.
pub open spec fn pending_message(vehicle: Seq<char>, payload: Seq<char>) -> MessageView {
    text_message(TopicView::Relay(TopicView::VehicleI(vehicle).text()).text(), payload)
}

/// The command `payload` for each of `vehicles`, in their order, on its way
/// through the relay.
pub open spec fn pending_messages(vehicles: Seq<Seq<char>>, payload: Seq<char>) -> Seq<
    MessageView,
> {
    Seq::new(vehicles.len(), |i: int| pending_message(vehicles[i], payload))
}

impl Message {
    /// The message that carries `payload` to `topic`.
    pub fn new(topic: Topic, payload: &Payload) -> (r: Message)
        ensures
            r@ == text_message(topic@.text(), payload@.text()),
    {
        Message { topic: topic.get(), payload: bytes_of(payload.get().as_str()) }
    }

    /// The speed command that goes straight to `vehicle`.
    pub fn speed(vehicle: &str, velocity: i16, acceleration: u16) -> (r: Message)
        ensures
            r@ == speed_message(vehicle@, velocity, acceleration),
    {
        Message::new(Topic::VehicleI(vehicle), &Payload::Speed(velocity, acceleration))
    }

    /// One speed command for each of `vehicles`, in their order.
    pub fn speed_all(vehicles: &Vec<String>, velocity: i16, acceleration: u16) -> (out: Vec<
        Message,
    >)
        ensures
            out.deep_view() == speed_messages(vehicles.deep_view(), velocity, acceleration),
            out.len() == vehicles.len(),
    {
        let mut out: Vec<Message> = Vec::new();
        let mut i: usize = 0;
        while i < vehicles.len()
            invariant
                i <= vehicles.len(),
                out.len() == i,
                forall|j: int|
                    0 <= j < i ==> (#[trigger] out@[j])@ == speed_message(
                        vehicles@[j]@,
                        velocity,
                        acceleration,
                    ),
            decreases vehicles.len() - i,
        {
            out.push(Message::speed(vehicles[i].as_str(), velocity, acceleration));
            i += 1;
        }
        assert(out.deep_view() =~= speed_messages(vehicles.deep_view(), velocity, acceleration));
        out
    }

    /// The command `payload` for `vehicle`, addressed to the relay.
    pub fn pending(vehicle: &str, payload: &Payload) -> (r: Message)
        ensures
            r@ == pending_message(vehicle@, payload@.text()),
    {
        let direct = Topic::VehicleI(vehicle).get();
        Message::new(Topic::Relay(direct.as_str()), payload)
    }

    /// The command `payload` for each of `vehicles`, in their order,
    /// addressed to the relay.
    pub fn pending_all(vehicles: &Vec<String>, payload: &Payload) -> (out: Vec<Message>)
        ensures
            out.deep_view() == pending_messages(vehicles.deep_view(), payload@.text()),
            out.len() == vehicles.len(),
    {
        let mut out: Vec<Message> = Vec::new();
        let mut i: usize = 0;
        while i < vehicles.len()
            invariant
                i <= vehicles.len(),
                out.len() == i,
                forall|j: int|
                    0 <= j < i ==> (#[trigger] out@[j])@ == pending_message(
                        vehicles@[j]@,
                        payload@.text(),
                    ),
            decreases vehicles.len() - i,
        {
            out.push(Message::pending(vehicles[i].as_str(), payload));
            i += 1;
        }
        assert(out.deep_view() =~= pending_messages(vehicles.deep_view(), payload@.text()));
        out
    }
}

} // verus!
