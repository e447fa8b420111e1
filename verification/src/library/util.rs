//! What the housekeeping around the clients sends and reads: connecting the
//! vehicles and asking the host which vehicles there are.
use vstd::prelude::*;
use crate::library::json::{json_parse, member, parse, JsonView};
use crate::library::message::{pending_messages, text_message, Message};
use crate::library::payload::{texts_of, Payload, PayloadView};
use crate::library::topic::{Topic, TopicView};

verus! {

/// The vehicle ids under `value`, as the host's reply to a discovery carries
/// them: an array that holds nothing but strings.
pub open spec fn vehicles_of(doc: JsonView) -> Option<Seq<Seq<char>>> {
    doc.member("value"@).as_texts()
}

/// The commands that connect each of the vehicles, addressed to the relay.
pub fn connect_vehicles(vehicle_list: &Vec<String>) -> (out: Vec<Message>)
    ensures
        out.deep_view() == pending_messages(
            vehicle_list.deep_view(),
            PayloadView::Connect(true).text(),
        ),
{
    Message::pending_all(vehicle_list, &Payload::Connect(true))
}

/// The command that starts or stops the discovery of vehicles, addressed to
/// the host.
pub fn discovery_request(enabled: bool) -> (r: Message)
    ensures
        r@ == text_message(TopicView::HostI.text(), PayloadView::Discover(enabled).text()),
{
    Message::new(Topic::HostI, &Payload::Discover(enabled))
}

/// The vehicle ids that the host's reply to a discovery lists.
///
/// `None` where `reply` is no JSON document or holds no array of strings
/// under `value`.
pub fn discover_vehicles(reply: &[u8]) -> (r: Option<Vec<String>>)
    ensures
        r.deep_view() == match json_parse(reply@) {
            Some(doc) => vehicles_of(doc),
            None => None,
        },
{
    match parse(reply) {
        Ok(doc) => texts_of(member(&doc, "value")),
        Err(_) => None,
    }
}

} // verus!
