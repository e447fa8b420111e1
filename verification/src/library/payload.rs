//! The payloads of the message bus.
//!
//! A payload is a JSON object with a `type` discriminator and a nested
//! `payload` object. [`Payload::get`] writes every payload that this crate
//! sends; the functions below it read what the clients need from the
//! payloads that arrive.
use vstd::prelude::*;
use vstd::pervasive::unreached;
use crate::library::json::{json_list_text, json_parse, json_view, list_text, member, parse, JsonView};
use crate::library::text::{decimal, decimal_text, same_text, signed_decimal, signed_decimal_text};

verus! {

/// The payloads that the clients send.
pub enum Payload<'a> {
    /// Drive at a velocity, reached with an acceleration.
    Speed(i16, u16),
    /// Connect to a vehicle, or disconnect from it.
    Connect(bool),
    /// Start or stop the discovery of vehicles.
    Discover(bool),
    /// Move to a lane offset, with a velocity and an acceleration.
    Lane(i16, u16, u16),
    /// Switch the front and the back lights.
    Lights(bool, bool),
    /// Raise or release the emergency stop.
    Emergency(bool),
    /// The vehicles that are inside the slow zone.
    Zone200(&'a Vec<String>),
}

/// What a [`Payload`] holds, as plain values.
pub enum PayloadView {
    Speed(i16, u16),
    Connect(bool),
    Discover(bool),
    Lane(i16, u16, u16),
    Lights(bool, bool),
    Emergency(bool),
    Zone200(Seq<Seq<char>>),
}

/// `true` or `false`, as JSON writes them.
pub open spec fn bool_text(value: bool) -> Seq<char> {
    if value {
        "true"@
    } else {
        "false"@
    }
}

/// `on` or `off`, the two states of a light.
pub open spec fn switch_text(lit: bool) -> Seq<char> {
    if lit {
        "on"@
    } else {
        "off"@
    }
}

/// The text of a speed command.
pub open spec fn speed_text(velocity: i16, acceleration: u16) -> Seq<char> {
    r#"{"type":"speed","payload":{"velocity": "#@ + signed_decimal(velocity as int)
        + r#","acceleration": "#@ + decimal(acceleration as nat) + "}}"@
}

/// The text of a command that carries one boolean under `value`.
pub open spec fn flag_text(kind: Seq<char>, value: bool) -> Seq<char> {
    r#"{"type":""#@ + kind + r#"","payload":{"value":"#@ + bool_text(value) + "}}"@
}

impl PayloadView {
    /// The payload as JSON text.
    pub open spec fn text(self) -> Seq<char> {
        match self {
            PayloadView::Speed(velocity, acceleration) => speed_text(velocity, acceleration),
            PayloadView::Connect(value) => flag_text("connect"@, value),
            PayloadView::Discover(value) => flag_text("discover"@, value),
            PayloadView::Lane(offset, velocity, acceleration) => r#"{"type":"lane","payload":{"offset":"#@
                + signed_decimal(offset as int) + r#","velocity":"#@ + decimal(velocity as nat)
                + r#","acceleration":"#@ + decimal(acceleration as nat) + "}}"@,
            PayloadView::Lights(front, back) => r#"{"type":"lights","payload":{"front":""#@
                + switch_text(front) + r#"","back":""#@ + switch_text(back) + r#""}}"#@,
            PayloadView::Emergency(value) => flag_text("emergency"@, value),
            PayloadView::Zone200(members) => r#"{"payload":{"value":"#@ + json_list_text(members)
                + r#"},"type":"zone200"}"#@,
        }
    }
}

impl<'a> View for Payload<'a> {
    type V = PayloadView;

    open spec fn view(&self) -> PayloadView {
        match *self {
            Payload::Speed(velocity, acceleration) => PayloadView::Speed(velocity, acceleration),
            Payload::Connect(value) => PayloadView::Connect(value),
            Payload::Discover(value) => PayloadView::Discover(value),
            Payload::Lane(offset, velocity, acceleration) => PayloadView::Lane(
                offset,
                velocity,
                acceleration,
            ),
            Payload::Lights(front, back) => PayloadView::Lights(front, back),
            Payload::Emergency(value) => PayloadView::Emergency(value),
            Payload::Zone200(members) => PayloadView::Zone200(members.deep_view()),
        }
    }
}

fn bool_str(value: bool) -> (r: &'static str)
    ensures
        r@ == bool_text(value),
{
    if value {
        "true"
    } else {
        "false"
    }
}

fn switch_str(lit: bool) -> (r: &'static str)
    ensures
        r@ == switch_text(lit),
{
    if lit {
        "on"
    } else {
        "off"
    }
}

fn flag_string(kind: &str, value: bool) -> (r: String)
    ensures
        r@ == flag_text(kind@, value),
{
    String::from_str(r#"{"type":""#).concat(kind).concat(r#"","payload":{"value":"#).concat(
        bool_str(value),
    ).concat("}}")
}

impl Payload<'_> {
    /// The payload as JSON text.
    pub fn get(&self) -> (r: String)
        ensures
            r@ == self@.text(),
    {
        match self {
            Payload::Speed(velocity, acceleration) => String::from_str(
                r#"{"type":"speed","payload":{"velocity": "#,
            ).concat(signed_decimal_text(*velocity as i32).as_str()).concat(
                r#","acceleration": "#,
            ).concat(decimal_text(*acceleration as u32).as_str()).concat("}}"),
            Payload::Connect(value) => flag_string("connect", *value),
            Payload::Discover(value) => flag_string("discover", *value),
            Payload::Lane(offset, velocity, acceleration) => String::from_str(
                r#"{"type":"lane","payload":{"offset":"#,
            ).concat(signed_decimal_text(*offset as i32).as_str()).concat(
                r#","velocity":"#,
            ).concat(decimal_text(*velocity as u32).as_str()).concat(
                r#","acceleration":"#,
            ).concat(decimal_text(*acceleration as u32).as_str()).concat("}}"),
            Payload::Lights(front, back) => String::from_str(
                r#"{"type":"lights","payload":{"front":""#,
            ).concat(switch_str(*front)).concat(r#"","back":""#).concat(switch_str(*back)).concat(
                r#""}}"#,
            ),
            Payload::Emergency(value) => flag_string("emergency", *value),
            Payload::Zone200(members) => match list_text(*members) {
                Ok(list) => String::from_str(r#"{"payload":{"value":"#).concat(
                    list.as_str(),
                ).concat(r#"},"type":"zone200"}"#),
                Err(_) => unreached(),
            },
        }
    }
}

/// What the relay reads from a command that waits to be relayed.
#[derive(Clone, Copy, Debug, PartialEq, Eq)]
pub enum Command {
    /// A speed command, with the velocity it asks for.
    Speed(i16),
    /// A command of any other type.
    Other,
}

/// The boolean under `payload.value`.
pub open spec fn flag_of(doc: JsonView) -> Option<bool> {
    doc.member("payload"@).member("value"@).as_bool()
}

/// The vehicle ids under `payload.value`: an array that holds nothing but
/// strings.
pub open spec fn members_of(doc: JsonView) -> Option<Seq<Seq<char>>> {
    doc.member("payload"@).member("value"@).as_texts()
}

/// What the relay makes of a command with the type `kind` and the velocity
/// `velocity`, where it has them: a command needs a type, and a command of
/// the type `speed` needs a velocity that fits `i16`.
pub open spec fn classified(kind: Option<Seq<char>>, velocity: Option<i64>) -> Option<Command> {
    match kind {
        None => None,
        Some(kind) => if kind == "speed"@ {
            match velocity {
                Some(velocity) => if i16::MIN <= velocity <= i16::MAX {
                    Some(Command::Speed(velocity as i16))
                } else {
                    None
                },
                None => None,
            }
        } else {
            Some(Command::Other)
        },
    }
}

/// What the relay reads from a pending command: the string under `type` and
/// the integer under `payload.velocity`.
pub open spec fn command_of(doc: JsonView) -> Option<Command> {
    classified(
        doc.member("type"@).as_text(),
        doc.member("payload"@).member("velocity"@).as_i64(),
    )
}

/// The track id under `trackId`, as telemetry carries it.
pub open spec fn track_of(doc: JsonView) -> Option<u64> {
    doc.member("trackId"@).as_u64()
}

/// The strings of an array that holds nothing but strings.
pub(crate) fn texts_of(v: &serde_json::Value) -> (r: Option<Vec<String>>)
    ensures
        r.deep_view() == json_view(*v).as_texts(),
{
    match v.as_array() {
        None => None,
        Some(items) => {
            let ghost views = json_view(*v)->Array_0;
            let mut out: Vec<String> = Vec::new();
            let mut i: usize = 0;
            while i < items.len()
                invariant
                    i <= items.len(),
                    json_view(*v) == JsonView::Array(views),
                    items@.len() == views.len(),
                    forall|j: int| 0 <= j < items.len() ==> json_view(#[trigger] items@[j]) == views[j],
                    out.len() == i,
                    forall|j: int| 0 <= j < i ==> views[j] == JsonView::Text(#[trigger] out@[j]@),
                decreases items.len() - i,
            {
                match items[i].as_str() {
                    Some(s) => {
                        out.push(String::from_str(s));
                    },
                    None => {
                        assert(!(views[i as int] is Text));
                        return None;
                    },
                }
                i += 1;
            }
            proof {
                assert forall|j: int| 0 <= j < views.len() implies (#[trigger] views[j]) is Text by {
                    assert(views[j] == JsonView::Text(out@[j]@));
                }
                assert(out.deep_view() =~= Seq::new(views.len(), |j: int| views[j]->Text_0));
            }
            Some(out)
        },
    }
}

/// The flag of an emergency update.
///
/// `None` where `payload` is no JSON document or holds no boolean under
/// `payload.value`.
pub fn decode_flag(payload: &[u8]) -> (r: Option<bool>)
    ensures
        r == match json_parse(payload@) {
            Some(doc) => flag_of(doc),
            None => None,
        },
{
    match parse(payload) {
        Ok(doc) => member(member(&doc, "payload"), "value").as_bool(),
        Err(_) => None,
    }
}

/// The membership of a zone update.
///
/// `None` where `payload` is no JSON document or holds no array of strings
/// under `payload.value`.
pub fn decode_members(payload: &[u8]) -> (r: Option<Vec<String>>)
    ensures
        r.deep_view() == match json_parse(payload@) {
            Some(doc) => members_of(doc),
            None => None,
        },
{
    match parse(payload) {
        Ok(doc) => texts_of(member(member(&doc, "payload"), "value")),
        Err(_) => None,
    }
}

/// What the relay makes of a command with the type `kind` and the velocity
/// `velocity`, where it has them.
///
/// `None` where the type is missing, or where the type is `speed` and there
/// is no velocity that fits `i16`.
pub fn classify(kind: Option<&str>, velocity: Option<i64>) -> (r: Option<Command>)
    ensures
        r == classified(kind.deep_view(), velocity),
{
    match kind {
        None => None,
        Some(kind) => if same_text(kind, "speed") {
            match velocity {
                Some(velocity) => if -32768 <= velocity && velocity <= 32767 {
                    Some(Command::Speed(velocity as i16))
                } else {
                    None
                },
                None => None,
            }
        } else {
            Some(Command::Other)
        },
    }
}

/// What the relay needs to know of a pending command.
///
/// `None` where `payload` is no JSON document, has no string under `type`,
/// or is a speed command without an integer that fits `i16` under
/// `payload.velocity`.
pub fn decode_command(payload: &[u8]) -> (r: Option<Command>)
    ensures
        r == match json_parse(payload@) {
            Some(doc) => command_of(doc),
            None => None,
        },
{
    match parse(payload) {
        Ok(doc) => classify(
            member(&doc, "type").as_str(),
            member(member(&doc, "payload"), "velocity").as_i64(),
        ),
        Err(_) => None,
    }
}

/// The track id of a telemetry event.
///
/// `None` where `payload` is no JSON document or holds no integer that fits
/// `u64` under `trackId`.
pub fn decode_track(payload: &[u8]) -> (r: Option<u64>)
    ensures
        r == match json_parse(payload@) {
            Some(doc) => track_of(doc),
            None => None,
        },
{
    match parse(payload) {
        Ok(doc) => member(&doc, "trackId").as_u64(),
        Err(_) => None,
    }
}

} // verus!
