//! Coordination of a fleet of remotely driven model vehicles over a
//! publish/subscribe message bus.
//!
//! The crate holds the decisions of the fleet coordinator and leaves the
//! transport to its user: every component takes the messages that arrived and
//! answers with the messages to publish.
//!
//! * [`Topic`] and [`Payload`] are the wire schema: every address and every
//!   payload text that the components exchange.
//! * [`Relay`] forwards pending commands to the vehicles and lays the
//!   emergency stop and the slow zones over them.
//! * [`Track`] derives the slow-zone membership from track telemetry and
//!   announces it when it changes.
//! * [`Blink`], [`Speed`] and [`Lane`] produce the periodic commands.
pub mod client;
pub mod library;

pub use self::client::{blink::Blink, lane::Lane, relay::Relay, speed::Speed, track::Track};
pub use self::library::{
    message::Message,
    payload::{Command, Payload},
    topic::Topic,
    util::{connect_vehicles, discover_vehicles, discovery_request},
};
