//! The clients of the message bus: what each of them decides.
pub mod blink;
pub mod lane;
pub mod relay;
pub mod speed;
pub mod track;
