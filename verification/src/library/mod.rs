//! The wire schema and the helpers shared by every client.
pub mod json;
pub mod message;
pub mod payload;
pub mod text;
pub mod topic;
pub mod util;
