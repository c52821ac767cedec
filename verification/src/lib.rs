//! Verified core of the Catdex family of small web services: the data they
//! serve, the replies they build, and the decisions of the websocket
//! heartbeat that watches an unresponsive client.
use vstd::prelude::*;

pub mod catalog;
pub mod chat;
pub mod errors;
pub mod greeting;
pub mod heartbeat;
pub mod json;
pub mod models;
pub mod scaffold;
pub mod text;

verus! {
}
