//! Room broker and session protocol of a real-time group chat.
//!
//! The [`lobby::Lobby`] owns every room and the registry of connected
//! sessions. Each request it handles yields the list of events to deliver,
//! addressed by session id. A [`ws::ChatWebsocket`] is the protocol state of
//! one connection: it turns inbound frames into lobby requests and watches
//! the heartbeat.
pub mod clock;
mod collect;
pub mod ident;
pub mod laws;
pub mod lobby;
pub mod messages;
pub mod model;
pub mod proto;
pub mod rooms;
pub mod ws;
