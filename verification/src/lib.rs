//! Client-side session core for a tile-based multiplayer game.
//!
//! The render loop of the game client must never block on the network, so
//! every remote procedure call is bridged through FIFO queues to worker
//! threads, and the client's screen changes are driven by a small state
//! machine that transitions only on drained RPC results.  This crate holds
//! that core, fully verified:
//!
//! * [`messages`] — the plain values that cross the queues: payloads,
//!   responses, notifications, and the failure taxonomy.
//! * [`channel`] — the FIFO queue model that connects the render loop to the
//!   workers.
//! * [`session`] — the session state machine (main menu, character
//!   selection, character creation, field) with its at-most-one-in-flight
//!   submission guards.
//! * [`world`] — the local world view: the player's own character and the
//!   remotely owned ones, reconciled batch by batch from inbound
//!   notifications.
//! * [`tilegrid`] — the render occupancy model: at most one renderable per
//!   occupied grid cell per layer.
//! * [`client`] — the composition of all of the above into one client
//!   model, with both the render-loop side and the worker side of each
//!   queue, so that the ordering and flow-control guarantees are stated and
//!   proved over the whole exchange.

pub mod channel;
pub mod client;
pub mod messages;
pub mod session;
pub mod tilegrid;
pub mod world;
