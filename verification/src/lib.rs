//! Planning poker: rooms in which players vote at the same time on a value
//! from a deck, with the votes hidden until every voter has voted.
//!
//! The engine is a set of state machines. Each takes one message or event,
//! moves to its next state, and returns what its owner has to do: messages
//! to deliver, events to log, timers to arm. Who owns a state machine owns
//! the mailboxes, the sockets and the event store.
//!
//! - [`room`]: one room, its members, their votes and the reveal.
//! - [`player`]: one connected participant, between its client and its room.
//! - [`game_server`]: the registry of live rooms.
//! - [`remote`]: the messages between client and player, and the ping.
//! - [`ids`]: how the ids of rooms and players are made.
//! - [`ports`]: what the engine needs to know of the event store.
//! - [`assets`] and [`web`]: the rules of the HTTP front-end that need no
//!   HTTP.

pub mod assets;
pub mod game_server;
pub mod ids;
pub mod player;
pub mod ports;
pub mod remote;
pub mod room;
pub mod text;
pub mod web;
