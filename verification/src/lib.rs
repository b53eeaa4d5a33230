//! The verified core of a small UDP game server and of its load-testing client.
//!
//! The server receives protobuf-encoded game events from players, queues them in arrival
//! order, applies them to the game state once per tick and broadcasts the resulting updates.
//! This crate holds the parts of that which are plain logic: the message queue, the player
//! roster, the datagram framing, the event types, and the client's send schedule.
//! Networking, timers, protobuf coding and all floating-point arithmetic live in the
//! accompanying application.

pub mod ieee754;
pub mod address;
pub mod networking;
pub mod geometry;
pub mod input_messages;
pub mod ids;
pub mod output_messages;
pub mod entities;
pub mod game_info;
pub mod message_queue;
pub mod inbound_server;
pub mod utility;
pub mod bullet;
pub mod client;
