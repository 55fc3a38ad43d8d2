//! Server-authoritative core of a multiplayer room platform.
//!
//! A room holds up to [`types::MAX_PLAYERS`] seats. Clients submit
//! [`types::ClientEvent`]s; the server decides with
//! [`logic::validate_client_event`] whether each is legal and answers the
//! legal ones with [`types::ServerEvent`]s. Every server event is replayed
//! by [`logic::handle_server_event`] on the server's room and on every
//! client's copy, so that all copies stay equal.
//!
//! - [`types`]: rooms, players and the two event alphabets.
//! - [`logic`]: validation, replay, and what the server sends for a client
//!   event.
//! - [`traits`], [`games`]: the interface of a rule set, and the rule sets.
//! - [`connection`], [`server`]: the seats of one room and the channels to
//!   the clients in them.
//! - [`lifecycle`], [`directory`], [`endpoint`]: the course of a
//!   connection, the rooms of a server, and what a client presents to be
//!   let in.
//! - [`client`], [`seats`]: a client's copy of the room, and where it
//!   shows the players.

pub mod client;
pub mod connection;
pub mod directory;
pub mod endpoint;
pub mod games;
pub mod helpers;
pub mod lifecycle;
pub mod logic;
pub mod seats;
pub mod server;
pub mod traits;
pub mod types;
