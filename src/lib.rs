//! Core of a relay between a gateway chat room and a line-oriented TCP chat
//! server: the login handshake, the classification of what the server sends,
//! and the filtering and framing of what the gateway delivers.
pub mod handshake;
pub mod inbound;
pub mod outbound;
pub mod text;
