//! Minimal FTP server (RFC 959, passive mode only) exposing the SD card.
//!
//! The server does no input or output of its own: it says what is to be asked of
//! the sockets and of the card, and takes the answers. One control connection at
//! a time; the data channel uses a fixed passive listener on port 20.
//!
//! Limits: uploads and MKD accept 8.3 short names only (reading and listing long
//! names works), no rename, and only empty directories can be removed. Time
//! stamps are local time from the network clock.

pub mod path;
pub mod listing;
pub mod name;
pub mod job;
pub mod session;
pub mod command;
pub mod server;
pub mod laws;
pub mod whole;
pub mod errands;
pub mod rounds;
