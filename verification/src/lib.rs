//! A TCP tunnel: a client exposes ports of its own host through a server that
//! listens for it. This library holds what the two sides decide; the program
//! around it opens the sockets, waits and moves the bytes.
//!
//! Each side is a machine that is told how things came out and says what to do
//! next: `forward` for the clients that a command starts, `client` for one client,
//! `session` for one control connection of a server. `history`, `service` and
//! `tunnel` state what holds of a whole session, of a server with all its sessions,
//! and of the two sides together.
pub mod client;
pub mod command;
pub mod forward;
pub mod history;
pub mod ip_range;
pub mod random;
pub mod registry;
pub mod server;
pub mod service;
pub mod session;
pub mod shared;
pub mod text;
pub mod tunnel;
