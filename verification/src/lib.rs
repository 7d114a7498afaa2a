//! Handshake, framing and bookkeeping logic of a small ping server and its
//! clients: a client proves to a server that it knows a shared key, tells the
//! server its name, and then pings it at a fixed interval; the server checks
//! the key, reads the name and keeps listening while the pings arrive.

pub mod agreement;
pub mod client;
pub mod config;
pub mod connection;
pub mod metrics;
pub mod server;
pub mod text;
pub mod wire;
