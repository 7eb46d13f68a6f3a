//! Fixed-layout datagrams exchanged between bitcomm clients: client
//! identities, message and command datagram headers and their byte layouts.

pub mod layout;
pub mod client;
pub mod datagram;
pub mod group;
