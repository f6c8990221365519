//! Bridges a jog-wheel control surface to the remote-control protocol of a
//! notation editor: session handshake, key routing, jog integration and the
//! single-consumer event loop that ties them together.
pub mod bridge;
pub mod command;
pub mod handshake;
pub mod jog;
pub mod json;
pub mod router;
