//! Configuration logic for the PAAP arcade pedal: the serial protocol that the
//! pedal speaks, the connection state kept by the configurator, and the
//! decisions behind its window, each with a verified contract.

pub mod config;
pub mod protocol;
pub mod connection;
pub mod exchange;
pub mod handshake;
pub mod key_update;
pub mod ports;
pub mod icon;
pub mod configurator;
