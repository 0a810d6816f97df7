//! A small datagram relay: an envelope codec over JSON text, a sender that
//! prepares outgoing datagrams, and the lifecycle rules of a single receive
//! endpoint with its background receive loop.
//!
//! Everything here is a decision or a computation on plain values; sockets,
//! clocks and tasks belong to the program that drives this library.

pub mod json;
pub mod text;
pub mod envelope;
pub mod sender;
pub mod controller;
pub mod listener;
