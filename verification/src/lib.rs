//! A small library modelling heterogeneous connection kinds (TCP, UDP,
//! local in-process) as a closed variant type, with a dispatcher that
//! renders diagnostic lines and applies one insecure-port warning rule.
//!
//! All behaviour is pure: the library computes the exact text that a
//! caller may print. No networking is performed.

pub mod connection;
pub mod dispatch;
pub mod render;
