//! A minimal, transport-agnostic socket abstraction layer.
//!
//! The crate defines the data shapes exchanged between application code and a
//! concrete network-stack backend (a received packet and its addressing), the
//! error taxonomy for send, receive and connect operations, and the capability
//! contract that a blocking backend must satisfy. An in-memory backend shows
//! that the contract is satisfiable and serves as a test double.

pub mod packet;
pub mod socket;
pub mod memory;
