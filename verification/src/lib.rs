//! Keyboard System Status: the nodes of a keyboard, their batteries, and the
//! active layers, as published to a connected host.
//!
//! The wire format is keyboard-independent. Applications provide an ordered
//! list of nodes and select where each node's battery value comes from.

pub mod behaviour;
pub mod bits;
pub mod fixed_vec;
pub mod laws;
pub mod node;
pub mod server;
pub mod signal;
pub mod state;
pub mod status;
