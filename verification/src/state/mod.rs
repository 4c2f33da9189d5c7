//! State that its producers publish, independent of any protocol.

pub mod battery;
pub mod layer;
