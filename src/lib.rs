//! A two-party, half-duplex message channel laid out inside a shared memory
//! region: the byte layout of the region, the bounds-checked accessors for its
//! payload area, and the decisions that the two ends take when they send,
//! receive and tear down.

pub mod layout;
pub mod channel;
pub mod model;
