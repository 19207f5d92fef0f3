//! Device discovery over a small binary packet protocol, and a
//! producer/consumer command-dispatch model.
//!
//! `device` holds the packet codec: framing, CRC-32 checksum validation and
//! device extraction. `discovery` holds the broadcast-then-collect protocol
//! as a state machine driven by transport events. `dispatch` holds the
//! ordered command channel that decouples command sources from the executor.

pub mod device;

pub mod discovery;

pub mod dispatch;

