//! Verified core of a video-capture device abstraction.
//!
//! The crate holds the decisions of the device protocol: how a device node is
//! named and opened, how the controls a driver reports are enumerated and
//! described, how a single control value is read, and how a batch of control
//! values is checked and laid out for one atomic update. It performs no system
//! call itself. Every operation that needs the kernel is split into a request,
//! which the embedding program carries out, and a reply, which it hands back.

pub mod batch;
pub mod capability;
pub mod control;
pub mod device;
pub mod enumerate;
pub mod error;
pub mod node;
pub mod request;
pub mod trace;
pub mod fdset;
pub mod fetch;
