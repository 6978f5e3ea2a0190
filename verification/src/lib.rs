//! The decisions of a small operator for `Device` custom resources.
//!
//! The operator itself talks to a cluster: it lists, creates, deletes and
//! watches devices. What it decides on the way is kept here, free of any
//! cluster: the shape of a device, how a refused request is reported, and what
//! is done with each item of the watch feed.

pub mod device;
pub mod error;
pub mod operator;
pub mod watch;
