//! A configuration and bootstrap library for the edge node of the n2n
//! peer-to-peer VPN.
//!
//! The library holds the decisions an edge makes while it is configured and
//! brought up: how the edge configuration is assembled from a community name,
//! an encryption key and a supernode address, how the answer of the
//! configuration check is turned into an error, how fixed-size C character
//! buffers are filled and read, the default tun/tap settings, and the runlevel
//! machine that registers the edge with its supernode before the tun/tap
//! device is opened.

pub mod edge;
pub mod tuntap;
pub mod util;

pub use crate::util::error::N2NError;
