//! Networking for a pre-boot environment: a blocking TCP byte stream driven
//! through an event-signalled platform transport, and a small DNS resolver
//! that finds its name servers in the boot configuration.
//!
//! The platform itself is never called from here. Every operation is a state
//! machine: it names the next request for the platform, takes the status the
//! platform answered with, and decides what follows.

pub mod error;
pub mod net;
pub mod protocols;
