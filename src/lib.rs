//! Automatic login against the XZMU campus captive portal.
//!
//! The library holds the decisions of the login protocol: finding the
//! portal's redirect in a probe page, reading the session parameters out of
//! the redirect URL, composing the login request and judging connectivity
//! probes. Network and file access are left to the caller.

pub mod model;
pub mod session;
pub mod portal;
pub mod login;
pub mod bootstrap;
