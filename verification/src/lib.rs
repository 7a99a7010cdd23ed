//! A dynamic-DNS synchronization agent, as a library of decisions.
//!
//! The agent keeps one DNS "A" record pointed at the host's public IPv4
//! address. Everything it decides lives here: which zone a name belongs to,
//! which requests go to the DNS provider, what a reply means, and when the
//! record has to be rewritten. Sending the requests, asking for the public
//! address and sleeping between rounds are left to the program around it.

pub mod address;
pub mod config;
pub mod domain;
pub mod error;
pub mod json;
pub mod provider;
pub mod startup;
pub mod state;
pub mod sync;
