//! Network-facing policies: configuration constants, the facade's response
//! handling, the wireless-join supervisor, and the alarm-fetch coordinator.
//! The transport itself (radio, DNS, TCP, HTTP) is an external collaborator.

pub mod config;
pub mod facade;
pub mod fetch;
pub mod join;
