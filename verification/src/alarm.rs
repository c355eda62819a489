//! Alarm definitions and the bounded, id-keyed alarm store.

pub mod model;
pub mod store;
