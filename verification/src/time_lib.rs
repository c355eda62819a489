//! Clock synchronization: time samples from the remote source and the
//! offset-based clock derived from them.

pub mod model;
pub mod time;
