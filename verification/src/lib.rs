//! Control core of a network-connected alarm clock.
//!
//! The library keeps wall-clock time by pairing a local monotonic counter with
//! an offset periodically recalibrated against a remote time source, maintains
//! a bounded, id-deduplicated store of alarm definitions fetched from a remote
//! API, and decides once per minute whether any alarm should fire.  All
//! network and hardware I/O lives outside the library; the functions here take
//! fetch outcomes and counter readings as plain values and are verified for
//! every value of them.

use vstd::prelude::*;

pub mod alarm;
pub mod net;
pub mod sched;
pub mod time_lib;

verus! {

} // verus!
