use vstd::prelude::*;

verus! {

/// One successful answer from the remote time source: an absolute wall-clock
/// timestamp (seconds since the Unix epoch) together with the source's UTC
/// offset in minutes.  It is consumed immediately to recalibrate the clock
/// offset and then discarded.
#[derive(Debug, Clone, Copy, PartialEq, Eq, Structural)]
pub struct ApiTimeType {
    pub utc_offset: i16,
    pub timestamp: u64,
}

} // verus!
