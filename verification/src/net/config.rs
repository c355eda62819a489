use vstd::prelude::*;

verus! {

/// Delay before retrying the wireless join after a failed attempt, in seconds.
pub const RETRY_DELAY_S: u64 = 5;

/// Interval between periodic time synchronizations, in seconds.
pub const TIME_SYNC_INTERVAL_S: u64 = 3600;

/// Interval between periodic alarm fetches, in seconds.
pub const API_POLLING_INTERVAL_S: u64 = 3600;

/// Interval between link health checks once the network is joined, in seconds.
pub const CONNECTED_CHECK_INTERVAL_S: u64 = 30;

/// Largest HTTP response body the facade accepts, in bytes.
pub const RESPONSE_BUFFER_SIZE: usize = 4096;

/// Maximum number of alarms the store holds.
pub const ALARM_CAPACITY: usize = 8;

/// Depth of the manual fetch-request signal queue; excess requests are dropped.
pub const FETCH_REQUEST_QUEUE_DEPTH: u8 = 2;

} // verus!
