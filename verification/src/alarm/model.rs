use vstd::prelude::*;

verus! {

/// When an alarm repeats.  The pattern type is carried opaquely ("daily",
/// "weekly", "custom"); `days` and `custom_dates` are its parameters.  Their
/// interpretation is a consumer concern, not part of the scheduling core.
#[derive(Debug, Clone)]
pub struct RecurrencePattern {
    pub reccurence_type: String,
    pub days: Option<Vec<u8>>,
    pub custom_dates: Option<String>,
}

/// How an alarm ramps its output.  Carried opaquely by this core; control
/// points are pairs of raw bit patterns of the consumer's sample values.
#[derive(Debug, Clone)]
pub struct IntensityCurve {
    pub start_intensity: u8,
    pub end_intensity: u8,
    pub curve: String,
    pub hyper_parameter: Option<u8>,
    pub control_points: Option<Vec<(u32, u32)>>,
}

/// One alarm definition as fetched from the remote API.  Identity is `id`;
/// every other field may change between fetches for the same id.  Only
/// `is_active` and `time` (a "HH:MM" time of day) gate evaluation.
#[derive(Debug, Clone)]
pub struct Alarm {
    pub id: String,
    pub created_at: String,
    pub updated_at: String,
    pub name: String,
    pub time: String,
    pub color: String,
    pub length: u16,
    pub is_active: bool,
    pub intensity_curve: IntensityCurve,
    pub recurrence: RecurrencePattern,
}

} // verus!
