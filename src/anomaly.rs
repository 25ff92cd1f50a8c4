//! Range checks that flag a sample as anomalous.
use crate::data_structure::SensorArmData;
use vstd::prelude::*;

verus! {

pub open spec fn out_of_range(value: int, lower: int, upper: int) -> bool {
    value < lower || value > upper
}

/// Whether `value` lies outside `[lower, upper]`; the answer depends on the
/// three arguments alone.
pub fn detect_anomaly(value: i64, lower: i64, upper: i64) -> (r: bool)
    ensures
        r == out_of_range(value as int, lower as int, upper as int),
{
    value < lower || value > upper
}

/// A sample is anomalous when any of its checked readings leaves its
/// operating range (all in thousandths).
pub open spec fn sample_is_anomalous(s: SensorArmData) -> bool {
    ||| out_of_range(s.arm_strength as int, 0, 50_000)
    ||| out_of_range(s.wrist.wrist_x as int, 0, 7000)
    ||| out_of_range(s.wrist.wrist_y as int, -7000, 7000)
    ||| out_of_range(s.joints.shoulder_x as int, 0, 7000)
    ||| out_of_range(s.joints.shoulder_y as int, -7000, 7000)
    ||| out_of_range(s.elbow.elbow_x as int, 0, 7000)
    ||| out_of_range(s.elbow.elbow_y as int, -7000, 7000)
    ||| out_of_range(s.object_data.object_mass as int, 1000, 5000)
    ||| out_of_range(s.object_data.object_size as int, 4000, 5000)
    ||| out_of_range(s.object_data.object_velocity as int, 9800, 11_800)
}

pub fn is_anomalous(s: &SensorArmData) -> (r: bool)
    ensures
        r == sample_is_anomalous(*s),
{
    detect_anomaly(s.arm_strength, 0, 50_000)
        || detect_anomaly(s.wrist.wrist_x, 0, 7000)
        || detect_anomaly(s.wrist.wrist_y, -7000, 7000)
        || detect_anomaly(s.joints.shoulder_x, 0, 7000)
        || detect_anomaly(s.joints.shoulder_y, -7000, 7000)
        || detect_anomaly(s.elbow.elbow_x, 0, 7000)
        || detect_anomaly(s.elbow.elbow_y, -7000, 7000)
        || detect_anomaly(s.object_data.object_mass, 1000, 5000)
        || detect_anomaly(s.object_data.object_size, 4000, 5000)
        || detect_anomaly(s.object_data.object_velocity, 9800, 11_800)
}

} // verus!
