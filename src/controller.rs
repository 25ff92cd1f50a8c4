//! The sensor stage: sample synthesis, and filtering with the anomaly check.
use crate::anomaly::{is_anomalous, sample_is_anomalous};
use crate::data_structure::{
    fixed_product, now_micros, scaled_product, ElbowData, FeedbackData, ObjectData, SensorArmData,
    ShoulderData, WristData,
};
use crate::filter::{mean_of, slide, Filters, MovingAverage};
use vstd::prelude::*;

verus! {

/// The average that filter `f` reports once `v` arrives.
pub open spec fn filtered(f: MovingAverage, v: i64) -> int {
    mean_of(slide(f@, v))
}

/// The sample that the filter bank `f` makes of `raw`: each tracked reading
/// replaced by its filter's new average, the arm strength recomputed from the
/// averages, everything else kept.
pub open spec fn filtered_sample(raw: SensorArmData, f: Filters) -> SensorArmData {
    let v = filtered(f.arm_velocity_filter, raw.arm_velocity);
    let m = filtered(f.object_mass_filter, raw.object_data.object_mass);
    SensorArmData {
        wrist: WristData {
            wrist_x: filtered(f.wrist_x_filter, raw.wrist.wrist_x) as i64,
            wrist_y: filtered(f.wrist_y_filter, raw.wrist.wrist_y) as i64,
        },
        joints: ShoulderData {
            shoulder_x: filtered(f.shoulder_x_filter, raw.joints.shoulder_x) as i64,
            shoulder_y: filtered(f.shoulder_y_filter, raw.joints.shoulder_y) as i64,
        },
        elbow: ElbowData {
            elbow_x: filtered(f.elbow_x_filter, raw.elbow.elbow_x) as i64,
            elbow_y: filtered(f.elbow_y_filter, raw.elbow.elbow_y) as i64,
        },
        arm_velocity: v as i64,
        arm_strength: fixed_product(v, m) as i64,
        object_data: ObjectData {
            object_velocity: filtered(
                f.object_velocity_filter,
                raw.object_data.object_velocity,
            ) as i64,
            object_mass: m as i64,
            object_size: filtered(f.object_size_filter, raw.object_data.object_size) as i64,
            object_x: filtered(f.object_x_filter, raw.object_data.object_x) as i64,
            object_y: filtered(f.object_y_filter, raw.object_data.object_y) as i64,
            object_height: filtered(f.object_height_filter, raw.object_data.object_height) as i64,
        },
        ..raw
    }
}

/// Every filter of `f1` has taken in its reading of `raw` after `f0`.
pub open spec fn bank_took(f0: Filters, f1: Filters, raw: SensorArmData) -> bool {
    &&& f1.wrist_x_filter@ == slide(f0.wrist_x_filter@, raw.wrist.wrist_x)
    &&& f1.wrist_y_filter@ == slide(f0.wrist_y_filter@, raw.wrist.wrist_y)
    &&& f1.shoulder_x_filter@ == slide(f0.shoulder_x_filter@, raw.joints.shoulder_x)
    &&& f1.shoulder_y_filter@ == slide(f0.shoulder_y_filter@, raw.joints.shoulder_y)
    &&& f1.elbow_x_filter@ == slide(f0.elbow_x_filter@, raw.elbow.elbow_x)
    &&& f1.elbow_y_filter@ == slide(f0.elbow_y_filter@, raw.elbow.elbow_y)
    &&& f1.arm_velocity_filter@ == slide(f0.arm_velocity_filter@, raw.arm_velocity)
    &&& f1.object_velocity_filter@ == slide(
        f0.object_velocity_filter@,
        raw.object_data.object_velocity,
    )
    &&& f1.object_mass_filter@ == slide(f0.object_mass_filter@, raw.object_data.object_mass)
    &&& f1.object_size_filter@ == slide(f0.object_size_filter@, raw.object_data.object_size)
    &&& f1.object_x_filter@ == slide(f0.object_x_filter@, raw.object_data.object_x)
    &&& f1.object_y_filter@ == slide(f0.object_y_filter@, raw.object_data.object_y)
    &&& f1.object_height_filter@ == slide(
        f0.object_height_filter@,
        raw.object_data.object_height,
    )
}

/// Runs every tracked reading of `raw` through its filter, recomputes the arm
/// strength from the filtered velocity and mass, and reports whether the
/// filtered sample is anomalous.
pub fn process_sensor_data(raw: SensorArmData, filters: &mut Filters) -> (r: (
    SensorArmData,
    bool,
))
    requires
        old(filters).wf(),
        raw.readings_within_limit(),
    ensures
        final(filters).wf(),
        bank_took(*old(filters), *final(filters), raw),
        r.0 == filtered_sample(raw, *old(filters)),
        r.1 == sample_is_anomalous(r.0),
{
    let mut out = raw;
    out.wrist.wrist_x = filters.wrist_x_filter.update(raw.wrist.wrist_x);
    out.wrist.wrist_y = filters.wrist_y_filter.update(raw.wrist.wrist_y);
    out.joints.shoulder_x = filters.shoulder_x_filter.update(raw.joints.shoulder_x);
    out.joints.shoulder_y = filters.shoulder_y_filter.update(raw.joints.shoulder_y);
    out.elbow.elbow_x = filters.elbow_x_filter.update(raw.elbow.elbow_x);
    out.elbow.elbow_y = filters.elbow_y_filter.update(raw.elbow.elbow_y);
    out.arm_velocity = filters.arm_velocity_filter.update(raw.arm_velocity);
    out.object_data.object_x = filters.object_x_filter.update(raw.object_data.object_x);
    out.object_data.object_y = filters.object_y_filter.update(raw.object_data.object_y);
    out.object_data.object_mass = filters.object_mass_filter.update(raw.object_data.object_mass);
    out.object_data.object_size = filters.object_size_filter.update(raw.object_data.object_size);
    out.object_data.object_velocity = filters.object_velocity_filter.update(
        raw.object_data.object_velocity,
    );
    out.object_data.object_height = filters.object_height_filter.update(
        raw.object_data.object_height,
    );
    out.arm_strength = scaled_product(out.arm_velocity, out.object_data.object_mass);
    let anomaly = is_anomalous(&out);
    (out, anomaly)
}

/// The arm's starting pose, bent at a right angle: the shoulder one unit up,
/// the elbow and wrist one unit forward; no object in view.
pub fn sensor() -> (r: SensorArmData)
    ensures
        r.joints == (ShoulderData { shoulder_x: 0, shoulder_y: 1000 }),
        r.elbow == (ElbowData { elbow_x: 1000, elbow_y: 0 }),
        r.wrist == (WristData { wrist_x: 1000, wrist_y: 0 }),
        r.object_data == (ObjectData {
            object_velocity: 0,
            object_mass: 0,
            object_size: 0,
            object_x: 0,
            object_y: 0,
            object_height: 0,
        }),
        r.arm_velocity == 0,
        r.arm_strength == 0,
{
    let mut arm_data = SensorArmData::new(
        ObjectData {
            object_velocity: 0,
            object_mass: 0,
            object_size: 0,
            object_x: 0,
            object_y: 0,
            object_height: 0,
        },
    );
    arm_data.joints = ShoulderData { shoulder_x: 0, shoulder_y: 1000 };
    arm_data.elbow = ElbowData { elbow_x: 1000, elbow_y: 0 };
    arm_data.wrist = WristData { wrist_x: 1000, wrist_y: 0 };
    arm_data.arm_velocity = 0;
    arm_data.arm_strength = 0;
    arm_data
}

/// Relies on `fastrand::i64` over the inclusive range `low..=high`: a value of
/// that range (it panics only when the range is empty).
#[verifier::external_body]
fn random_between(low: i64, high: i64) -> (r: i64)
    requires
        low <= high,
    ensures
        low <= r <= high,
{
    fastrand::i64(low..=high)
}

/// Every cycle whose number is a multiple of this sees an obstruction.
pub const ANOMALY_PERIOD: u64 = 10;

/// An object of the normal population: a falling object of the expected kind.
pub open spec fn is_normal_object(o: ObjectData) -> bool {
    &&& 9800 <= o.object_velocity <= 11_800
    &&& 1000 <= o.object_mass <= 5000
    &&& 4000 <= o.object_size <= 5000
    &&& 4000 <= o.object_x <= 7000
    &&& -5000 <= o.object_y <= 5000
}

/// An object of the anomalous population: a slow, heavy, large obstruction
/// such as a hand.
pub open spec fn is_obstruction(o: ObjectData) -> bool {
    &&& 0 <= o.object_velocity <= 1000
    &&& 100_000 <= o.object_mass <= 600_000
    &&& 10_000 <= o.object_size <= 30_000
    &&& 7000 <= o.object_x <= 10_000
    &&& 7000 <= o.object_y <= 11_000
}

/// A random obstruction; its height is filled in later.
pub fn generate_anomalous_object_data() -> (r: ObjectData)
    ensures
        is_obstruction(r),
        r.object_height == 0,
{
    ObjectData {
        object_velocity: random_between(0, 1000),
        object_mass: random_between(100_000, 600_000),
        object_size: random_between(10_000, 30_000),
        object_x: random_between(7000, 10_000),
        object_y: random_between(7000, 11_000),
        object_height: 0,
    }
}

/// A random falling object; its height is filled in later.
pub fn generate_normal_object_data() -> (r: ObjectData)
    ensures
        is_normal_object(r),
        r.object_height == 0,
{
    ObjectData {
        object_velocity: random_between(9800, 11_800),
        object_mass: random_between(1000, 5000),
        object_size: random_between(4000, 5000),
        object_x: random_between(4000, 7000),
        object_y: random_between(-5000, 5000),
        object_height: 0,
    }
}

pub open spec fn clamp(v: int, lo: int, hi: int) -> int {
    if v < lo {
        lo
    } else if v > hi {
        hi
    } else {
        v
    }
}

/// `val` brought into `[min, max]`.
pub fn branchless_clamp(val: i64, min: i64, max: i64) -> (r: i64)
    requires
        min <= max,
    ensures
        r == clamp(val as int, min as int, max as int),
{
    let lifted = if val < min {
        min
    } else {
        val
    };
    if lifted > max {
        max
    } else {
        lifted
    }
}

/// Largest magnitude of a segment displacement (a hundred thousand units).
pub const SEGMENT_LIMIT: i64 = 100_000_000;

/// The displacements that forward kinematics gives for one arm draw: the
/// elbow relative to the shoulder (`l1` along `θ1`) and the wrist relative to
/// the elbow (`l2` along `θ1 + θ2`).
#[derive(Clone, Copy, Debug, PartialEq, Eq)]
pub struct SegmentOffsets {
    pub upper_dx: i64,
    pub upper_dy: i64,
    pub fore_dx: i64,
    pub fore_dy: i64,
}

impl SegmentOffsets {
    pub open spec fn within_limit(&self) -> bool {
        &&& -SEGMENT_LIMIT <= self.upper_dx <= SEGMENT_LIMIT
        &&& -SEGMENT_LIMIT <= self.upper_dy <= SEGMENT_LIMIT
        &&& -SEGMENT_LIMIT <= self.fore_dx <= SEGMENT_LIMIT
        &&& -SEGMENT_LIMIT <= self.fore_dy <= SEGMENT_LIMIT
    }
}

/// Every coordinate of the pose is at most `SEGMENT_LIMIT` in magnitude.
pub open spec fn pose_within_limit(fb: FeedbackData) -> bool {
    &&& -SEGMENT_LIMIT <= fb.wrist.wrist_x <= SEGMENT_LIMIT
    &&& -SEGMENT_LIMIT <= fb.wrist.wrist_y <= SEGMENT_LIMIT
    &&& -SEGMENT_LIMIT <= fb.joints.shoulder_x <= SEGMENT_LIMIT
    &&& -SEGMENT_LIMIT <= fb.joints.shoulder_y <= SEGMENT_LIMIT
    &&& -SEGMENT_LIMIT <= fb.elbow.elbow_x <= SEGMENT_LIMIT
    &&& -SEGMENT_LIMIT <= fb.elbow.elbow_y <= SEGMENT_LIMIT
}

/// What every sample of cycle `cycle` satisfies, given the feedback and the
/// segment displacements it was made from.
pub open spec fn synthesized(
    r: SensorArmData,
    cycle: u64,
    feedback: Option<FeedbackData>,
    offsets: SegmentOffsets,
) -> bool {
    &&& if cycle % ANOMALY_PERIOD == 0 {
        is_obstruction(r.object_data)
    } else {
        is_normal_object(r.object_data)
    }
    &&& match feedback {
        Some(fb) => {
            &&& r.joints == fb.joints
            &&& r.elbow == fb.elbow
            &&& r.wrist == fb.wrist
        },
        None => {
            &&& 0 <= r.joints.shoulder_x <= 1000
            &&& -1500 <= r.joints.shoulder_y <= 1500
            &&& r.elbow.elbow_x == clamp(r.joints.shoulder_x + offsets.upper_dx, 0, 7000)
            &&& r.elbow.elbow_y == clamp(r.joints.shoulder_y + offsets.upper_dy, -1500, 1500)
            &&& r.wrist.wrist_x == if r.elbow.elbow_x + offsets.fore_dx < r.joints.shoulder_x {
                r.joints.shoulder_x as int
            } else {
                r.elbow.elbow_x + offsets.fore_dx
            }
            &&& r.wrist.wrist_y == clamp(r.elbow.elbow_y + offsets.fore_dy, -1500, 1500)
        },
    }
    &&& 0 <= r.arm_velocity <= 10_000
    &&& r.arm_strength == fixed_product(r.arm_velocity as int, r.object_data.object_mass as int)
    &&& r.object_data.object_height == r.joints.shoulder_y + offsets.upper_dy + offsets.fore_dy
    &&& r.arm_length == 10
}

/// Produces the raw sample of cycle `cycle`. Every `ANOMALY_PERIOD`-th cycle
/// sees an obstruction, the others a falling object. With feedback the arm is where
/// the actuator last left it; without, the shoulder is drawn at random and the
/// elbow and wrist follow from `offsets`, each kept inside its envelope.
pub fn generate_sensor_data(
    cycle: u64,
    feedback: Option<FeedbackData>,
    offsets: SegmentOffsets,
) -> (r: SensorArmData)
    requires
        offsets.within_limit(),
        feedback matches Some(fb) ==> pose_within_limit(fb),
    ensures
        synthesized(r, cycle, feedback, offsets),
        r.readings_within_limit(),
{
    let object_data = if cycle % ANOMALY_PERIOD == 0 {
        generate_anomalous_object_data()
    } else {
        generate_normal_object_data()
    };
    let mut sample = SensorArmData::new(object_data);
    sample.update_object_data(object_data);
    match feedback {
        Some(fb) => {
            sample.joints = fb.joints;
            sample.elbow = fb.elbow;
            sample.wrist = fb.wrist;
        },
        None => {
            sample.joints.shoulder_x = random_between(0, 1000);
            sample.joints.shoulder_y = random_between(-1500, 1500);
            sample.elbow.elbow_x = branchless_clamp(
                sample.joints.shoulder_x + offsets.upper_dx,
                0,
                7000,
            );
            sample.elbow.elbow_y = branchless_clamp(
                sample.joints.shoulder_y + offsets.upper_dy,
                -1500,
                1500,
            );
            sample.wrist.wrist_x = sample.elbow.elbow_x + offsets.fore_dx;
            if sample.wrist.wrist_x < sample.joints.shoulder_x {
                sample.wrist.wrist_x = sample.joints.shoulder_x;
            }
            sample.wrist.wrist_y = branchless_clamp(
                sample.elbow.elbow_y + offsets.fore_dy,
                -1500,
                1500,
            );
        },
    }
    sample.arm_velocity = random_between(0, 10_000);
    sample.arm_strength = scaled_product(sample.arm_velocity, sample.object_data.object_mass);
    sample.object_data.object_height = sample.joints.shoulder_y + offsets.upper_dy
        + offsets.fore_dy;
    sample.timestamp = now_micros();
    sample
}

} // verus!
