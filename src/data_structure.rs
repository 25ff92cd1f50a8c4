//! The records that flow through the pipeline.
use crate::filter::{quot_toward_zero, within_limit};
use vstd::prelude::*;

verus! {

/// Relies on `SystemTime::elapsed` applied to `UNIX_EPOCH`: the time since
/// the epoch in microseconds, or `None` when the clock reads before the epoch.
#[verifier::external_body]
fn micros_since_epoch() -> (r: Option<u128>) {
    std::time::UNIX_EPOCH.elapsed().ok().map(|d| d.as_micros())
}

/// Microseconds since the Unix epoch on the system clock; a clock set before
/// the epoch reads as zero.
pub fn now_micros() -> u128 {
    match micros_since_epoch() {
        Some(t) => t,
        None => 0,
    }
}

/// Product of two fixed-point readings, in the same thousandths, rounded
/// toward zero.
pub open spec fn fixed_product(a: int, b: int) -> int {
    quot_toward_zero(a * b, 1000)
}

/// The product of two fixed-point readings, as `fixed_product` states it.
pub fn scaled_product(a: i64, b: i64) -> (r: i64)
    requires
        within_limit(a as int),
        within_limit(b as int),
    ensures
        r == fixed_product(a as int, b as int),
{
    proof {
        assert(-1_000_000_000_000_000_000 <= a * b <= 1_000_000_000_000_000_000) by (nonlinear_arith)
            requires
                -1_000_000_000 <= a <= 1_000_000_000,
                -1_000_000_000 <= b <= 1_000_000_000,
        ;
    }
    let p = a * b;
    if p >= 0 {
        p / 1000
    } else {
        -((-p) / 1000)
    }
}

/// The falling object as the sensor sees it.
#[derive(Clone, Copy, Debug, PartialEq, Eq)]
pub struct ObjectData {
    pub object_velocity: i64,
    pub object_mass: i64,
    pub object_size: i64,
    pub object_x: i64,
    pub object_y: i64,
    /// Vertical clearance between the arm's base and the object.
    pub object_height: i64,
}

#[derive(Clone, Copy, Debug, PartialEq, Eq)]
pub struct WristData {
    pub wrist_x: i64,
    pub wrist_y: i64,
}

#[derive(Clone, Copy, Debug, PartialEq, Eq)]
pub struct ShoulderData {
    pub shoulder_x: i64,
    pub shoulder_y: i64,
}

#[derive(Clone, Copy, Debug, PartialEq, Eq)]
pub struct ElbowData {
    pub elbow_x: i64,
    pub elbow_y: i64,
}

/// One sample of the arm and the object.
#[derive(Clone, Copy, Debug, PartialEq, Eq)]
pub struct SensorArmData {
    pub object_data: ObjectData,
    pub wrist: WristData,
    pub joints: ShoulderData,
    pub elbow: ElbowData,
    pub arm_velocity: i64,
    /// Arm velocity times object mass, a proxy for the force the catch needs.
    pub arm_strength: i64,
    pub arm_length: i32,
    pub timestamp: u128,
}

/// A move order for one joint.
#[derive(Clone, Copy, Debug, PartialEq, Eq)]
pub struct ActuatorInstruction {
    pub x: i64,
    pub y: i64,
    pub strength: i64,
    /// Microseconds the move is expected to take.
    pub time_to_reach: u64,
    pub timestamp: u128,
}

/// Where the arm ended up after a cycle, sent back to the sensor stage.
#[derive(Clone, Copy, Debug, PartialEq, Eq)]
pub struct FeedbackData {
    pub wrist: WristData,
    pub joints: ShoulderData,
    pub elbow: ElbowData,
    /// Estimated time, in microseconds since the epoch, at which the object lands.
    pub arrived_at_ground: u128,
    pub timestamp: u128,
}

/// One latency measurement for the metrics sink.
#[derive(Clone, Debug, PartialEq, Eq)]
pub struct LogEntry {
    pub task: String,
    /// Microseconds.
    pub latency: u128,
}

impl SensorArmData {
    /// A sample of `object_data` with the arm in its resting pose.
    pub fn new(object_data: ObjectData) -> (r: SensorArmData)
        ensures
            r.object_data == object_data,
            r.joints == (ShoulderData { shoulder_x: 0, shoulder_y: 0 }),
            r.elbow == (ElbowData { elbow_x: 0, elbow_y: 3000 }),
            r.wrist == (WristData { wrist_x: 0, wrist_y: 3000 }),
            r.arm_velocity == 1000,
            r.arm_strength == 10_000,
            r.arm_length == 10,
            r.timestamp == 0,
    {
        let joints = ShoulderData { shoulder_x: 0, shoulder_y: 0 };
        let elbow = ElbowData { elbow_x: 0, elbow_y: 3000 };
        let wrist = WristData { wrist_x: joints.shoulder_x, wrist_y: elbow.elbow_y };
        let arm_velocity: i64 = 1000;
        let arm_strength: i64 = arm_velocity * 10;
        SensorArmData {
            object_data,
            wrist,
            joints,
            elbow,
            arm_velocity,
            arm_strength,
            arm_length: 10,
            timestamp: 0,
        }
    }

    pub fn update_object_data(&mut self, object_data: ObjectData)
        ensures
            *final(self) == (SensorArmData { object_data, ..*old(self) }),
    {
        self.object_data = object_data;
    }

    /// The feedback record for this sample's pose, landing at `eta`, stamped now.
    pub fn to_feedback(&self, eta: u128) -> (r: FeedbackData)
        ensures
            r.wrist == self.wrist,
            r.joints == self.joints,
            r.elbow == self.elbow,
            r.arrived_at_ground == eta,
    {
        FeedbackData {
            wrist: self.wrist,
            joints: self.joints,
            elbow: self.elbow,
            arrived_at_ground: eta,
            timestamp: now_micros(),
        }
    }

    /// A sample holding only the pose and timestamp of `feedback`; every other
    /// reading is zero.
    pub fn from_feedback(feedback: FeedbackData) -> (r: SensorArmData)
        ensures
            r.object_data == (ObjectData {
                object_velocity: 0,
                object_mass: 0,
                object_size: 0,
                object_x: 0,
                object_y: 0,
                object_height: 0,
            }),
            r.wrist == feedback.wrist,
            r.joints == feedback.joints,
            r.elbow == feedback.elbow,
            r.arm_velocity == 0,
            r.arm_strength == 0,
            r.arm_length == 10,
            r.timestamp == feedback.timestamp,
    {
        SensorArmData {
            object_data: ObjectData {
                object_velocity: 0,
                object_mass: 0,
                object_size: 0,
                object_height: 0,
                object_x: 0,
                object_y: 0,
            },
            wrist: feedback.wrist,
            joints: feedback.joints,
            elbow: feedback.elbow,
            arm_velocity: 0,
            arm_strength: 0,
            timestamp: feedback.timestamp,
            arm_length: 10,
        }
    }

    /// Every reading that the filter bank tracks is within `READING_LIMIT`.
    pub open spec fn readings_within_limit(&self) -> bool {
        &&& within_limit(self.wrist.wrist_x as int)
        &&& within_limit(self.wrist.wrist_y as int)
        &&& within_limit(self.joints.shoulder_x as int)
        &&& within_limit(self.joints.shoulder_y as int)
        &&& within_limit(self.elbow.elbow_x as int)
        &&& within_limit(self.elbow.elbow_y as int)
        &&& within_limit(self.arm_velocity as int)
        &&& within_limit(self.object_data.object_velocity as int)
        &&& within_limit(self.object_data.object_mass as int)
        &&& within_limit(self.object_data.object_size as int)
        &&& within_limit(self.object_data.object_x as int)
        &&& within_limit(self.object_data.object_y as int)
        &&& within_limit(self.object_data.object_height as int)
    }
}

impl ActuatorInstruction {
    /// An instruction to move to `(x, y)`, stamped now.
    pub fn new(x: i64, y: i64, strength: i64, time_to_reach: u64) -> (r: ActuatorInstruction)
        ensures
            r.x == x,
            r.y == y,
            r.strength == strength,
            r.time_to_reach == time_to_reach,
    {
        ActuatorInstruction { x, y, strength, time_to_reach, timestamp: now_micros() }
    }
}

impl LogEntry {
    /// The latency of `task` from `sent` to `now`; a `now` earlier than `sent`
    /// counts as zero.
    pub fn from_timestamps(task: String, sent: u128, now: u128) -> (r: LogEntry)
        ensures
            r.task@ == task@,
            r.latency == (if now >= sent { now - sent } else { 0 }),
    {
        LogEntry { task, latency: now.saturating_sub(sent) }
    }
}

} // verus!
