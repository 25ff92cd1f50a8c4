//! The actuator stage's decisions: the warm-up policy, the arrival estimate,
//! the per-joint move orders, and the two-joint synchronization that gates
//! feedback.
use crate::data_structure::{
    ActuatorInstruction, ElbowData, FeedbackData, SensorArmData, ShoulderData, WristData,
};
use crate::filter::within_limit;
use vstd::prelude::*;

verus! {

/// Number of deliveries that are turned away while the pipeline warms up.
pub const WARMUP_CYCLES: u64 = 500;

/// What to do with one delivery from the sensor queue.
#[derive(Clone, Copy, Debug, PartialEq, Eq)]
pub enum DeliveryAction {
    /// The payload could not be decoded: negatively acknowledge it.
    Reject,
    /// Still warming up: negatively acknowledge it without processing.
    SkipWarmUp,
    /// Process the sample, then acknowledge it.
    Process,
}

/// Counts deliveries to apply the warm-up policy.
#[derive(Clone, Copy, Debug, PartialEq, Eq)]
pub struct WarmupGate {
    pub received: u64,
}

/// The action for the `n`-th delivery (from one).
pub open spec fn action_for(n: int, decoded: bool) -> DeliveryAction {
    if !decoded {
        DeliveryAction::Reject
    } else if n <= WARMUP_CYCLES {
        DeliveryAction::SkipWarmUp
    } else {
        DeliveryAction::Process
    }
}

impl WarmupGate {
    pub fn new() -> (r: WarmupGate)
        ensures
            r.received == 0,
    {
        WarmupGate { received: 0 }
    }

    /// Counts a delivery and says what to do with it: undecodable payloads are
    /// rejected, the first `WARMUP_CYCLES` deliveries are skipped, and later
    /// ones are processed. The count stops at `u64::MAX`.
    pub fn on_delivery(&mut self, decoded: bool) -> (r: DeliveryAction)
        ensures
            (final(self).received, r) == gate_step(old(self).received, decoded),
    {
        if self.received < u64::MAX {
            self.received = self.received + 1;
        }
        if !decoded {
            DeliveryAction::Reject
        } else if self.received <= WARMUP_CYCLES {
            DeliveryAction::SkipWarmUp
        } else {
            DeliveryAction::Process
        }
    }
}

/// One delivery at a gate that has counted `received`: the new count and the action.
pub open spec fn gate_step(received: u64, decoded: bool) -> (u64, DeliveryAction) {
    let n = if received < u64::MAX {
        (received + 1) as u64
    } else {
        received
    };
    (n, action_for(n as int, decoded))
}

/// The count of a gate that started at `received` after a delivery for each
/// entry of `decoded`.
pub open spec fn gate_count(received: u64, decoded: Seq<bool>) -> u64
    decreases decoded.len(),
{
    if decoded.len() == 0 {
        received
    } else {
        gate_step(gate_count(received, decoded.drop_last()), decoded.last()).0
    }
}

/// The action that a gate started at `received` takes on the last of `decoded`.
pub open spec fn last_action(received: u64, decoded: Seq<bool>) -> DeliveryAction {
    gate_step(gate_count(received, decoded.drop_last()), decoded.last()).1
}

proof fn lemma_gate_count_from_zero(decoded: Seq<bool>)
    requires
        decoded.len() < u64::MAX,
    ensures
        gate_count(0, decoded) == decoded.len(),
    decreases decoded.len(),
{
    if decoded.len() > 0 {
        lemma_gate_count_from_zero(decoded.drop_last());
    }
}

/// Warm-up: a fresh gate turns away each of the first `WARMUP_CYCLES`
/// deliveries, decodable or not, and processes every decodable delivery after
/// them.
pub proof fn lemma_warmup_policy(decoded: Seq<bool>)
    requires
        0 < decoded.len() <= u64::MAX,
    ensures
        decoded.len() <= WARMUP_CYCLES ==> last_action(0, decoded) != DeliveryAction::Process,
        decoded.len() > WARMUP_CYCLES && decoded.last() ==> last_action(0, decoded)
            == DeliveryAction::Process,
{
    lemma_gate_count_from_zero(decoded.drop_last());
}

/// Time, in microseconds, that an object at `height` falling at `velocity`
/// takes to land; zero for an object that is not falling or already down.
pub open spec fn arrival_delay(height: int, velocity: int) -> int {
    if velocity > 0 && height > 0 {
        height * 1000 / velocity
    } else {
        0
    }
}

pub fn time_to_reach(object_height: i64, object_velocity: i64) -> (r: u64)
    requires
        within_limit(object_height as int),
    ensures
        r == arrival_delay(object_height as int, object_velocity as int),
{
    if object_velocity > 0 && object_height > 0 {
        proof {
            let h = object_height as int;
            let v = object_velocity as int;
            assert(h * 1000 / v <= h * 1000) by (nonlinear_arith)
                requires
                    h > 0,
                    v > 0,
            ;
        }
        (object_height * 1000 / object_velocity) as u64
    } else {
        0
    }
}

/// The sample with the arm moved to the pose inverse kinematics found: the
/// shoulder at the origin, the elbow and wrist at the given points.
pub fn compute_arm_movement(data: SensorArmData, elbow: ElbowData, wrist: WristData) -> (r:
    SensorArmData)
    ensures
        r == (SensorArmData {
            joints: ShoulderData { shoulder_x: 0, shoulder_y: 0 },
            elbow,
            wrist,
            ..data
        }),
{
    let mut data = data;
    data.joints = ShoulderData { shoulder_x: 0, shoulder_y: 0 };
    data.elbow = elbow;
    data.wrist = wrist;
    data
}

/// One of the two joints the arm moves.
#[derive(Clone, Copy, Debug, PartialEq, Eq)]
pub enum Joint {
    Shoulder,
    Elbow,
}

/// A two-party barrier: which joints have finished their current move.
#[derive(Clone, Copy, Debug, PartialEq, Eq)]
pub struct JointSync {
    pub shoulder_done: bool,
    pub elbow_done: bool,
}

/// The barrier after `joint` reports, and whether that report released it.
pub open spec fn sync_after(s: JointSync, joint: Joint) -> (JointSync, bool) {
    let shoulder = s.shoulder_done || joint == Joint::Shoulder;
    let elbow = s.elbow_done || joint == Joint::Elbow;
    if shoulder && elbow {
        (JointSync { shoulder_done: false, elbow_done: false }, true)
    } else {
        (JointSync { shoulder_done: shoulder, elbow_done: elbow }, false)
    }
}

impl JointSync {
    pub fn new() -> (r: JointSync)
        ensures
            r == (JointSync { shoulder_done: false, elbow_done: false }),
    {
        JointSync { shoulder_done: false, elbow_done: false }
    }

    /// Records that `joint` finished; returns whether both have now finished,
    /// in which case the barrier opens again for the next move.
    pub fn arrive(&mut self, joint: Joint) -> (released: bool)
        ensures
            (*final(self), released) == sync_after(*old(self), joint),
    {
        match joint {
            Joint::Shoulder => self.shoulder_done = true,
            Joint::Elbow => self.elbow_done = true,
        }
        if self.shoulder_done && self.elbow_done {
            self.shoulder_done = false;
            self.elbow_done = false;
            true
        } else {
            false
        }
    }
}

/// The barrier after each of `reports` in turn.
pub open spec fn sync_run(s: JointSync, reports: Seq<Joint>) -> JointSync
    decreases reports.len(),
{
    if reports.len() == 0 {
        s
    } else {
        sync_after(sync_run(s, reports.drop_last()), reports.last()).0
    }
}

/// Whether the last of `reports` released the barrier.
pub open spec fn released_on_last(s: JointSync, reports: Seq<Joint>) -> bool {
    reports.len() > 0 && sync_after(sync_run(s, reports.drop_last()), reports.last()).1
}

proof fn lemma_sync_run_marks(reports: Seq<Joint>)
    ensures
        sync_run(JointSync { shoulder_done: false, elbow_done: false }, reports).shoulder_done
            ==> reports.contains(Joint::Shoulder),
        sync_run(JointSync { shoulder_done: false, elbow_done: false }, reports).elbow_done
            ==> reports.contains(Joint::Elbow),
    decreases reports.len(),
{
    if reports.len() > 0 {
        let prev = reports.drop_last();
        lemma_sync_run_marks(prev);
        let n = reports.len() - 1;
        if prev.contains(Joint::Shoulder) {
            let k = choose|k: int| 0 <= k < prev.len() && prev[k] == Joint::Shoulder;
            assert(reports[k] == Joint::Shoulder);
        }
        if prev.contains(Joint::Elbow) {
            let k = choose|k: int| 0 <= k < prev.len() && prev[k] == Joint::Elbow;
            assert(reports[k] == Joint::Elbow);
        }
        assert(reports[n] == reports.last());
    }
}

/// Synchronized arrival: starting from an open barrier, a report can release
/// it only once both the shoulder and the elbow are among the reports made.
pub proof fn lemma_release_needs_both_joints(reports: Seq<Joint>)
    requires
        released_on_last(JointSync { shoulder_done: false, elbow_done: false }, reports),
    ensures
        reports.contains(Joint::Shoulder),
        reports.contains(Joint::Elbow),
{
    let prev = reports.drop_last();
    lemma_sync_run_marks(prev);
    let n = reports.len() - 1;
    assert(reports[n] == reports.last());
    if prev.contains(Joint::Shoulder) {
        let k = choose|k: int| 0 <= k < prev.len() && prev[k] == Joint::Shoulder;
        assert(reports[k] == Joint::Shoulder);
    }
    if prev.contains(Joint::Elbow) {
        let k = choose|k: int| 0 <= k < prev.len() && prev[k] == Joint::Elbow;
        assert(reports[k] == Joint::Elbow);
    }
}

/// The two move orders of one cycle.
#[derive(Clone, Copy, Debug, PartialEq, Eq)]
pub struct Dispatch {
    pub shoulder: ActuatorInstruction,
    pub elbow: ActuatorInstruction,
    pub time_to_reach: u64,
    /// The object is not falling (velocity at most zero): the arrival
    /// estimate is zero and a warning is due.
    pub not_falling: bool,
}

/// The actuator's cycle: idle, or waiting for both joints to finish the move
/// for `pending` before its feedback is released.
#[derive(Clone, Copy, Debug, PartialEq, Eq)]
pub struct ActuatorCycle {
    pub pending: Option<SensorArmData>,
    pub time_to_reach: u64,
    pub sync: JointSync,
}

/// The order that sends one joint to `(x, y)` for the sample's cycle.
pub open spec fn order_for(
    x: i64,
    y: i64,
    sample: SensorArmData,
    time_to_reach: u64,
    cycle_start_time: u128,
) -> ActuatorInstruction {
    ActuatorInstruction {
        x,
        y,
        strength: sample.arm_strength,
        time_to_reach,
        timestamp: cycle_start_time,
    }
}

impl ActuatorCycle {
    pub fn new() -> (r: ActuatorCycle)
        ensures
            r.pending is None,
            r.sync == (JointSync { shoulder_done: false, elbow_done: false }),
    {
        ActuatorCycle { pending: None, time_to_reach: 0, sync: JointSync::new() }
    }

    pub fn is_idle(&self) -> (r: bool)
        ensures
            r == self.pending is None,
    {
        self.pending.is_none()
    }

    /// Starts the move for `sample`, whose joints already hold the target
    /// pose: one order per joint, both with the same arrival estimate and the
    /// cycle's start time.
    pub fn dispatch(&mut self, sample: SensorArmData, cycle_start_time: u128) -> (r: Dispatch)
        requires
            old(self).pending is None,
            within_limit(sample.object_data.object_height as int),
        ensures
            final(self).pending == Some(sample),
            final(self).sync == (JointSync { shoulder_done: false, elbow_done: false }),
            final(self).time_to_reach == r.time_to_reach,
            r.time_to_reach == arrival_delay(
                sample.object_data.object_height as int,
                sample.object_data.object_velocity as int,
            ),
            r.not_falling == (sample.object_data.object_velocity <= 0),
            r.shoulder == order_for(
                sample.joints.shoulder_x,
                sample.joints.shoulder_y,
                sample,
                r.time_to_reach,
                cycle_start_time,
            ),
            r.elbow == order_for(
                sample.elbow.elbow_x,
                sample.elbow.elbow_y,
                sample,
                r.time_to_reach,
                cycle_start_time,
            ),
    {
        let ttr = time_to_reach(
            sample.object_data.object_height,
            sample.object_data.object_velocity,
        );
        let shoulder = ActuatorInstruction {
            x: sample.joints.shoulder_x,
            y: sample.joints.shoulder_y,
            strength: sample.arm_strength,
            time_to_reach: ttr,
            timestamp: cycle_start_time,
        };
        let elbow = ActuatorInstruction {
            x: sample.elbow.elbow_x,
            y: sample.elbow.elbow_y,
            strength: sample.arm_strength,
            time_to_reach: ttr,
            timestamp: cycle_start_time,
        };
        self.pending = Some(sample);
        self.time_to_reach = ttr;
        self.sync = JointSync::new();
        Dispatch {
            shoulder,
            elbow,
            time_to_reach: ttr,
            not_falling: sample.object_data.object_velocity <= 0,
        }
    }

    /// Records that `joint` finished its move at `now`. Once both joints have
    /// finished, the cycle ends and returns the feedback: the pose of the
    /// sample and an arrival `time_to_reach` after `now`. Before that it
    /// returns `None`.
    pub fn joint_done(&mut self, joint: Joint, now: u128) -> (r: Option<FeedbackData>)
        requires
            old(self).pending is Some,
        ensures
            final(self).sync == sync_after(old(self).sync, joint).0,
            final(self).time_to_reach == old(self).time_to_reach,
            r is Some <==> sync_after(old(self).sync, joint).1,
            r is None ==> final(self).pending == old(self).pending,
            r matches Some(fb) ==> {
                let s = old(self).pending.unwrap();
                &&& final(self).pending is None
                &&& fb.joints == s.joints
                &&& fb.elbow == s.elbow
                &&& fb.wrist == s.wrist
                &&& fb.arrived_at_ground == if now + old(self).time_to_reach <= u128::MAX {
                    now + old(self).time_to_reach
                } else {
                    u128::MAX as int
                }
            },
    {
        let released = self.sync.arrive(joint);
        if released {
            let sample = self.pending.unwrap();
            self.pending = None;
            let arrival = now.saturating_add(self.time_to_reach as u128);
            Some(sample.to_feedback(arrival))
        } else {
            None
        }
    }
}

} // verus!
