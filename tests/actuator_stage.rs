use arm_pipeline::actuator::{
    compute_arm_movement, time_to_reach, ActuatorCycle, DeliveryAction, Joint, JointSync,
    WarmupGate,
};
use arm_pipeline::data_structure::{
    ActuatorInstruction, ElbowData, LogEntry, ObjectData, SensorArmData, ShoulderData, WristData,
};
use arm_pipeline::feedback::FeedbackState;
use arm_pipeline::now_micros;

fn falling(velocity: i64, height: i64) -> SensorArmData {
    let s = SensorArmData::new(ObjectData {
        object_velocity: velocity,
        object_mass: 2000,
        object_size: 4500,
        object_x: 5000,
        object_y: 1000,
        object_height: height,
    });
    compute_arm_movement(
        s,
        ElbowData { elbow_x: 2000, elbow_y: 2200 },
        WristData { wrist_x: 5000, wrist_y: 1000 },
    )
}

#[test]
fn first_five_hundred_deliveries_are_turned_away() {
    let mut gate = WarmupGate::new();
    for _ in 0..500 {
        assert_eq!(gate.on_delivery(true), DeliveryAction::SkipWarmUp);
    }
    assert_eq!(gate.on_delivery(true), DeliveryAction::Process);
    assert_eq!(gate.on_delivery(true), DeliveryAction::Process);
    assert_eq!(gate.received, 502);
}

#[test]
fn undecodable_deliveries_are_rejected_and_counted() {
    let mut gate = WarmupGate::new();
    assert_eq!(gate.on_delivery(false), DeliveryAction::Reject);
    for _ in 0..499 {
        gate.on_delivery(true);
    }
    assert_eq!(gate.on_delivery(true), DeliveryAction::Process);
    assert_eq!(gate.on_delivery(false), DeliveryAction::Reject);
}

#[test]
fn arrival_estimate_divides_height_by_velocity() {
    // 2.0 over 10.0, times 1000
    assert_eq!(time_to_reach(2000, 10_000), 200);
    assert_eq!(time_to_reach(1500, 9800), 153);
    assert_eq!(time_to_reach(-400, 10_000), 0);
}

#[test]
fn motionless_object_gives_zero_and_a_warning() {
    assert_eq!(time_to_reach(2000, 0), 0);
    assert_eq!(time_to_reach(2000, -5), 0);
    let mut cycle = ActuatorCycle::new();
    let d = cycle.dispatch(falling(0, 2000), 77);
    assert!(d.not_falling);
    assert_eq!(d.time_to_reach, 0);
    assert_eq!(d.shoulder.time_to_reach, 0);
}

#[test]
fn inverse_kinematics_pose_is_written_into_the_sample() {
    let s = falling(10_000, 2000);
    assert_eq!(s.joints, ShoulderData { shoulder_x: 0, shoulder_y: 0 });
    assert_eq!(s.elbow, ElbowData { elbow_x: 2000, elbow_y: 2200 });
    assert_eq!(s.wrist, WristData { wrist_x: 5000, wrist_y: 1000 });
    assert_eq!(s.object_data.object_height, 2000);
}

#[test]
fn dispatch_sends_one_order_per_joint() {
    let mut cycle = ActuatorCycle::new();
    let s = falling(10_000, 2000);
    let d = cycle.dispatch(s, 1234);
    assert!(!d.not_falling);
    assert_eq!(
        d.shoulder,
        ActuatorInstruction { x: 0, y: 0, strength: 10_000, time_to_reach: 200, timestamp: 1234 }
    );
    assert_eq!(
        d.elbow,
        ActuatorInstruction { x: 2000, y: 2200, strength: 10_000, time_to_reach: 200, timestamp: 1234 }
    );
    assert!(!cycle.is_idle());
}

#[test]
fn feedback_waits_for_both_joints() {
    let s = falling(10_000, 2000);
    let mut cycle = ActuatorCycle::new();
    cycle.dispatch(s, 1);
    assert_eq!(cycle.joint_done(Joint::Shoulder, 5000), None);
    assert!(!cycle.is_idle());
    let fb = cycle.joint_done(Joint::Elbow, 6000).expect("both joints are done");
    assert_eq!(fb.joints, s.joints);
    assert_eq!(fb.elbow, s.elbow);
    assert_eq!(fb.wrist, s.wrist);
    assert_eq!(fb.arrived_at_ground, 6200);
    assert!(cycle.is_idle());

    cycle.dispatch(s, 2);
    assert_eq!(cycle.joint_done(Joint::Elbow, 10), None);
    assert_eq!(cycle.joint_done(Joint::Elbow, 11), None);
    assert!(cycle.joint_done(Joint::Shoulder, 12).is_some());
}

#[test]
fn barrier_releases_on_the_second_joint_only() {
    let mut b = JointSync::new();
    assert!(!b.arrive(Joint::Elbow));
    assert!(b.arrive(Joint::Shoulder));
    assert_eq!(b, JointSync::new());
    assert!(!b.arrive(Joint::Shoulder));
    assert!(!b.arrive(Joint::Shoulder));
    assert!(b.arrive(Joint::Elbow));
}

#[test]
fn feedback_state_is_replaced_whole() {
    let mut st = FeedbackState::new();
    assert_eq!(st.snapshot(), None);
    let s = falling(10_000, 2000);
    let fb = s.to_feedback(99);
    let entry = st.replace(fb, fb.timestamp + 250);
    assert_eq!(entry.latency, 250);
    assert_eq!(entry.task, "reception latency");
    assert_eq!(st.snapshot(), Some(fb));
    let later = SensorArmData::from_feedback(fb).to_feedback(100);
    st.replace(later, 0);
    assert_eq!(st.snapshot(), Some(later));
}

#[test]
fn records_and_timestamps() {
    let s = SensorArmData::new(ObjectData {
        object_velocity: 1,
        object_mass: 2,
        object_size: 3,
        object_x: 4,
        object_y: 5,
        object_height: 6,
    });
    assert_eq!(s.elbow, ElbowData { elbow_x: 0, elbow_y: 3000 });
    assert_eq!(s.wrist, WristData { wrist_x: 0, wrist_y: 3000 });
    assert_eq!(s.arm_strength, 10_000);
    assert_eq!(s.arm_length, 10);
    let mut t = s;
    let o = ObjectData { object_mass: 42, ..s.object_data };
    t.update_object_data(o);
    assert_eq!(t.object_data.object_mass, 42);
    assert_eq!(t.wrist, s.wrist);

    let fb = s.to_feedback(123);
    assert_eq!(fb.arrived_at_ground, 123);
    let back = SensorArmData::from_feedback(fb);
    assert_eq!(back.wrist, s.wrist);
    assert_eq!(back.timestamp, fb.timestamp);
    assert_eq!(back.object_data.object_mass, 0);

    let i = ActuatorInstruction::new(1, 2, 3, 4);
    assert_eq!((i.x, i.y, i.strength, i.time_to_reach), (1, 2, 3, 4));
    // after 2020-01-01 in microseconds
    assert!(i.timestamp > 1_577_836_800_000_000);
    assert!(now_micros() > 1_577_836_800_000_000);
    assert!(arm_pipeline::data_structure::now_micros() >= i.timestamp);

    let e = LogEntry::from_timestamps("cycle time".to_string(), 1000, 1750);
    assert_eq!(e.latency, 750);
    let e = LogEntry::from_timestamps("cycle time".to_string(), 2000, 1750);
    assert_eq!(e.latency, 0);
}
