use arm_pipeline::anomaly::{detect_anomaly, is_anomalous};
use arm_pipeline::controller::{
    branchless_clamp, generate_anomalous_object_data, generate_normal_object_data,
    generate_sensor_data, process_sensor_data, sensor, SegmentOffsets,
};
use arm_pipeline::data_structure::{
    ElbowData, FeedbackData, ObjectData, SensorArmData, ShoulderData, WristData,
};
use arm_pipeline::filter::Filters;

fn nominal_sample() -> SensorArmData {
    let mut s = SensorArmData::new(ObjectData {
        object_velocity: 10_000,
        object_mass: 2000,
        object_size: 4500,
        object_x: 5000,
        object_y: 1000,
        object_height: 2000,
    });
    s.joints = ShoulderData { shoulder_x: 500, shoulder_y: 0 };
    s.elbow = ElbowData { elbow_x: 2000, elbow_y: 1000 };
    s.wrist = WristData { wrist_x: 5000, wrist_y: 1500 };
    s.arm_velocity = 2500;
    s
}

fn pose() -> FeedbackData {
    FeedbackData {
        wrist: WristData { wrist_x: 4000, wrist_y: -1000 },
        joints: ShoulderData { shoulder_x: 0, shoulder_y: 0 },
        elbow: ElbowData { elbow_x: 2000, elbow_y: 2500 },
        arrived_at_ground: 0,
        timestamp: 0,
    }
}

#[test]
fn out_of_range_check_is_strict_at_the_bounds() {
    assert!(detect_anomaly(-1, 0, 7000));
    assert!(detect_anomaly(7001, 0, 7000));
    assert!(!detect_anomaly(0, 0, 7000));
    assert!(!detect_anomaly(7000, 0, 7000));
    assert!(!detect_anomaly(3500, 0, 7000));
}

#[test]
fn out_of_range_check_ignores_call_order() {
    let cases = [(5, 1, 4), (0, 0, 0), (-3, -2, 2), (9800, 9800, 11_800)];
    let forward: Vec<bool> = cases.iter().map(|&(v, l, h)| detect_anomaly(v, l, h)).collect();
    let backward: Vec<bool> = cases.iter().rev().map(|&(v, l, h)| detect_anomaly(v, l, h)).collect();
    let reversed: Vec<bool> = backward.into_iter().rev().collect();
    assert_eq!(forward, reversed);
    assert_eq!(forward, vec![true, false, true, false]);
}

#[test]
fn any_single_violation_flags_the_sample() {
    let mut s = nominal_sample();
    s.arm_strength = 5000;
    assert!(!is_anomalous(&s));
    let mut t = s;
    t.arm_strength = 50_001;
    assert!(is_anomalous(&t));
    let mut t = s;
    t.wrist.wrist_x = 7001;
    assert!(is_anomalous(&t));
    let mut t = s;
    t.elbow.elbow_y = -7001;
    assert!(is_anomalous(&t));
    let mut t = s;
    t.object_data.object_mass = 999;
    assert!(is_anomalous(&t));
    let mut t = s;
    t.object_data.object_size = 5001;
    assert!(is_anomalous(&t));
    let mut t = s;
    t.object_data.object_velocity = 500;
    assert!(is_anomalous(&t));
}

#[test]
fn first_sample_passes_through_with_strength_recomputed() {
    let mut f = Filters::new();
    let raw = nominal_sample();
    let (out, anomaly) = process_sensor_data(raw, &mut f);
    assert!(!anomaly);
    assert_eq!(out.wrist, raw.wrist);
    assert_eq!(out.object_data, raw.object_data);
    // 2.5 times 2.0 is 5.0
    assert_eq!(out.arm_strength, 5000);
    assert_eq!(f.object_mass_filter.count, 1);
}

#[test]
fn second_sample_is_averaged_with_the_first() {
    let mut f = Filters::new();
    let raw = nominal_sample();
    process_sensor_data(raw, &mut f);
    let mut next = raw;
    next.object_data.object_mass = 4000;
    next.arm_velocity = 3500;
    let (out, anomaly) = process_sensor_data(next, &mut f);
    assert!(!anomaly);
    assert_eq!(out.object_data.object_mass, 3000);
    assert_eq!(out.arm_velocity, 3000);
    assert_eq!(out.arm_strength, 9000);
}

#[test]
fn heavy_object_is_flagged_after_filtering() {
    let mut f = Filters::new();
    let raw = nominal_sample();
    for _ in 0..4 {
        process_sensor_data(raw, &mut f);
    }
    let mut hand = raw;
    hand.object_data.object_mass = 100_000;
    let (out, anomaly) = process_sensor_data(hand, &mut f);
    assert_eq!(out.object_data.object_mass, (4 * 2000 + 100_000) / 5);
    assert!(anomaly);
}

#[test]
fn clamp_brings_values_into_range() {
    assert_eq!(branchless_clamp(-5, 0, 7000), 0);
    assert_eq!(branchless_clamp(9000, 0, 7000), 7000);
    assert_eq!(branchless_clamp(123, 0, 7000), 123);
    assert_eq!(branchless_clamp(-1500, -1500, 1500), -1500);
}

#[test]
fn normal_objects_stay_in_their_ranges() {
    let mut masses = Vec::new();
    for _ in 0..200 {
        let o = generate_normal_object_data();
        assert!((9800..=11_800).contains(&o.object_velocity));
        assert!((1000..=5000).contains(&o.object_mass));
        assert!((4000..=5000).contains(&o.object_size));
        assert!((4000..=7000).contains(&o.object_x));
        assert!((-5000..=5000).contains(&o.object_y));
        assert_eq!(o.object_height, 0);
        masses.push(o.object_mass);
    }
    // the draws are random, not pinned to a bound
    assert!(masses.iter().any(|&m| m != masses[0]));
    assert!(masses.iter().any(|&m| m != 1000));
}

#[test]
fn obstructions_stay_in_their_ranges() {
    for _ in 0..200 {
        let o = generate_anomalous_object_data();
        assert!((0..=1000).contains(&o.object_velocity));
        assert!((100_000..=600_000).contains(&o.object_mass));
        assert!((10_000..=30_000).contains(&o.object_size));
        assert!((7000..=10_000).contains(&o.object_x));
        assert!((7000..=11_000).contains(&o.object_y));
    }
}

#[test]
fn every_tenth_cycle_sees_an_obstruction() {
    let offsets = SegmentOffsets { upper_dx: 1000, upper_dy: 1000, fore_dx: 3000, fore_dy: 500 };
    for cycle in [10u64, 20, 990, 1000] {
        let s = generate_sensor_data(cycle, Some(pose()), offsets);
        assert!(s.object_data.object_mass >= 100_000);
    }
    for cycle in [1u64, 9, 11, 999] {
        let s = generate_sensor_data(cycle, Some(pose()), offsets);
        assert!(s.object_data.object_mass <= 5000);
    }
}

#[test]
fn feedback_pose_is_copied_into_the_sample() {
    let offsets = SegmentOffsets { upper_dx: 1000, upper_dy: 1000, fore_dx: 3000, fore_dy: 500 };
    let fb = pose();
    let s = generate_sensor_data(3, Some(fb), offsets);
    assert_eq!(s.joints, fb.joints);
    assert_eq!(s.elbow, fb.elbow);
    assert_eq!(s.wrist, fb.wrist);
    assert_eq!(s.object_data.object_height, 0 + 1000 + 500);
    assert!((0..=10_000).contains(&s.arm_velocity));
    assert_eq!(s.arm_strength, s.arm_velocity * s.object_data.object_mass / 1000);
    assert!(s.timestamp > 0);
}

#[test]
fn fresh_pose_follows_the_offsets_and_envelopes() {
    let offsets = SegmentOffsets { upper_dx: 2000, upper_dy: 3500, fore_dx: -9000, fore_dy: -700 };
    for _ in 0..50 {
        let s = generate_sensor_data(7, None, offsets);
        let sx = s.joints.shoulder_x;
        let sy = s.joints.shoulder_y;
        assert!((0..=1000).contains(&sx));
        assert!((-1500..=1500).contains(&sy));
        assert_eq!(s.elbow.elbow_x, sx + 2000);
        assert_eq!(s.elbow.elbow_y, 1500);
        // the forearm points backwards; the wrist stays level with the shoulder
        assert_eq!(s.wrist.wrist_x, sx);
        assert_eq!(s.wrist.wrist_y, 800);
        assert_eq!(s.object_data.object_height, sy + 3500 - 700);
    }
}

#[test]
fn starting_pose_is_bent_at_a_right_angle() {
    let s = sensor();
    assert_eq!(s.joints, ShoulderData { shoulder_x: 0, shoulder_y: 1000 });
    assert_eq!(s.elbow, ElbowData { elbow_x: 1000, elbow_y: 0 });
    assert_eq!(s.wrist, WristData { wrist_x: 1000, wrist_y: 0 });
}
