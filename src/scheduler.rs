//! The fixed-rate cycle scheduler's decisions: which cycle comes next, and
//! whether its filtered sample is forwarded or dropped.
use crate::anomaly::sample_is_anomalous;
use crate::controller::{
    bank_took, filtered_sample, generate_sensor_data, is_normal_object, pose_within_limit,
    process_sensor_data, synthesized, SegmentOffsets, ANOMALY_PERIOD,
};
use crate::data_structure::{fixed_product, FeedbackData, SensorArmData};
use crate::filter::{
    all_between, lemma_mean_between, lemma_slide_between, lemma_sum_of_at_least, mean_of, slide,
    sum_of, Filters, MovingAverage, WINDOW_SIZE,
};
use vstd::prelude::*;

verus! {

/// What one tick of the scheduler did.
#[derive(Clone, Copy, Debug, PartialEq, Eq)]
pub enum CycleOutcome {
    /// Every configured cycle has run; the scheduler stops.
    Finished,
    /// The filtered sample was anomalous: it is dropped and the filter bank reset.
    Dropped { cycle: u64, sample: SensorArmData },
    /// The filtered sample is handed on for publication.
    Forward { cycle: u64, sample: SensorArmData },
}

/// Counts cycles up to `max_cycles` and owns the filter bank.
pub struct CycleScheduler {
    /// The next cycle to run, from one.
    pub cycle: u64,
    pub max_cycles: u64,
    pub filters: Filters,
}

impl CycleScheduler {
    /// The filter bank is consistent, the counter cannot overflow, and the
    /// bank holds only readings of falling objects (an obstruction's readings
    /// never outlive their cycle).
    pub open spec fn wf(&self) -> bool {
        &&& self.filters.wf()
        &&& 1 <= self.cycle
        &&& self.max_cycles < u64::MAX
        &&& self.cycle <= self.max_cycles + 1
        &&& object_windows_nominal(self.filters)
    }

    /// A scheduler that will run cycles `1..=max_cycles`.
    pub fn new(max_cycles: u64) -> (r: CycleScheduler)
        requires
            max_cycles < u64::MAX,
        ensures
            r.wf(),
            r.cycle == 1,
            r.max_cycles == max_cycles,
            r.filters == Filters::fresh(),
    {
        CycleScheduler { cycle: 1, max_cycles, filters: Filters::new() }
    }

    /// Runs one cycle: synthesizes its sample, filters it, and drops it (with
    /// a reset of the whole filter bank) when anomalous, or forwards it.
    pub fn tick(&mut self, feedback: Option<FeedbackData>, offsets: SegmentOffsets) -> (r:
        CycleOutcome)
        requires
            old(self).wf(),
            offsets.within_limit(),
            feedback matches Some(fb) ==> pose_within_limit(fb),
        ensures
            final(self).wf(),
            final(self).max_cycles == old(self).max_cycles,
            old(self).cycle > old(self).max_cycles ==> r == CycleOutcome::Finished
                && *final(self) == *old(self),
            old(self).cycle <= old(self).max_cycles ==> {
                &&& final(self).cycle == old(self).cycle + 1
                &&& exists|raw: SensorArmData|
                    {
                        &&& synthesized(raw, old(self).cycle, feedback, offsets)
                        &&& #[trigger] filtered_sample(raw, old(self).filters) == match r {
                            CycleOutcome::Dropped { sample, .. } => sample,
                            CycleOutcome::Forward { sample, .. } => sample,
                            CycleOutcome::Finished => raw,
                        }
                    }
                &&& match r {
                    CycleOutcome::Dropped { cycle, sample } => {
                        &&& cycle == old(self).cycle
                        &&& sample_is_anomalous(sample)
                        &&& final(self).filters == Filters::fresh()
                    },
                    CycleOutcome::Forward { cycle, sample } => {
                        &&& cycle == old(self).cycle
                        &&& !sample_is_anomalous(sample)
                    },
                    CycleOutcome::Finished => false,
                }
            },
            old(self).cycle <= old(self).max_cycles && old(self).cycle % ANOMALY_PERIOD == 0
                ==> (r matches CycleOutcome::Dropped { .. }),
            old(self).cycle <= old(self).max_cycles && old(self).cycle % ANOMALY_PERIOD != 0
                && pose_windows_in_envelope(old(self).filters) && (feedback matches Some(fb)
                && pose_in_envelope(fb)) ==> (r matches CycleOutcome::Forward { .. })
                && pose_windows_in_envelope(final(self).filters),
    {
        if self.cycle > self.max_cycles {
            return CycleOutcome::Finished;
        }
        let current = self.cycle;
        self.cycle = self.cycle + 1;
        let raw = generate_sensor_data(current, feedback, offsets);
        let ghost before = self.filters;
        let (sample, anomaly) = process_sensor_data(raw, &mut self.filters);
        proof {
            if current % ANOMALY_PERIOD == 0 {
                lemma_obstruction_mass_flags(
                    before.object_mass_filter@,
                    raw.object_data.object_mass,
                );
            } else {
                lemma_normal_cycle(before, self.filters, raw, sample, feedback);
            }
        }
        if anomaly {
            self.filters.reset();
            CycleOutcome::Dropped { cycle: current, sample }
        } else {
            CycleOutcome::Forward { cycle: current, sample }
        }
    }
}

/// The object and arm-speed filters hold readings of falling objects only.
pub open spec fn object_windows_nominal(f: Filters) -> bool {
    &&& all_between(f.object_velocity_filter@, 9800, 11_800)
    &&& all_between(f.object_mass_filter@, 1000, 5000)
    &&& all_between(f.object_size_filter@, 4000, 5000)
    &&& all_between(f.arm_velocity_filter@, 0, 10_000)
}

/// A pose inside the operating envelope that the anomaly check enforces.
pub open spec fn pose_in_envelope(fb: FeedbackData) -> bool {
    &&& 0 <= fb.wrist.wrist_x <= 7000
    &&& -7000 <= fb.wrist.wrist_y <= 7000
    &&& 0 <= fb.joints.shoulder_x <= 7000
    &&& -7000 <= fb.joints.shoulder_y <= 7000
    &&& 0 <= fb.elbow.elbow_x <= 7000
    &&& -7000 <= fb.elbow.elbow_y <= 7000
}

/// The pose filters hold only positions inside the operating envelope.
pub open spec fn pose_windows_in_envelope(f: Filters) -> bool {
    &&& all_between(f.wrist_x_filter@, 0, 7000)
    &&& all_between(f.wrist_y_filter@, -7000, 7000)
    &&& all_between(f.shoulder_x_filter@, 0, 7000)
    &&& all_between(f.shoulder_y_filter@, -7000, 7000)
    &&& all_between(f.elbow_x_filter@, 0, 7000)
    &&& all_between(f.elbow_y_filter@, -7000, 7000)
}

/// The filter `after`, which took `v` into `before`, still holds readings of
/// `[lo, hi]` only, and so does its average.
proof fn lemma_window_stays_between(
    before: MovingAverage,
    after: MovingAverage,
    v: i64,
    lo: int,
    hi: int,
)
    requires
        after@ == slide(before@, v),
        all_between(before@, lo, hi),
        lo <= v <= hi,
    ensures
        all_between(after@, lo, hi),
        lo <= mean_of(after@) <= hi,
{
    lemma_slide_between(before@, v, lo, hi);
    assert(after@.len() > 0);
    lemma_mean_between(after@, lo, hi);
}

/// A cycle of a falling object keeps the object windows nominal; and with an
/// in-envelope pose and pose windows, its filtered sample passes every check.
proof fn lemma_normal_cycle(
    before: Filters,
    after: Filters,
    raw: SensorArmData,
    sample: SensorArmData,
    feedback: Option<FeedbackData>,
)
    requires
        object_windows_nominal(before),
        is_normal_object(raw.object_data),
        0 <= raw.arm_velocity <= 10_000,
        bank_took(before, after, raw),
        sample == filtered_sample(raw, before),
        feedback matches Some(fb) ==> raw.joints == fb.joints && raw.elbow == fb.elbow
            && raw.wrist == fb.wrist,
    ensures
        object_windows_nominal(after),
        pose_windows_in_envelope(before) && (feedback matches Some(fb) && pose_in_envelope(fb))
            ==> !sample_is_anomalous(sample) && pose_windows_in_envelope(after),
{
    lemma_window_stays_between(
        before.object_velocity_filter,
        after.object_velocity_filter,
        raw.object_data.object_velocity,
        9800,
        11_800,
    );
    lemma_window_stays_between(
        before.object_mass_filter,
        after.object_mass_filter,
        raw.object_data.object_mass,
        1000,
        5000,
    );
    lemma_window_stays_between(
        before.object_size_filter,
        after.object_size_filter,
        raw.object_data.object_size,
        4000,
        5000,
    );
    lemma_window_stays_between(
        before.arm_velocity_filter,
        after.arm_velocity_filter,
        raw.arm_velocity,
        0,
        10_000,
    );
    let mv = mean_of(after.arm_velocity_filter@);
    let mm = mean_of(after.object_mass_filter@);
    assert(0 <= mv * mm <= 50_000_000) by (nonlinear_arith)
        requires
            0 <= mv <= 10_000,
            1000 <= mm <= 5000,
    ;
    assert(0 <= fixed_product(mv, mm) <= 50_000);
    if pose_windows_in_envelope(before) && (feedback matches Some(fb) && pose_in_envelope(fb)) {
        lemma_window_stays_between(
            before.wrist_x_filter,
            after.wrist_x_filter,
            raw.wrist.wrist_x,
            0,
            7000,
        );
        lemma_window_stays_between(
            before.wrist_y_filter,
            after.wrist_y_filter,
            raw.wrist.wrist_y,
            -7000,
            7000,
        );
        lemma_window_stays_between(
            before.shoulder_x_filter,
            after.shoulder_x_filter,
            raw.joints.shoulder_x,
            0,
            7000,
        );
        lemma_window_stays_between(
            before.shoulder_y_filter,
            after.shoulder_y_filter,
            raw.joints.shoulder_y,
            -7000,
            7000,
        );
        lemma_window_stays_between(
            before.elbow_x_filter,
            after.elbow_x_filter,
            raw.elbow.elbow_x,
            0,
            7000,
        );
        lemma_window_stays_between(
            before.elbow_y_filter,
            after.elbow_y_filter,
            raw.elbow.elbow_y,
            -7000,
            7000,
        );
    }
}

/// A window of masses of at least 1000 that takes in a mass of at least
/// 100000 averages above the 5000 that the anomaly check allows.
proof fn lemma_obstruction_mass_flags(w: Seq<i64>, m: i64)
    requires
        w.len() <= WINDOW_SIZE,
        all_between(w, 1000, 5000),
        m >= 100_000,
    ensures
        mean_of(slide(w, m)) > 5000,
{
    let kept = if w.len() < WINDOW_SIZE {
        w
    } else {
        w.drop_first()
    };
    assert(slide(w, m) =~= kept.push(m));
    assert forall|i: int| 0 <= i < kept.len() implies 1000 <= #[trigger] kept[i] by {
        if w.len() >= WINDOW_SIZE {
            assert(kept[i] == w[i + 1]);
        }
    }
    lemma_sum_of_at_least(kept, 1000);
    assert(kept.push(m).drop_last() =~= kept);
    let s = sum_of(kept.push(m));
    let n: int = kept.len() as int + 1;
    assert(s >= 1000 * kept.len() + 100_000);
    assert(s / n > 5000) by (nonlinear_arith)
        requires
            s >= 1000 * (n - 1) + 100_000,
            1 <= n <= 5,
    ;
}

} // verus!
