//! Sliding-window moving-average filters, one per tracked reading.
use vstd::prelude::*;

verus! {

/// Number of most recent readings that a filter averages over.
pub const WINDOW_SIZE: usize = 5;

/// Largest magnitude a filtered reading may have (a million units, in
/// thousandths). It keeps window sums and products of two readings inside `i64`.
pub const READING_LIMIT: i64 = 1_000_000_000;

/// Sum of a sequence of readings.
pub open spec fn sum_of(s: Seq<i64>) -> int
    decreases s.len(),
{
    if s.len() == 0 {
        0
    } else {
        sum_of(s.drop_last()) + s.last()
    }
}

/// Quotient of `n` by a positive `d`, rounded toward zero.
pub open spec fn quot_toward_zero(n: int, d: int) -> int {
    if n >= 0 {
        n / d
    } else {
        -((-n) / d)
    }
}

/// Mean of a non-empty window, rounded toward zero.
pub open spec fn mean_of(s: Seq<i64>) -> int {
    quot_toward_zero(sum_of(s), s.len() as int)
}

/// The window after a new reading arrives: the reading is appended and, once
/// the window is full, the oldest one leaves.
pub open spec fn slide(w: Seq<i64>, v: i64) -> Seq<i64> {
    if w.len() < WINDOW_SIZE {
        w.push(v)
    } else {
        w.push(v).drop_first()
    }
}

pub open spec fn within_limit(v: int) -> bool {
    -READING_LIMIT <= v <= READING_LIMIT
}

/// A moving average over the last `WINDOW_SIZE` readings, kept in a circular
/// buffer with a running sum.
#[derive(Clone, Copy, Debug, PartialEq, Eq)]
pub struct MovingAverage {
    pub buffer: [i64; WINDOW_SIZE],
    pub index: usize,
    pub sum: i64,
    pub count: usize,
}

impl View for MovingAverage {
    /// The readings currently in the window, oldest first.
    type V = Seq<i64>;

    open spec fn view(&self) -> Seq<i64> {
        if self.count < WINDOW_SIZE {
            self.buffer@.subrange(0, self.count as int)
        } else {
            self.buffer@.subrange(self.index as int, WINDOW_SIZE as int) + self.buffer@.subrange(
                0,
                self.index as int,
            )
        }
    }
}

proof fn lemma_sum_of_append(a: Seq<i64>, b: Seq<i64>)
    ensures
        sum_of(a + b) == sum_of(a) + sum_of(b),
    decreases b.len(),
{
    if b.len() == 0 {
        assert(a + b =~= a);
    } else {
        lemma_sum_of_append(a, b.drop_last());
        assert((a + b).drop_last() =~= a + b.drop_last());
    }
}

proof fn lemma_sum_of_drop_first(s: Seq<i64>)
    requires
        s.len() > 0,
    ensures
        sum_of(s) == s[0] + sum_of(s.drop_first()),
{
    let head = seq![s[0]];
    lemma_sum_of_append(head, s.drop_first());
    assert(head + s.drop_first() =~= s);
    assert(head.drop_last() =~= Seq::<i64>::empty());
    assert(sum_of(head.drop_last()) == 0);
    assert(head.last() == s[0]);
    assert(sum_of(head) == s[0]);
}

proof fn lemma_sum_of_bounded(s: Seq<i64>)
    requires
        forall|i: int| 0 <= i < s.len() ==> within_limit(#[trigger] s[i] as int),
    ensures
        -READING_LIMIT * s.len() <= sum_of(s) <= READING_LIMIT * s.len(),
    decreases s.len(),
{
    if s.len() > 0 {
        let t = s.drop_last();
        assert forall|i: int| 0 <= i < t.len() implies within_limit(#[trigger] t[i] as int) by {
            assert(t[i] == s[i]);
        }
        lemma_sum_of_bounded(t);
    }
}

/// Every reading of `s` lies in `[lo, hi]`.
pub open spec fn all_between(s: Seq<i64>, lo: int, hi: int) -> bool {
    forall|i: int| 0 <= i < s.len() ==> lo <= #[trigger] s[i] <= hi
}

/// Sliding a reading of `[lo, hi]` into a window of such readings keeps them all there.
pub proof fn lemma_slide_between(w: Seq<i64>, v: i64, lo: int, hi: int)
    requires
        all_between(w, lo, hi),
        lo <= v <= hi,
    ensures
        all_between(slide(w, v), lo, hi),
{
    let s = slide(w, v);
    assert forall|i: int| 0 <= i < s.len() implies lo <= #[trigger] s[i] <= hi by {
        if w.len() < WINDOW_SIZE {
            if i < w.len() {
                assert(s[i] == w[i]);
            }
        } else if i < w.len() - 1 {
            assert(s[i] == w[i + 1]);
        }
    }
}

proof fn lemma_sum_of_at_most(s: Seq<i64>, hi: int)
    requires
        forall|i: int| 0 <= i < s.len() ==> #[trigger] s[i] <= hi,
    ensures
        sum_of(s) <= hi * s.len(),
    decreases s.len(),
{
    if s.len() > 0 {
        let t = s.drop_last();
        assert forall|i: int| 0 <= i < t.len() implies #[trigger] t[i] <= hi by {
            assert(t[i] == s[i]);
        }
        lemma_sum_of_at_most(t, hi);
        assert(hi * s.len() == hi * t.len() + hi) by (nonlinear_arith)
            requires
                s.len() == t.len() + 1,
        ;
    }
}

/// The mean of a non-empty window of readings in `[lo, hi]` lies in `[lo, hi]`.
pub proof fn lemma_mean_between(s: Seq<i64>, lo: int, hi: int)
    requires
        s.len() > 0,
        all_between(s, lo, hi),
    ensures
        lo <= mean_of(s) <= hi,
{
    lemma_sum_of_at_least(s, lo);
    lemma_sum_of_at_most(s, hi);
    let n = s.len() as int;
    let t = sum_of(s);
    if t >= 0 {
        assert(lo <= t / n <= hi) by (nonlinear_arith)
            requires
                lo * n <= t <= hi * n,
                n > 0,
        ;
    } else {
        assert(-hi <= (-t) / n <= -lo) by (nonlinear_arith)
            requires
                -(hi * n) <= -t <= -(lo * n),
                n > 0,
        ;
    }
}

/// A sum of readings that are each at least `lo`.
pub proof fn lemma_sum_of_at_least(s: Seq<i64>, lo: int)
    requires
        forall|i: int| 0 <= i < s.len() ==> lo <= #[trigger] s[i],
    ensures
        sum_of(s) >= lo * s.len(),
    decreases s.len(),
{
    if s.len() > 0 {
        let t = s.drop_last();
        assert forall|i: int| 0 <= i < t.len() implies lo <= #[trigger] t[i] by {
            assert(t[i] == s[i]);
        }
        lemma_sum_of_at_least(t, lo);
        assert(lo * s.len() == lo * t.len() + lo) by (nonlinear_arith)
            requires
                s.len() == t.len() + 1,
        ;
    }
}

/// The mean of a non-empty window of readings within the limit is within the
/// limit too.
pub proof fn lemma_mean_within_limit(s: Seq<i64>)
    requires
        0 < s.len() <= WINDOW_SIZE,
        forall|i: int| 0 <= i < s.len() ==> within_limit(#[trigger] s[i] as int),
    ensures
        within_limit(mean_of(s)),
{
    lemma_sum_of_bounded(s);
    let n = s.len() as int;
    let t = sum_of(s);
    if t >= 0 {
        assert(t / n <= READING_LIMIT) by (nonlinear_arith)
            requires
                0 <= t <= READING_LIMIT * n,
                n > 0,
        ;
        assert(t / n >= 0) by (nonlinear_arith)
            requires
                0 <= t,
                n > 0,
        ;
    } else {
        assert((-t) / n <= READING_LIMIT) by (nonlinear_arith)
            requires
                0 <= -t <= READING_LIMIT * n,
                n > 0,
        ;
        assert((-t) / n >= 0) by (nonlinear_arith)
            requires
                0 <= -t,
                n > 0,
        ;
    }
}

proof fn lemma_window_within_limit(m: MovingAverage)
    requires
        m.count <= WINDOW_SIZE,
        m.index < WINDOW_SIZE,
        forall|i: int| 0 <= i < WINDOW_SIZE ==> within_limit(#[trigger] m.buffer@[i] as int),
    ensures
        m@.len() == m.count,
        forall|i: int| 0 <= i < m@.len() ==> within_limit(#[trigger] m@[i] as int),
{
    assert forall|i: int| 0 <= i < m@.len() implies within_limit(#[trigger] m@[i] as int) by {
        if m.count < WINDOW_SIZE {
            assert(m@[i] == m.buffer@[i]);
        } else if i < WINDOW_SIZE - m.index {
            assert(m@[i] == m.buffer@[m.index + i]);
        } else {
            assert(m@[i] == m.buffer@[i - (WINDOW_SIZE - m.index)]);
        }
    }
}

/// The window of `after`, which wrote `val` over the slot `before` was due to
/// write, is `before`'s window slid by `val`.
proof fn lemma_slide_view(before: MovingAverage, after: MovingAverage, val: i64)
    requires
        before.count <= WINDOW_SIZE,
        before.index < WINDOW_SIZE,
        before.count < WINDOW_SIZE ==> before.index == before.count,
        before.sum == sum_of(before@),
        after.buffer@ == before.buffer@.update(before.index as int, val),
        after.index == (before.index + 1) % (WINDOW_SIZE as int),
        after.count == if before.count < WINDOW_SIZE {
            before.count + 1
        } else {
            before.count as int
        },
        after.sum == if before.count < WINDOW_SIZE {
            before.sum + val
        } else {
            before.sum - before@[0] + val
        },
    ensures
        after@ == slide(before@, val),
        after.sum == sum_of(after@),
{
    let w = before@;
    assert(w.push(val).drop_last() =~= w);
    if w.len() < WINDOW_SIZE {
        assert(after@ =~= slide(w, val));
    } else {
        lemma_sum_of_drop_first(w);
        lemma_sum_of_drop_first(w.push(val));
        assert(w.push(val).drop_first() =~= w.drop_first().push(val));
        assert(w.drop_first().push(val).drop_last() =~= w.drop_first());
        assert(after@ =~= slide(w, val));
    }
}

impl MovingAverage {
    /// Internal consistency: the slots past the window hold zero while the
    /// buffer fills, `index` is the next slot to write, `sum` is the sum of the
    /// window, and every reading is within `READING_LIMIT`.
    pub open spec fn wf(&self) -> bool {
        &&& self.count <= WINDOW_SIZE
        &&& self.index < WINDOW_SIZE
        &&& self.count < WINDOW_SIZE ==> self.index == self.count
        &&& self.sum == sum_of(self@)
        &&& forall|i: int| 0 <= i < WINDOW_SIZE ==> within_limit(#[trigger] self.buffer@[i] as int)
        &&& forall|i: int|
            self.count <= i < WINDOW_SIZE ==> #[trigger] self.buffer@[i] == 0
    }

    /// A filter that has seen no reading.
    pub open spec fn fresh() -> MovingAverage {
        MovingAverage { buffer: [0i64; WINDOW_SIZE], index: 0, sum: 0, count: 0 }
    }

    pub fn new() -> (r: MovingAverage)
        ensures
            r == MovingAverage::fresh(),
            r.wf(),
            r@ == Seq::<i64>::empty(),
    {
        let r = MovingAverage { buffer: [0i64; WINDOW_SIZE], index: 0, sum: 0, count: 0 };
        assert(r@ =~= Seq::<i64>::empty());
        r
    }

    /// Adds a reading to the window, dropping the oldest one once the window
    /// is full, and returns the mean of the window.
    pub fn update(&mut self, val: i64) -> (r: i64)
        requires
            old(self).wf(),
            within_limit(val as int),
        ensures
            final(self).wf(),
            final(self)@ == slide(old(self)@, val),
            r == mean_of(final(self)@),
            within_limit(r as int),
    {
        let ghost before = *self;
        proof {
            lemma_window_within_limit(before);
            lemma_sum_of_bounded(before@);
        }
        if self.count < WINDOW_SIZE {
            self.count = self.count + 1;
        } else {
            proof {
                lemma_sum_of_drop_first(before@);
                assert(before@[0] == before.buffer@[before.index as int]);
            }
            self.sum = self.sum - self.buffer[self.index];
        }
        let i = self.index;
        self.buffer[i] = val;
        self.sum = self.sum + val;
        self.index = (self.index + 1) % WINDOW_SIZE;
        proof {
            lemma_slide_view(before, *self, val);
            lemma_window_within_limit(*self);
            lemma_mean_within_limit(self@);
        }
        let c = self.count as i64;
        if self.sum >= 0 {
            self.sum / c
        } else {
            -((-self.sum) / c)
        }
    }

    /// Empties the window, leaving the filter equal to a fresh one.
    pub fn reset(&mut self)
        ensures
            *final(self) == MovingAverage::fresh(),
            final(self).wf(),
            final(self)@ == Seq::<i64>::empty(),
    {
        self.buffer = [0i64; WINDOW_SIZE];
        self.index = 0;
        self.sum = 0;
        self.count = 0;
        assert(self@ =~= Seq::<i64>::empty());
    }
}

/// The window after each of `vals` arrives in turn.
pub open spec fn feed(w: Seq<i64>, vals: Seq<i64>) -> Seq<i64>
    decreases vals.len(),
{
    if vals.len() == 0 {
        w
    } else {
        slide(feed(w, vals.drop_last()), vals.last())
    }
}

/// `n` copies of the reading `v`.
pub open spec fn repeated(v: i64, n: nat) -> Seq<i64> {
    Seq::new(n, |i: int| v)
}

proof fn lemma_sum_of_repeated(v: i64, n: nat)
    ensures
        sum_of(repeated(v, n)) == n * v,
    decreases n,
{
    if n > 0 {
        assert(repeated(v, n).drop_last() =~= repeated(v, (n - 1) as nat));
        lemma_sum_of_repeated(v, (n - 1) as nat);
        assert(repeated(v, n).last() == v);
        assert(n * v == (n - 1) * v + v) by (nonlinear_arith);
    } else {
        assert(sum_of(repeated(v, n)) == 0);
    }
}

proof fn lemma_feed_repeated_tail(w: Seq<i64>, v: i64, k: nat)
    requires
        w.len() <= WINDOW_SIZE,
        k <= WINDOW_SIZE,
    ensures
        feed(w, repeated(v, k)).len() == if w.len() + k < WINDOW_SIZE {
            w.len() + k
        } else {
            WINDOW_SIZE as nat
        },
        forall|i: int|
            feed(w, repeated(v, k)).len() - k <= i < feed(w, repeated(v, k)).len() ==> #[trigger] feed(
                w,
                repeated(v, k),
            )[i] == v,
    decreases k,
{
    if k > 0 {
        let prev = repeated(v, (k - 1) as nat);
        assert(repeated(v, k).drop_last() =~= prev);
        lemma_feed_repeated_tail(w, v, (k - 1) as nat);
        let f = feed(w, prev);
        assert(feed(w, repeated(v, k)) == slide(f, v));
    }
}

/// A steady input settles the filter: whatever the window held before,
/// `WINDOW_SIZE` equal readings `v` fill it with `v`, and the average is `v`.
pub proof fn lemma_steady_input_average(w: Seq<i64>, v: i64)
    requires
        w.len() <= WINDOW_SIZE,
    ensures
        feed(w, repeated(v, WINDOW_SIZE as nat)) == repeated(v, WINDOW_SIZE as nat),
        mean_of(feed(w, repeated(v, WINDOW_SIZE as nat))) == v,
{
    lemma_feed_repeated_tail(w, v, WINDOW_SIZE as nat);
    let f = feed(w, repeated(v, WINDOW_SIZE as nat));
    assert(f =~= repeated(v, WINDOW_SIZE as nat));
    lemma_sum_of_repeated(v, WINDOW_SIZE as nat);
    if v >= 0 {
        assert((5 * v) / 5 == v) by (nonlinear_arith);
    } else {
        assert((-(5 * v)) / 5 == -v) by (nonlinear_arith);
    }
}

/// One filter per tracked reading of a sample.
#[derive(Clone, Copy, Debug, PartialEq, Eq)]
pub struct Filters {
    pub wrist_x_filter: MovingAverage,
    pub wrist_y_filter: MovingAverage,
    pub shoulder_x_filter: MovingAverage,
    pub shoulder_y_filter: MovingAverage,
    pub elbow_x_filter: MovingAverage,
    pub elbow_y_filter: MovingAverage,
    pub arm_velocity_filter: MovingAverage,
    pub object_velocity_filter: MovingAverage,
    pub object_mass_filter: MovingAverage,
    pub object_size_filter: MovingAverage,
    pub object_x_filter: MovingAverage,
    pub object_y_filter: MovingAverage,
    pub object_height_filter: MovingAverage,
}

impl Filters {
    pub open spec fn wf(&self) -> bool {
        &&& self.wrist_x_filter.wf()
        &&& self.wrist_y_filter.wf()
        &&& self.shoulder_x_filter.wf()
        &&& self.shoulder_y_filter.wf()
        &&& self.elbow_x_filter.wf()
        &&& self.elbow_y_filter.wf()
        &&& self.arm_velocity_filter.wf()
        &&& self.object_velocity_filter.wf()
        &&& self.object_mass_filter.wf()
        &&& self.object_size_filter.wf()
        &&& self.object_x_filter.wf()
        &&& self.object_y_filter.wf()
        &&& self.object_height_filter.wf()
    }

    /// A bank in which no filter has seen a reading.
    pub open spec fn fresh() -> Filters {
        Filters {
            wrist_x_filter: MovingAverage::fresh(),
            wrist_y_filter: MovingAverage::fresh(),
            shoulder_x_filter: MovingAverage::fresh(),
            shoulder_y_filter: MovingAverage::fresh(),
            elbow_x_filter: MovingAverage::fresh(),
            elbow_y_filter: MovingAverage::fresh(),
            arm_velocity_filter: MovingAverage::fresh(),
            object_velocity_filter: MovingAverage::fresh(),
            object_mass_filter: MovingAverage::fresh(),
            object_size_filter: MovingAverage::fresh(),
            object_x_filter: MovingAverage::fresh(),
            object_y_filter: MovingAverage::fresh(),
            object_height_filter: MovingAverage::fresh(),
        }
    }

    pub fn new() -> (r: Filters)
        ensures
            r == Filters::fresh(),
            r.wf(),
    {
        Filters {
            wrist_x_filter: MovingAverage::new(),
            wrist_y_filter: MovingAverage::new(),
            shoulder_x_filter: MovingAverage::new(),
            shoulder_y_filter: MovingAverage::new(),
            elbow_x_filter: MovingAverage::new(),
            elbow_y_filter: MovingAverage::new(),
            arm_velocity_filter: MovingAverage::new(),
            object_velocity_filter: MovingAverage::new(),
            object_mass_filter: MovingAverage::new(),
            object_size_filter: MovingAverage::new(),
            object_x_filter: MovingAverage::new(),
            object_y_filter: MovingAverage::new(),
            object_height_filter: MovingAverage::new(),
        }
    }

    /// Empties every filter of the bank at once.
    pub fn reset(&mut self)
        ensures
            *final(self) == Filters::fresh(),
            final(self).wf(),
    {
        self.wrist_x_filter.reset();
        self.wrist_y_filter.reset();
        self.shoulder_x_filter.reset();
        self.shoulder_y_filter.reset();
        self.elbow_x_filter.reset();
        self.elbow_y_filter.reset();
        self.arm_velocity_filter.reset();
        self.object_velocity_filter.reset();
        self.object_mass_filter.reset();
        self.object_size_filter.reset();
        self.object_x_filter.reset();
        self.object_y_filter.reset();
        self.object_height_filter.reset();
    }
}

} // verus!
