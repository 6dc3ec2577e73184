use vstd::prelude::*;

use crate::error::MetricError;
use crate::sample::Sample;

verus! {

/// The sum of a sequence of integers.
pub open spec fn seq_sum(s: Seq<int>) -> int
    decreases s.len(),
{
    if s.len() == 0 {
        0
    } else {
        seq_sum(s.drop_last()) + s.last()
    }
}

/// The smallest element of a non-empty sequence.
pub open spec fn seq_min(s: Seq<int>) -> int
    decreases s.len(),
{
    if s.len() <= 1 {
        s[0]
    } else {
        let m = seq_min(s.drop_last());
        if s.last() < m {
            s.last()
        } else {
            m
        }
    }
}

/// The largest element of a non-empty sequence.
pub open spec fn seq_max(s: Seq<int>) -> int
    decreases s.len(),
{
    if s.len() <= 1 {
        s[0]
    } else {
        let m = seq_max(s.drop_last());
        if s.last() > m {
            s.last()
        } else {
            m
        }
    }
}

/// The mean of a closed batch, kept exactly as its sum over its size.
///
/// Converting it to a floating-point number is left to the caller
/// (`sum as f32 / count as f32`).
#[derive(Clone, Copy, Debug, PartialEq, Eq, Structural)]
pub struct Mean {
    pub sum: i128,
    pub count: u8,
}

/// The mean of the batch `b`.
pub open spec fn mean_of(b: Seq<int>) -> Mean {
    Mean { sum: seq_sum(b) as i128, count: b.len() as u8 }
}

/// The statistics of one closed batch: its extremes, its mean and a display unit.
#[derive(Debug, PartialEq)]
pub struct MinMaxAvg<T> {
    pub min: T,
    pub avg: Mean,
    pub max: T,
    pub unit: &'static str,
}

impl<T> MinMaxAvg<T> {
    /// A report without a unit.
    pub fn new(min: T, avg: Mean, max: T) -> (r: Self)
        ensures
            r.min == min,
            r.avg == avg,
            r.max == max,
            r.unit@ == ""@,
    {
        MinMaxAvg { min, avg, max, unit: "" }
    }

    /// The same report, labelled with `unit`.
    pub fn with_unit(self, unit: &'static str) -> (r: Self)
        ensures
            r == (MinMaxAvg { unit, ..self }),
    {
        let mut r = self;
        r.unit = unit;
        r
    }
}


/// What an aggregate meter holds, mathematically: its batch size, the samples of
/// the batch in progress, and the most recently closed batch, if any.
pub struct MeterModel {
    pub threshold: nat,
    pub pending: Seq<int>,
    pub last: Option<Seq<int>>,
}

impl MeterModel {
    /// A meter with batch size `threshold` that has seen no sample.
    pub open spec fn fresh(threshold: nat) -> MeterModel {
        MeterModel { threshold, pending: Seq::empty(), last: None }
    }

    /// The batch in progress is shorter than the batch size, and a closed batch
    /// is exactly as long as it.
    pub open spec fn wf(self) -> bool {
        &&& self.threshold > 0
        &&& self.pending.len() < self.threshold
        &&& self.last matches Some(b) ==> b.len() == self.threshold
    }

    /// The meter after one more sample `v`: the sample joins the batch in
    /// progress, which closes and becomes the last batch once it is full.
    pub open spec fn step(self, v: int) -> MeterModel {
        let p = self.pending.push(v);
        if p.len() >= self.threshold {
            MeterModel { threshold: self.threshold, pending: Seq::empty(), last: Some(p) }
        } else {
            MeterModel { threshold: self.threshold, pending: p, last: self.last }
        }
    }

    /// The meter after the samples `vs`, in order.
    pub open spec fn run(self, vs: Seq<int>) -> MeterModel
        decreases vs.len(),
    {
        if vs.len() == 0 {
            self
        } else {
            self.run(vs.drop_last()).step(vs.last())
        }
    }
}

/// Bounds on the sum of a sequence whose elements lie in `[lo, hi]`.
pub proof fn lemma_sum_bounds(s: Seq<int>, lo: int, hi: int)
    requires
        forall|i: int| 0 <= i < s.len() ==> lo <= #[trigger] s[i] <= hi,
    ensures
        s.len() * lo <= seq_sum(s) <= s.len() * hi,
    decreases s.len(),
{
    if s.len() > 0 {
        let d = s.drop_last();
        assert forall|i: int| 0 <= i < d.len() implies lo <= #[trigger] d[i] <= hi by {
            assert(d[i] == s[i]);
        }
        lemma_sum_bounds(d, lo, hi);
        assert(s.len() * lo == d.len() * lo + lo) by (nonlinear_arith)
            requires
                s.len() == d.len() + 1,
        ;
        assert(s.len() * hi == d.len() * hi + hi) by (nonlinear_arith)
            requires
                s.len() == d.len() + 1,
        ;
    }
}

/// Until `threshold` samples have been added to a fresh meter nothing is
/// published; at the `threshold`-th sample the published batch is exactly the
/// samples added, so its minimum, maximum and mean are theirs.
pub proof fn lemma_first_batch(threshold: nat, vs: Seq<int>)
    requires
        threshold > 0,
        vs.len() <= threshold,
    ensures
        vs.len() < threshold ==> MeterModel::fresh(threshold).run(vs).last is None
            && MeterModel::fresh(threshold).run(vs).pending == vs,
        vs.len() == threshold ==> MeterModel::fresh(threshold).run(vs).last == Some(vs),
        MeterModel::fresh(threshold).run(vs).threshold == threshold,
    decreases vs.len(),
{
    if vs.len() > 0 {
        let d = vs.drop_last();
        lemma_first_batch(threshold, d);
        assert(d.push(vs.last()) =~= vs);
    } else {
        assert(vs =~= Seq::<int>::empty());
    }
}

/// Between two batch closes, adding samples leaves the published batch as it
/// was; the samples only join the batch in progress.
pub proof fn lemma_between_closes(m: MeterModel, vs: Seq<int>)
    requires
        m.wf(),
        m.pending.len() + vs.len() < m.threshold,
    ensures
        m.run(vs).last == m.last,
        m.run(vs).pending == m.pending + vs,
        m.run(vs).threshold == m.threshold,
    decreases vs.len(),
{
    if vs.len() > 0 {
        lemma_between_closes(m, vs.drop_last());
        assert((m.pending + vs.drop_last()).push(vs.last()) =~= m.pending + vs);
    } else {
        assert(m.pending + vs =~= m.pending);
    }
}

/// With a threshold of one, every sample closes a batch of its own.
pub proof fn lemma_threshold_one(m: MeterModel, v: int)
    requires
        m.wf(),
        m.threshold == 1,
    ensures
        m.step(v).last == Some(seq![v]),
        m.step(v).pending.len() == 0,
{
    assert(m.pending.push(v) =~= seq![v]);
}

/// A batch of equal samples has that sample as its minimum, its maximum and its
/// mean.
pub proof fn lemma_all_equal(b: Seq<int>, c: int)
    requires
        b.len() >= 1,
        forall|i: int| 0 <= i < b.len() ==> #[trigger] b[i] == c,
    ensures
        seq_min(b) == c,
        seq_max(b) == c,
        seq_sum(b) == c * b.len(),
    decreases b.len(),
{
    let d = b.drop_last();
    if b.len() > 1 {
        assert forall|i: int| 0 <= i < d.len() implies #[trigger] d[i] == c by {
            assert(d[i] == b[i]);
        }
        lemma_all_equal(d, c);
    } else {
        assert(d.len() == 0);
        assert(c * d.len() == 0);
    }
    assert(b.last() == b[b.len() - 1]);
    assert(seq_sum(b) == seq_sum(d) + c);
    assert(seq_sum(d) == c * d.len());
    assert(c * b.len() == c * d.len() + c) by (nonlinear_arith)
        requires
            b.len() == d.len() + 1,
    ;
}

/// Summarises fixed-size batches of samples into their minimum, mean and maximum.
///
/// The statistics of the last closed batch stay visible, unchanged, while the
/// next batch fills up.
pub struct AggregateMetric<T> {
    sum: i128,
    count: u8,
    max: T,
    min: T,
    threshold: u8,
    max_ack: T,
    min_ack: T,
    avg: Mean,
    avg_is_set: bool,
    unit: &'static str,
    pending: Ghost<Seq<int>>,
    last: Ghost<Seq<int>>,
}

impl<T: Sample> AggregateMetric<T> {
    /// The meter's contents as a mathematical value.
    pub closed spec fn model(self) -> MeterModel {
        MeterModel {
            threshold: self.threshold as nat,
            pending: self.pending@,
            last: if self.avg_is_set {
                Some(self.last@)
            } else {
                None
            },
        }
    }

    /// The display unit given to reports.
    pub closed spec fn unit_label(self) -> &'static str {
        self.unit
    }

    /// The meter labelled with `unit`, and otherwise the same.
    pub closed spec fn with_label(self, unit: &'static str) -> Self {
        AggregateMetric { unit, ..self }
    }

    /// The running sum and the pending extremes describe the batch in progress,
    /// and the published statistics describe the last closed batch.
    pub closed spec fn wf(self) -> bool {
        &&& self.model().wf()
        &&& self.count as int == self.pending@.len()
        &&& self.sum == seq_sum(self.pending@)
        &&& forall|i: int|
            0 <= i < self.pending@.len() ==> T::lowest() <= #[trigger] self.pending@[i]
                <= T::highest()
        &&& self.pending@.len() == 0 ==> self.min_ack.value() == T::highest()
            && self.max_ack.value() == T::lowest()
        &&& self.pending@.len() > 0 ==> self.min_ack.value() == seq_min(self.pending@)
            && self.max_ack.value() == seq_max(self.pending@)
        &&& self.avg_is_set ==> self.min.value() == seq_min(self.last@) && self.max.value()
            == seq_max(self.last@) && self.avg == mean_of(self.last@)
    }

    /// A meter that closes a batch every `threshold` samples; a threshold of
    /// zero is refused.
    pub fn new(threshold: u8) -> (r: Result<Self, MetricError>)
        ensures
            threshold == 0 <==> r is Err,
            r matches Err(e) ==> e == MetricError::InvalidThreshold,
            r matches Ok(m) ==> m.wf() && m.model() == MeterModel::fresh(threshold as nat)
                && m.unit_label()@ == ""@,
    {
        if threshold == 0 {
            Err(MetricError::InvalidThreshold)
        } else {
            Ok(AggregateMetric {
                sum: 0,
                count: 0,
                max: T::max_value(),
                min: T::min_value(),
                threshold,
                max_ack: T::min_value(),
                min_ack: T::max_value(),
                avg: Mean { sum: 0, count: 0 },
                avg_is_set: false,
                unit: "",
                pending: Ghost(Seq::empty()),
                last: Ghost(Seq::empty()),
            })
        }
    }

    /// The same meter, with reports labelled `unit`.
    pub fn with_unit(self, unit: &'static str) -> (r: Self)
        requires
            self.wf(),
        ensures
            r == self.with_label(unit),
            r.wf(),
            r.model() == self.model(),
            r.unit_label() == unit,
    {
        let mut r = self;
        r.unit = unit;
        r
    }
    /// Adds one sample. When the batch in progress reaches the threshold, its
    /// minimum, mean and maximum become the published statistics and a new batch
    /// begins.
    pub fn add(&mut self, value: T)
        requires
            old(self).wf(),
        ensures
            final(self).wf(),
            final(self).model() == old(self).model().step(value.value()),
            final(self).unit_label() == old(self).unit_label(),
    {
        let ghost p = self.pending@;
        let ghost v = value.value();
        proof {
            value.lemma_in_bounds();
            lemma_sum_bounds(p, T::lowest(), T::highest());
            assert(p.len() * T::lowest() >= 255 * i64::MIN) by (nonlinear_arith)
                requires
                    p.len() < 255,
                    i64::MIN <= T::lowest() <= 0,
            ;
            assert(p.len() * T::highest() <= 255 * u64::MAX) by (nonlinear_arith)
                requires
                    p.len() < 255,
                    0 < T::highest() <= u64::MAX,
            ;
        }
        let w = value.widen();
        self.sum = self.sum + w;
        self.count = self.count + 1;
        if w > self.max_ack.widen() {
            self.max_ack = value;
        }
        if w < self.min_ack.widen() {
            self.min_ack = value;
        }
        self.pending = Ghost(p.push(v));
        proof {
            assert(self.pending@.drop_last() =~= p);
            assert forall|i: int|
                0 <= i < self.pending@.len() implies T::lowest() <= #[trigger] self.pending@[i]
                <= T::highest() by {
                if i < p.len() {
                    assert(self.pending@[i] == p[i]);
                }
            }
        }
        if self.count >= self.threshold {
            self.avg = Mean { sum: self.sum, count: self.count };
            self.min = self.min_ack;
            self.max = self.max_ack;
            self.max_ack = T::min_value();
            self.min_ack = T::max_value();
            self.count = 0;
            self.avg_is_set = true;
            self.sum = 0;
            self.last = Ghost(p.push(v));
            self.pending = Ghost(Seq::empty());
        }
    }

    /// The mean of the last closed batch, or `None` before the first batch closes.
    pub fn average(&self) -> (r: Option<Mean>)
        requires
            self.wf(),
        ensures
            r == (match self.model().last {
                Some(b) => Some(mean_of(b)),
                None => None,
            }),
    {
        if self.avg_is_set {
            Some(self.avg)
        } else {
            None
        }
    }

    /// The minimum, mean and maximum of the last closed batch, labelled with the
    /// meter's unit, or `None` before the first batch closes.
    pub fn values(&self) -> (r: Option<MinMaxAvg<T>>)
        requires
            self.wf(),
        ensures
            r is Some <==> self.model().last is Some,
            r matches Some(rep) ==> {
                let b = self.model().last->0;
                &&& rep.min.value() == seq_min(b)
                &&& rep.max.value() == seq_max(b)
                &&& rep.avg == mean_of(b)
                &&& rep.unit == self.unit_label()
            },
    {
        if self.avg_is_set {
            Some(MinMaxAvg::new(self.min, self.avg, self.max).with_unit(self.unit))
        } else {
            None
        }
    }
}

/// Giving a meter a unit changes nothing but the unit, and the reports it
/// publishes afterwards carry that unit.
pub proof fn lemma_unit_kept<T: Sample>(m: AggregateMetric<T>, unit: &'static str)
    requires
        m.wf(),
    ensures
        m.with_label(unit).wf(),
        m.with_label(unit).model() == m.model(),
        m.with_label(unit).unit_label() == unit,
{
}

} // verus!
