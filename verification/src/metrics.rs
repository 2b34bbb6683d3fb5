//! What it cost to run each opcode.

use std::collections::hash_map::{Entry, Iter};
use std::collections::HashMap;

use vstd::prelude::*;

verus! {

/// The cost of running one opcode, summed over its runs.
#[derive(Debug, Clone, Copy, PartialEq, Eq, Structural)]
pub struct ExecutionMetric {
    pub count: u64,
    pub total_time: u64,
    pub total_gas: u64,
}

/// The metric of an opcode that was never run.
pub open spec fn zero_metric() -> ExecutionMetric {
    ExecutionMetric { count: 0, total_time: 0, total_gas: 0 }
}

/// Whether two metrics can be summed up without overflow.
pub open spec fn sum_fits(a: ExecutionMetric, b: ExecutionMetric) -> bool {
    &&& a.count + b.count <= u64::MAX
    &&& a.total_time + b.total_time <= u64::MAX
    &&& a.total_gas + b.total_gas <= u64::MAX
}

/// Two metrics, summed up field by field.
pub open spec fn metric_sum(a: ExecutionMetric, b: ExecutionMetric) -> ExecutionMetric {
    ExecutionMetric {
        count: (a.count + b.count) as u64,
        total_time: (a.total_time + b.total_time) as u64,
        total_gas: (a.total_gas + b.total_gas) as u64,
    }
}

impl Default for ExecutionMetric {
    fn default() -> (r: Self)
        ensures
            r == zero_metric(),
            r.count == 0 && r.total_time == 0 && r.total_gas == 0,
    {
        ExecutionMetric { count: 0, total_time: 0, total_gas: 0 }
    }
}

impl ExecutionMetric {
    /// Whether `other` can be added without overflow.
    pub fn can_add(&self, other: &ExecutionMetric) -> (r: bool)
        ensures
            r == sum_fits(*self, *other),
            r <==> {
                &&& self.count + other.count <= u64::MAX
                &&& self.total_time + other.total_time <= u64::MAX
                &&& self.total_gas + other.total_gas <= u64::MAX
            },
    {
        other.count <= u64::MAX - self.count && other.total_time <= u64::MAX - self.total_time
            && other.total_gas <= u64::MAX - self.total_gas
    }

    /// Adds `other`, field by field.
    fn accumulate(&mut self, other: &ExecutionMetric)
        requires
            sum_fits(*old(self), *other),
        ensures
            *final(self) == metric_sum(*old(self), *other),
    {
        self.count += other.count;
        self.total_time += other.total_time;
        self.total_gas += other.total_gas;
    }
}

/// The metrics of the opcodes that were run.
#[derive(Debug, Clone, PartialEq, Eq)]
pub struct OpcodeMetrics {
    metrics: HashMap<u8, ExecutionMetric>,
}

impl View for OpcodeMetrics {
    type V = Map<u8, ExecutionMetric>;

    closed spec fn view(&self) -> Map<u8, ExecutionMetric> {
        self.metrics@
    }
}

/// The metrics after one more metric was counted towards an opcode.
pub open spec fn updated(
    metrics: Map<u8, ExecutionMetric>,
    opcode: u8,
    metric: ExecutionMetric,
) -> Map<u8, ExecutionMetric> {
    if metrics.contains_key(opcode) {
        metrics.insert(opcode, metric_sum(metrics[opcode], metric))
    } else {
        metrics.insert(opcode, metric)
    }
}

/// Whether a metric can be counted towards an opcode without overflow.
pub open spec fn update_fits(
    metrics: Map<u8, ExecutionMetric>,
    opcode: u8,
    metric: ExecutionMetric,
) -> bool {
    metrics.contains_key(opcode) ==> sum_fits(metrics[opcode], metric)
}

/// The metrics of all opcodes of either map, summed up where both have one.
pub open spec fn merged(
    existing: Map<u8, ExecutionMetric>,
    added: Map<u8, ExecutionMetric>,
) -> Map<u8, ExecutionMetric> {
    Map::new(
        |opcode: u8| existing.contains_key(opcode) || added.contains_key(opcode),
        |opcode: u8|
            if !added.contains_key(opcode) {
                existing[opcode]
            } else if !existing.contains_key(opcode) {
                added[opcode]
            } else {
                metric_sum(existing[opcode], added[opcode])
            },
    )
}

/// Whether two maps of metrics can be merged without overflow.
pub open spec fn merge_fits(
    existing: Map<u8, ExecutionMetric>,
    added: Map<u8, ExecutionMetric>,
) -> bool {
    forall|opcode: u8|
        #![trigger existing.contains_key(opcode)]
        #![trigger added.contains_key(opcode)]
        existing.contains_key(opcode) && added.contains_key(opcode) ==> sum_fits(
            existing[opcode],
            added[opcode],
        )
}

/// The opcodes of the first `n` pairs.
spec fn opcodes_of(pairs: Seq<(&u8, &ExecutionMetric)>, n: int) -> Set<u8> {
    Set::new(|opcode: u8| exists|i: int| 0 <= i < n && *(#[trigger] pairs[i]).0 == opcode)
}

impl OpcodeMetrics {
    /// Metrics of no opcode.
    pub fn new() -> (r: Self)
        ensures
            r@ == Map::<u8, ExecutionMetric>::empty(),
    {
        Self { metrics: HashMap::new() }
    }

    /// Sets the metric of an opcode, whether it had one or not.
    pub fn insert(&mut self, opcode: u8, metric: ExecutionMetric)
        ensures
            final(self)@ == old(self)@.insert(opcode, metric),
    {
        self.metrics.insert(opcode, metric);
    }

    /// The metric of an opcode, if it has one.
    pub fn get(&self, opcode: u8) -> (r: Option<&ExecutionMetric>)
        ensures
            r == match self@.get(opcode) {
                Some(metric) => Some(&metric),
                None => None,
            },
    {
        self.metrics.get(&opcode)
    }

    /// The metric of an opcode, if it has one, to be changed in place.
    pub fn get_mut(&mut self, opcode: u8) -> (r: Option<&mut ExecutionMetric>)
        ensures
            match r {
                Some(metric) => {
                    &&& old(self)@.contains_key(opcode)
                    &&& *metric == old(self)@[opcode]
                    &&& final(self)@ == old(self)@.insert(opcode, *final(metric))
                },
                None => {
                    &&& !old(self)@.contains_key(opcode)
                    &&& final(self)@ == old(self)@
                },
            },
    {
        match self.metrics.entry(opcode) {
            Entry::Occupied(entry) => Some(entry.into_mut()),
            Entry::Vacant(_) => None,
        }
    }

    /// All opcodes with their metrics, in no particular order: each opcode
    /// comes once, with the metric that it has.
    pub fn iter(&self) -> (r: Iter<'_, u8, ExecutionMetric>)
        ensures
            ({
                let pairs = vstd::std_specs::iter::IteratorSpec::remaining(&r);
                &&& pairs.no_duplicates()
                &&& pairs.len() == self@.dom().len()
                &&& forall|i: int|
                    0 <= i < pairs.len() ==> self@.contains_key(*(#[trigger] pairs[i]).0)
                        && self@[*pairs[i].0] == *pairs[i].1
                &&& forall|opcode: u8| #[trigger]
                    self@.contains_key(opcode) ==> pairs.contains((&opcode, &self@[opcode]))
            }),
            // What a `for` loop over the pairs asks of its iterator.
            vstd::std_specs::iter::IteratorSpec::decrease(&r) is Some,
            vstd::std_specs::iter::IteratorSpec::initial_value_relation(&r, &r),
    {
        self.metrics.iter()
    }

    /// Counts one more metric towards an opcode.
    pub fn update_metrics(&mut self, opcode: u8, metric: ExecutionMetric)
        requires
            update_fits(old(self)@, opcode, metric),
        ensures
            final(self)@ == updated(old(self)@, opcode, metric),
    {
        if let Some(m) = self.get_mut(opcode) {
            m.accumulate(&metric);
        } else {
            self.insert(opcode, metric);
        }
    }

    /// Whether these metrics can be merged into `existing` without overflow.
    pub fn can_merge_into(&self, existing: &OpcodeMetrics) -> (r: bool)
        ensures
            r == merge_fits(existing@, self@),
    {
        let mut fits = true;
        for pair in pairs: self.iter()
            invariant
                fits == (forall|i: int|
                    0 <= i < pairs.index() ==> update_fits(
                        existing@,
                        *(#[trigger] pairs.seq()[i]).0,
                        *pairs.seq()[i].1,
                    )),
        {
            if let Some(metric) = existing.get(*pair.0) {
                fits = fits && metric.can_add(pair.1);
            }
        }
        fits
    }

    /// Merges these metrics into `existing`: what both count is summed up.
    pub fn merge_into(&self, existing: &mut OpcodeMetrics)
        requires
            merge_fits(old(existing)@, self@),
        ensures
            final(existing)@ == merged(old(existing)@, self@),
    {
        let iter = self.iter();
        let ghost all = vstd::std_specs::iter::IteratorSpec::remaining(&iter);
        for pair in pairs: iter
            invariant
                merge_fits(old(existing)@, self@),
                pairs.seq() == all,
                all.no_duplicates(),
                forall|i: int|
                    0 <= i < all.len() ==> self@.contains_key(*(#[trigger] all[i]).0)
                        && self@[*all[i].0] == *all[i].1,
                existing@ == merged(old(existing)@, self@.restrict(opcodes_of(all, pairs.index()))),
        {
            let ghost done = opcodes_of(all, pairs.index());
            assert(!done.contains(*pair.0));
            existing.update_metrics(*pair.0, *pair.1);
            assert(opcodes_of(all, pairs.index() + 1) =~= done.insert(*pair.0));
        }
        assert(self@.restrict(opcodes_of(all, all.len() as int)) =~= self@);
    }
}

impl Default for OpcodeMetrics {
    fn default() -> (r: Self)
        ensures
            r@ == Map::<u8, ExecutionMetric>::empty(),
    {
        Self::new()
    }
}

/// The metric of an opcode, which is zero where it has none.
pub open spec fn metric_of(metrics: Map<u8, ExecutionMetric>, opcode: u8) -> ExecutionMetric {
    if metrics.contains_key(opcode) {
        metrics[opcode]
    } else {
        zero_metric()
    }
}

/// Counting a metric towards an opcode adds it to what the opcode had, and
/// leaves all other opcodes as they were.
pub proof fn law_update_adds_to_one_opcode(
    metrics: Map<u8, ExecutionMetric>,
    opcode: u8,
    metric: ExecutionMetric,
    other: u8,
)
    requires
        update_fits(metrics, opcode, metric),
        other != opcode,
    ensures
        updated(metrics, opcode, metric).contains_key(opcode),
        ({
            let before = metric_of(metrics, opcode);
            let after = metric_of(updated(metrics, opcode, metric), opcode);
            &&& after.count == before.count + metric.count
            &&& after.total_time == before.total_time + metric.total_time
            &&& after.total_gas == before.total_gas + metric.total_gas
        }),
        updated(metrics, opcode, metric).contains_key(other) == metrics.contains_key(other),
        metric_of(updated(metrics, opcode, metric), other) == metric_of(metrics, other),
{
}

/// A metric can be counted towards an opcode if and only if the opcode has
/// none yet or no field comes to exceed a `u64`. An opcode without a metric then
/// has the one that was counted, one with a metric has the sums of the fields,
/// and nothing is gained or lost for any other opcode.
pub proof fn law_update_sums_fields(
    metrics: Map<u8, ExecutionMetric>,
    opcode: u8,
    metric: ExecutionMetric,
)
    ensures
        update_fits(metrics, opcode, metric) <==> !metrics.contains_key(opcode) || {
            &&& metrics[opcode].count + metric.count <= u64::MAX
            &&& metrics[opcode].total_time + metric.total_time <= u64::MAX
            &&& metrics[opcode].total_gas + metric.total_gas <= u64::MAX
        },
        update_fits(metrics, opcode, metric) ==> {
            let after = updated(metrics, opcode, metric);
            &&& after.contains_key(opcode)
            &&& metrics.contains_key(opcode) ==> {
                &&& after[opcode].count == metrics[opcode].count + metric.count
                &&& after[opcode].total_time == metrics[opcode].total_time + metric.total_time
                &&& after[opcode].total_gas == metrics[opcode].total_gas + metric.total_gas
            }
            &&& !metrics.contains_key(opcode) ==> after[opcode] == metric
            &&& after.remove(opcode) == metrics.remove(opcode)
        },
{
    assert(updated(metrics, opcode, metric).remove(opcode) =~= metrics.remove(opcode));
}

/// It makes no difference which of two metrics is counted first.
pub proof fn law_updates_commute(
    metrics: Map<u8, ExecutionMetric>,
    opcode1: u8,
    metric1: ExecutionMetric,
    opcode2: u8,
    metric2: ExecutionMetric,
)
    requires
        update_fits(metrics, opcode1, metric1),
        update_fits(updated(metrics, opcode1, metric1), opcode2, metric2),
    ensures
        update_fits(metrics, opcode2, metric2),
        update_fits(updated(metrics, opcode2, metric2), opcode1, metric1),
        updated(updated(metrics, opcode1, metric1), opcode2, metric2) == updated(
            updated(metrics, opcode2, metric2),
            opcode1,
            metric1,
        ),
{
    assert(updated(updated(metrics, opcode1, metric1), opcode2, metric2) =~= updated(
        updated(metrics, opcode2, metric2),
        opcode1,
        metric1,
    ));
}

/// The metrics after a number of runs, each of an opcode with a metric.
pub open spec fn counted(runs: Seq<(u8, ExecutionMetric)>) -> Map<u8, ExecutionMetric>
    decreases runs.len(),
{
    if runs.len() == 0 {
        Map::empty()
    } else {
        updated(counted(runs.drop_last()), runs.last().0, runs.last().1)
    }
}

/// What `field` of the runs' metrics amounts to for one opcode.
pub open spec fn run_total(
    runs: Seq<(u8, ExecutionMetric)>,
    opcode: u8,
    field: spec_fn(ExecutionMetric) -> nat,
) -> nat
    decreases runs.len(),
{
    if runs.len() == 0 {
        0
    } else if runs.last().0 == opcode {
        run_total(runs.drop_last(), opcode, field) + field(runs.last().1)
    } else {
        run_total(runs.drop_last(), opcode, field)
    }
}

/// Whether the runs of an opcode can be counted without overflow.
pub open spec fn run_totals_fit(runs: Seq<(u8, ExecutionMetric)>, opcode: u8) -> bool {
    &&& run_total(runs, opcode, |m: ExecutionMetric| m.count as nat) <= u64::MAX
    &&& run_total(runs, opcode, |m: ExecutionMetric| m.total_time as nat) <= u64::MAX
    &&& run_total(runs, opcode, |m: ExecutionMetric| m.total_gas as nat) <= u64::MAX
}

/// After any number of runs that were counted one by one, an opcode has a
/// metric if and only if it was run, and that metric is the sum of its runs'.
pub proof fn law_counted_is_total(runs: Seq<(u8, ExecutionMetric)>, opcode: u8)
    requires
        run_totals_fit(runs, opcode),
    ensures
        counted(runs).contains_key(opcode) <==> exists|i: int|
            0 <= i < runs.len() && (#[trigger] runs[i]).0 == opcode,
        ({
            let metric = metric_of(counted(runs), opcode);
            &&& metric.count == run_total(runs, opcode, |m: ExecutionMetric| m.count as nat)
            &&& metric.total_time == run_total(
                runs,
                opcode,
                |m: ExecutionMetric| m.total_time as nat,
            )
            &&& metric.total_gas == run_total(runs, opcode, |m: ExecutionMetric| m.total_gas as nat)
        }),
    decreases runs.len(),
{
    if runs.len() > 0 {
        let earlier = runs.drop_last();
        law_counted_is_total(earlier, opcode);
        if counted(earlier).contains_key(opcode) {
            let i = choose|i: int| 0 <= i < earlier.len() && (#[trigger] earlier[i]).0 == opcode;
            assert(runs[i] == earlier[i]);
        } else {
            assert forall|i: int| 0 <= i < earlier.len() implies (#[trigger] runs[i]).0
                != opcode by {
                assert(runs[i] == earlier[i]);
            }
        }
        if runs.last().0 == opcode {
            assert(runs[runs.len() - 1].0 == opcode);
        }
    }
}

/// To count a metric towards an opcode is to merge it in.
pub proof fn law_update_is_merge(
    metrics: Map<u8, ExecutionMetric>,
    opcode: u8,
    metric: ExecutionMetric,
)
    ensures
        updated(metrics, opcode, metric) == merged(metrics, map![opcode => metric]),
{
    assert(updated(metrics, opcode, metric) =~= merged(metrics, map![opcode => metric]));
}

/// Two maps can be merged if and only if no field of an opcode that both have
/// comes to exceed a `u64`.
pub proof fn law_merge_fits_unless_a_field_overflows(
    existing: Map<u8, ExecutionMetric>,
    added: Map<u8, ExecutionMetric>,
)
    ensures
        merge_fits(existing, added) <==> forall|opcode: u8|
            #![trigger existing.contains_key(opcode)]
            existing.contains_key(opcode) && added.contains_key(opcode) ==> {
                &&& existing[opcode].count + added[opcode].count <= u64::MAX
                &&& existing[opcode].total_time + added[opcode].total_time <= u64::MAX
                &&& existing[opcode].total_gas + added[opcode].total_gas <= u64::MAX
            },
{
    if forall|opcode: u8|
        #![trigger existing.contains_key(opcode)]
        existing.contains_key(opcode) && added.contains_key(opcode) ==> {
            &&& existing[opcode].count + added[opcode].count <= u64::MAX
            &&& existing[opcode].total_time + added[opcode].total_time <= u64::MAX
            &&& existing[opcode].total_gas + added[opcode].total_gas <= u64::MAX
        } {
        assert forall|opcode: u8|
            #![trigger existing.contains_key(opcode)]
            #![trigger added.contains_key(opcode)]
            existing.contains_key(opcode) && added.contains_key(opcode) implies sum_fits(
            existing[opcode],
            added[opcode],
        ) by {
            assert(existing.contains_key(opcode));
        }
    }
}

/// A merged map has the opcodes of both maps and no others. An opcode that only
/// one map has keeps its metric. One that both have gets the sum of each field
/// for which the sum does not exceed a `u64`, whatever the other fields and the
/// other opcodes are.
pub proof fn law_merge_sums_fields(
    existing: Map<u8, ExecutionMetric>,
    added: Map<u8, ExecutionMetric>,
    opcode: u8,
)
    ensures
        ({
            let both = merged(existing, added);
            let (e, a) = (existing[opcode], added[opcode]);
            &&& both.contains_key(opcode) <==> existing.contains_key(opcode) || added.contains_key(
                opcode,
            )
            &&& existing.contains_key(opcode) && !added.contains_key(opcode) ==> both[opcode] == e
            &&& added.contains_key(opcode) && !existing.contains_key(opcode) ==> both[opcode] == a
            &&& existing.contains_key(opcode) && added.contains_key(opcode) ==> {
                &&& e.count + a.count <= u64::MAX ==> both[opcode].count == e.count + a.count
                &&& e.total_time + a.total_time <= u64::MAX ==> both[opcode].total_time
                    == e.total_time + a.total_time
                &&& e.total_gas + a.total_gas <= u64::MAX ==> both[opcode].total_gas == e.total_gas
                    + a.total_gas
            }
        }),
{
}

/// Whether metrics can be merged, or added to a metric, is told just by whether
/// a field that is summed up would exceed a `u64`.
pub proof fn law_overflow_is_told(
    own: OpcodeMetrics,
    existing: OpcodeMetrics,
    a: ExecutionMetric,
    b: ExecutionMetric,
    r: bool,
)
    ensures
        call_ensures(OpcodeMetrics::can_merge_into, (&own, &existing), r) ==> (r <==> forall|
            opcode: u8,
        |
            #![trigger existing@.contains_key(opcode)]
            existing@.contains_key(opcode) && own@.contains_key(opcode) ==> {
                &&& existing@[opcode].count + own@[opcode].count <= u64::MAX
                &&& existing@[opcode].total_time + own@[opcode].total_time <= u64::MAX
                &&& existing@[opcode].total_gas + own@[opcode].total_gas <= u64::MAX
            }),
        call_ensures(ExecutionMetric::can_add, (&a, &b), r) ==> (r <==> {
            &&& a.count + b.count <= u64::MAX
            &&& a.total_time + b.total_time <= u64::MAX
            &&& a.total_gas + b.total_gas <= u64::MAX
        }),
{
    law_merge_fits_unless_a_field_overflows(existing@, own@);
}

/// A lookup finds the metric that was set for the opcode last, and none for an
/// opcode that never had one; setting one opcode changes no other.
pub proof fn law_lookup_finds_what_was_set(
    before: OpcodeMetrics,
    after: OpcodeMetrics,
    opcode: u8,
    metric: ExecutionMetric,
    other: u8,
    empty: OpcodeMetrics,
    r: Option<&ExecutionMetric>,
)
    requires
        after@ == before@.insert(opcode, metric),
        call_ensures(OpcodeMetrics::new, (), empty),
    ensures
        call_ensures(OpcodeMetrics::get, (&after, opcode), r) ==> r == Some(&metric),
        other != opcode && call_ensures(OpcodeMetrics::get, (&after, other), r) ==> r
            == if before@.contains_key(other) {
            Some(&before@[other])
        } else {
            None
        },
        call_ensures(OpcodeMetrics::get, (&empty, opcode), r) ==> r is None,
{
}

/// To merge with no metrics at all changes nothing.
pub proof fn law_merge_with_empty(metrics: Map<u8, ExecutionMetric>)
    ensures
        merged(metrics, Map::empty()) == metrics,
        merged(Map::empty(), metrics) == metrics,
{
    assert(merged(metrics, Map::empty()) =~= metrics);
    assert(merged(Map::empty(), metrics) =~= metrics);
}

/// It makes no difference which of two maps is merged into which.
pub proof fn law_merge_commutes(a: Map<u8, ExecutionMetric>, b: Map<u8, ExecutionMetric>)
    ensures
        merge_fits(a, b) == merge_fits(b, a),
        merged(a, b) == merged(b, a),
{
    assert(merged(a, b) =~= merged(b, a));
}

/// To merge metrics in one after the other is to merge in what they amount to
/// together.
pub proof fn law_merge_associates(
    a: Map<u8, ExecutionMetric>,
    b: Map<u8, ExecutionMetric>,
    c: Map<u8, ExecutionMetric>,
)
    requires
        merge_fits(a, b),
        merge_fits(merged(a, b), c),
    ensures
        merge_fits(b, c),
        merge_fits(a, merged(b, c)),
        merged(merged(a, b), c) == merged(a, merged(b, c)),
{
    assert forall|opcode: u8|
        #![trigger b.contains_key(opcode)]
        #![trigger c.contains_key(opcode)]
        b.contains_key(opcode) && c.contains_key(opcode) implies sum_fits(
        b[opcode],
        c[opcode],
    ) by {
        assert(merged(a, b).contains_key(opcode));
        assert(a.contains_key(opcode) ==> sum_fits(a[opcode], b[opcode]));
    }
    assert forall|opcode: u8|
        #![trigger a.contains_key(opcode)]
        #![trigger merged(b, c).contains_key(opcode)]
        a.contains_key(opcode) && merged(b, c).contains_key(opcode) implies sum_fits(
        a[opcode],
        merged(b, c)[opcode],
    ) by {
        assert(merged(a, b).contains_key(opcode));
        assert(b.contains_key(opcode) ==> sum_fits(a[opcode], b[opcode]));
        assert(c.contains_key(opcode) ==> sum_fits(merged(a, b)[opcode], c[opcode]));
        assert(b.contains_key(opcode) && c.contains_key(opcode) ==> sum_fits(b[opcode], c[opcode]));
    }
    assert forall|opcode: u8| #[trigger]
        merged(merged(a, b), c).contains_key(opcode) implies merged(merged(a, b), c)[opcode]
        == merged(a, merged(b, c))[opcode] by {
        assert(merged(a, b).contains_key(opcode) && c.contains_key(opcode) ==> sum_fits(
            merged(a, b)[opcode],
            c[opcode],
        ));
        assert(a.contains_key(opcode) && b.contains_key(opcode) ==> sum_fits(a[opcode], b[opcode]));
        assert(b.contains_key(opcode) && c.contains_key(opcode) ==> sum_fits(b[opcode], c[opcode]));
    }
    assert(merged(merged(a, b), c) =~= merged(a, merged(b, c)));
}

/// A walk over the metrics comes to each opcode that has a metric exactly once,
/// with that metric, and to no other opcode.
pub proof fn law_walk_comes_to_each_opcode_once(
    metrics: OpcodeMetrics,
    r: Iter<'_, u8, ExecutionMetric>,
    opcode: u8,
    i: int,
    j: int,
)
    requires
        call_ensures(OpcodeMetrics::iter, (&metrics,), r),
        0 <= i < j < vstd::std_specs::iter::IteratorSpec::remaining(&r).len(),
    ensures
        ({
            let pairs = vstd::std_specs::iter::IteratorSpec::remaining(&r);
            &&& *pairs[i].0 != *pairs[j].0
            &&& metrics@.contains_key(*pairs[i].0) && metrics@[*pairs[i].0] == *pairs[i].1
            &&& metrics@.contains_key(*pairs[j].0) && metrics@[*pairs[j].0] == *pairs[j].1
            &&& metrics@.contains_key(opcode) ==> pairs.contains((&opcode, &metrics@[opcode]))
        }),
{
}

/// Where nothing was run yet, there is no metric of any opcode, and a metric by
/// itself starts from zero.
pub proof fn law_nothing_is_counted_at_first(
    empty: OpcodeMetrics,
    metric: ExecutionMetric,
    opcode: u8,
)
    ensures
        call_ensures(OpcodeMetrics::new, (), empty) ==> !empty@.contains_key(opcode),
        call_ensures(<OpcodeMetrics as Default>::default, (), empty) ==> !empty@.contains_key(
            opcode,
        ),
        call_ensures(<ExecutionMetric as Default>::default, (), metric) ==> metric.count == 0
            && metric.total_time == 0 && metric.total_gas == 0,
        zero_metric().count == 0 && zero_metric().total_time == 0 && zero_metric().total_gas == 0,
{
}

} // verus!
