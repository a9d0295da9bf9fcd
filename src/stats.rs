use vstd::prelude::*;
use crate::algorithm::Algorithm;

verus! {

/// What a worker learned from one work item: the output was written, after
/// `nanos` nanoseconds of compression with `algorithm`, or the item failed.
#[derive(Debug, Clone, Copy, PartialEq, Eq, Structural)]
pub enum Outcome {
    Succeeded { algorithm: Algorithm, nanos: u128 },
    Failed,
}

/// Statistics of a run or of one worker. Times are in nanoseconds. Every
/// field saturates at the largest value of its type instead of wrapping.
#[derive(Debug, Clone, Copy, PartialEq, Eq, Structural)]
pub struct Stats {
    pub num_files: u64,
    pub num_errors: u64,
    pub brotli_time: u128,
    pub deflate_time: u128,
    pub gzip_time: u128,
    pub zstd_time: u128,
}

/// The quantities that statistics keep track of.
pub enum Counter {
    Succeeded,
    Failed,
    Time(Algorithm),
}

pub open spec fn sat_u64(x: int) -> u64 {
    if x > u64::MAX {
        u64::MAX
    } else {
        x as u64
    }
}

pub open spec fn sat_u128(x: int) -> u128 {
    if x > u128::MAX {
        u128::MAX
    } else {
        x as u128
    }
}

/// How much one outcome contributes to a counter.
pub open spec fn weight(o: Outcome, c: Counter) -> nat {
    match (o, c) {
        (Outcome::Succeeded { .. }, Counter::Succeeded) => 1,
        (Outcome::Failed, Counter::Failed) => 1,
        (Outcome::Succeeded { algorithm, nanos }, Counter::Time(a)) => if algorithm == a {
            nanos as nat
        } else {
            0
        },
        _ => 0,
    }
}

/// The exact (unbounded) total of a counter over a sequence of outcomes.
pub open spec fn total(s: Seq<Outcome>, c: Counter) -> nat
    decreases s.len(),
{
    if s.len() == 0 {
        0
    } else {
        total(s.drop_last(), c) + weight(s.last(), c)
    }
}

/// The statistics that a worker handed the outcomes `s` reports.
pub open spec fn tally(s: Seq<Outcome>) -> Stats {
    Stats {
        num_files: sat_u64(total(s, Counter::Succeeded) as int),
        num_errors: sat_u64(total(s, Counter::Failed) as int),
        brotli_time: sat_u128(total(s, Counter::Time(Algorithm::Brotli)) as int),
        deflate_time: sat_u128(total(s, Counter::Time(Algorithm::Deflate)) as int),
        gzip_time: sat_u128(total(s, Counter::Time(Algorithm::Gzip)) as int),
        zstd_time: sat_u128(total(s, Counter::Time(Algorithm::Zstd)) as int),
    }
}

/// The statistics of several workers, added up from the left starting at zero.
pub open spec fn sum_all(parts: Seq<Stats>) -> Stats
    decreases parts.len(),
{
    if parts.len() == 0 {
        Stats::zero()
    } else {
        sum_all(parts.drop_last()).sum(parts.last())
    }
}

impl Stats {
    pub open spec fn zero() -> Stats {
        Stats {
            num_files: 0,
            num_errors: 0,
            brotli_time: 0,
            deflate_time: 0,
            gzip_time: 0,
            zstd_time: 0,
        }
    }

    /// The time spent on one algorithm.
    pub open spec fn time(self, a: Algorithm) -> u128 {
        match a {
            Algorithm::Brotli => self.brotli_time,
            Algorithm::Deflate => self.deflate_time,
            Algorithm::Gzip => self.gzip_time,
            Algorithm::Zstd => self.zstd_time,
        }
    }

    /// Field-wise saturating addition.
    pub open spec fn sum(self, o: Stats) -> Stats {
        Stats {
            num_files: sat_u64(self.num_files + o.num_files),
            num_errors: sat_u64(self.num_errors + o.num_errors),
            brotli_time: sat_u128(self.brotli_time + o.brotli_time),
            deflate_time: sat_u128(self.deflate_time + o.deflate_time),
            gzip_time: sat_u128(self.gzip_time + o.gzip_time),
            zstd_time: sat_u128(self.zstd_time + o.zstd_time),
        }
    }

    /// The statistics after one more outcome has been recorded.
    pub open spec fn after(self, o: Outcome) -> Stats {
        match o {
            Outcome::Failed => Stats { num_errors: sat_u64(self.num_errors + 1), ..self },
            Outcome::Succeeded { algorithm, nanos } => {
                let s = Stats { num_files: sat_u64(self.num_files + 1), ..self };
                match algorithm {
                    Algorithm::Brotli => Stats { brotli_time: sat_u128(s.brotli_time + nanos), ..s },
                    Algorithm::Deflate => Stats {
                        deflate_time: sat_u128(s.deflate_time + nanos),
                        ..s
                    },
                    Algorithm::Gzip => Stats { gzip_time: sat_u128(s.gzip_time + nanos), ..s },
                    Algorithm::Zstd => Stats { zstd_time: sat_u128(s.zstd_time + nanos), ..s },
                }
            },
        }
    }

    /// Statistics of a worker that has handled nothing yet.
    pub fn new() -> (r: Stats)
        ensures
            r == Stats::zero(),
            r == tally(Seq::empty()),
    {
        Stats {
            num_files: 0,
            num_errors: 0,
            brotli_time: 0,
            deflate_time: 0,
            gzip_time: 0,
            zstd_time: 0,
        }
    }

    /// Adds two statistics field by field, saturating.
    pub fn add(self, rhs: Stats) -> (r: Stats)
        ensures
            r == self.sum(rhs),
    {
        Stats {
            num_files: self.num_files.saturating_add(rhs.num_files),
            num_errors: self.num_errors.saturating_add(rhs.num_errors),
            brotli_time: self.brotli_time.saturating_add(rhs.brotli_time),
            deflate_time: self.deflate_time.saturating_add(rhs.deflate_time),
            gzip_time: self.gzip_time.saturating_add(rhs.gzip_time),
            zstd_time: self.zstd_time.saturating_add(rhs.zstd_time),
        }
    }

    /// Records the outcome of one work item: a success counts one file and
    /// adds its time to its algorithm; a failure counts one error and
    /// leaves everything else as it was.
    pub fn record(&mut self, outcome: Outcome)
        ensures
            *final(self) == old(self).after(outcome),
    {
        match outcome {
            Outcome::Failed => {
                self.num_errors = self.num_errors.saturating_add(1);
            },
            Outcome::Succeeded { algorithm, nanos } => {
                self.num_files = self.num_files.saturating_add(1);
                match algorithm {
                    Algorithm::Brotli => {
                        self.brotli_time = self.brotli_time.saturating_add(nanos);
                    },
                    Algorithm::Deflate => {
                        self.deflate_time = self.deflate_time.saturating_add(nanos);
                    },
                    Algorithm::Gzip => {
                        self.gzip_time = self.gzip_time.saturating_add(nanos);
                    },
                    Algorithm::Zstd => {
                        self.zstd_time = self.zstd_time.saturating_add(nanos);
                    },
                }
            },
        }
    }

    /// The total of the statistics of all workers, added up in order from zero.
    pub fn sum_of(parts: &Vec<Stats>) -> (r: Stats)
        ensures
            r == sum_all(parts@),
    {
        let mut acc = Stats::new();
        let mut i: usize = 0;
        while i < parts.len()
            invariant
                i <= parts@.len(),
                acc == sum_all(parts@.subrange(0, i as int)),
            decreases parts@.len() - i,
        {
            assert(parts@.subrange(0, i + 1).drop_last() =~= parts@.subrange(0, i as int));
            acc = acc.add(parts[i]);
            i = i + 1;
        }
        assert(parts@.subrange(0, i as int) =~= parts@);
        acc
    }
}

impl Default for Stats {
    fn default() -> (r: Stats)
        ensures
            r == Stats::zero(),
    {
        Stats::new()
    }
}

proof fn lemma_sat_u64_add(x: nat, y: nat)
    ensures
        sat_u64(sat_u64(x as int) + sat_u64(y as int)) == sat_u64((x + y) as int),
{
}

proof fn lemma_sat_u128_add(x: nat, y: nat)
    ensures
        sat_u128(sat_u128(x as int) + sat_u128(y as int)) == sat_u128((x + y) as int),
{
}

proof fn lemma_total_concat(s: Seq<Outcome>, t: Seq<Outcome>, c: Counter)
    ensures
        total(s + t, c) == total(s, c) + total(t, c),
    decreases t.len(),
{
    if t.len() == 0 {
        assert(s + t =~= s);
    } else {
        assert((s + t).drop_last() =~= s + t.drop_last());
        lemma_total_concat(s, t.drop_last(), c);
    }
}

proof fn lemma_total_singleton(o: Outcome, c: Counter)
    ensures
        total(seq![o], c) == weight(o, c),
{
    assert(seq![o].drop_last() =~= Seq::<Outcome>::empty());
    assert(total(Seq::<Outcome>::empty(), c) == 0);
}

proof fn lemma_total_permutation(s: Seq<Outcome>, t: Seq<Outcome>, c: Counter)
    requires
        s.to_multiset() == t.to_multiset(),
    ensures
        total(s, c) == total(t, c),
    decreases s.len(),
{
    broadcast use vstd::seq_lib::group_to_multiset_ensures;

    if s.len() == 0 {
        assert(t.to_multiset().len() == 0);
        assert(t =~= Seq::<Outcome>::empty());
    } else {
        let x = s.last();
        let s0 = s.drop_last();
        assert(s =~= s0.push(x));
        assert(t.to_multiset().count(x) > 0);
        assert(t.contains(x));
        let i = choose|i: int| 0 <= i < t.len() && t[i] == x;
        let t0 = t.remove(i);
        vstd::seq_lib::to_multiset_remove(t, i);
        assert(t0.to_multiset() =~= s0.to_multiset());
        lemma_total_permutation(s0, t0, c);
        let a = t.subrange(0, i);
        let b = t.subrange(i + 1, t.len() as int);
        assert(t0 =~= a + b);
        assert(t =~= a + seq![x] + b);
        lemma_total_concat(a, b, c);
        lemma_total_concat(a, seq![x], c);
        lemma_total_concat(a + seq![x], b, c);
        lemma_total_singleton(x, c);
    }
}

/// Adding statistics does not depend on the order of the two operands.
pub proof fn lemma_sum_commutative(a: Stats, b: Stats)
    ensures
        a.sum(b) == b.sum(a),
{
}

/// Adding statistics does not depend on how the additions are grouped.
pub proof fn lemma_sum_associative(a: Stats, b: Stats, c: Stats)
    ensures
        a.sum(b).sum(c) == a.sum(b.sum(c)),
{
}

/// All-zero statistics are the identity of addition.
pub proof fn lemma_sum_zero(a: Stats)
    ensures
        a.sum(Stats::zero()) == a,
        Stats::zero().sum(a) == a,
{
}

/// Recording one more outcome on a worker's statistics gives the statistics
/// of the longer sequence of outcomes.
pub proof fn lemma_tally_push(s: Seq<Outcome>, o: Outcome)
    ensures
        tally(s.push(o)) == tally(s).after(o),
{
    assert(s.push(o).drop_last() =~= s);
    assert(s.push(o).last() == o);
}

/// The statistics of two runs of outcomes, added, are the statistics of
/// the two runs one after the other.
pub proof fn lemma_tally_concat(s: Seq<Outcome>, t: Seq<Outcome>)
    ensures
        tally(s + t) == tally(s).sum(tally(t)),
{
    lemma_total_concat(s, t, Counter::Succeeded);
    lemma_total_concat(s, t, Counter::Failed);
    lemma_total_concat(s, t, Counter::Time(Algorithm::Brotli));
    lemma_total_concat(s, t, Counter::Time(Algorithm::Deflate));
    lemma_total_concat(s, t, Counter::Time(Algorithm::Gzip));
    lemma_total_concat(s, t, Counter::Time(Algorithm::Zstd));
    lemma_sat_u64_add(total(s, Counter::Succeeded), total(t, Counter::Succeeded));
    lemma_sat_u64_add(total(s, Counter::Failed), total(t, Counter::Failed));
    lemma_sat_u128_add(
        total(s, Counter::Time(Algorithm::Brotli)),
        total(t, Counter::Time(Algorithm::Brotli)),
    );
    lemma_sat_u128_add(
        total(s, Counter::Time(Algorithm::Deflate)),
        total(t, Counter::Time(Algorithm::Deflate)),
    );
    lemma_sat_u128_add(
        total(s, Counter::Time(Algorithm::Gzip)),
        total(t, Counter::Time(Algorithm::Gzip)),
    );
    lemma_sat_u128_add(
        total(s, Counter::Time(Algorithm::Zstd)),
        total(t, Counter::Time(Algorithm::Zstd)),
    );
}

/// The statistics of a sequence of outcomes do not depend on the order in
/// which the outcomes came.
pub proof fn lemma_tally_permutation(s: Seq<Outcome>, t: Seq<Outcome>)
    requires
        s.to_multiset() == t.to_multiset(),
    ensures
        tally(s) == tally(t),
{
    lemma_total_permutation(s, t, Counter::Succeeded);
    lemma_total_permutation(s, t, Counter::Failed);
    lemma_total_permutation(s, t, Counter::Time(Algorithm::Brotli));
    lemma_total_permutation(s, t, Counter::Time(Algorithm::Deflate));
    lemma_total_permutation(s, t, Counter::Time(Algorithm::Gzip));
    lemma_total_permutation(s, t, Counter::Time(Algorithm::Zstd));
}

/// Every work item counts either as a success or as a failure: while the
/// count fits, successes plus failures equal the number of items handled.
pub proof fn lemma_conservation(s: Seq<Outcome>)
    requires
        s.len() <= u64::MAX,
    ensures
        tally(s).num_files + tally(s).num_errors == s.len(),
{
    lemma_counted_once(s);
}

proof fn lemma_counted_once(s: Seq<Outcome>)
    ensures
        total(s, Counter::Succeeded) + total(s, Counter::Failed) == s.len(),
    decreases s.len(),
{
    if s.len() > 0 {
        lemma_counted_once(s.drop_last());
    }
}

/// However the work items were shared out among workers, and in whatever
/// order each worker met its share, the sum of the workers' statistics is
/// what one worker handling every item would report.
pub proof fn lemma_workers_agree(shares: Seq<Seq<Outcome>>, all: Seq<Outcome>)
    requires
        shares.flatten().to_multiset() == all.to_multiset(),
    ensures
        sum_all(shares.map_values(|w: Seq<Outcome>| tally(w))) == tally(all),
{
    lemma_sum_all_flatten(shares);
    lemma_tally_permutation(shares.flatten(), all);
}

proof fn lemma_sum_all_flatten(shares: Seq<Seq<Outcome>>)
    ensures
        sum_all(shares.map_values(|w: Seq<Outcome>| tally(w))) == tally(shares.flatten()),
    decreases shares.len(),
{
    let parts = shares.map_values(|w: Seq<Outcome>| tally(w));
    if shares.len() == 0 {
        assert(shares.flatten() =~= Seq::<Outcome>::empty());
    } else {
        let init = shares.drop_last();
        assert(parts.drop_last() =~= init.map_values(|w: Seq<Outcome>| tally(w)));
        lemma_sum_all_flatten(init);
        assert(shares =~= init.push(shares.last()));
        init.lemma_flatten_push(shares.last());
        lemma_tally_concat(init.flatten(), shares.last());
    }
}

/// A failed work item, wherever it comes among the others, adds one error
/// to what the other items make and changes nothing else.
pub proof fn lemma_failure_isolated(before: Seq<Outcome>, after: Seq<Outcome>)
    ensures
        tally(before + seq![Outcome::Failed] + after) == tally(before + after).after(
            Outcome::Failed,
        ),
{
    broadcast use vstd::seq_lib::lemma_multiset_commutative;

    let f = seq![Outcome::Failed];
    let whole = before + f + after;
    let moved = (before + after).push(Outcome::Failed);
    assert(whole =~= before + (f + after));
    assert(moved =~= before + (after + f));
    assert((f + after).to_multiset() =~= (after + f).to_multiset());
    assert(whole.to_multiset() =~= moved.to_multiset());
    lemma_tally_permutation(whole, moved);
    lemma_tally_push(before + after, Outcome::Failed);
}

} // verus!
