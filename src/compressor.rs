use vstd::prelude::*;
use crate::algorithm::{lemma_enabled_exact, Algorithm, Algorithms};
use crate::filter::{is_eligible_path, should_compress};

verus! {

/// The smallest capacity of the work queue.
pub const MIN_QUEUE_CAPACITY: usize = 64;

/// The algorithms to run on one entry of the walk: every enabled one when
/// the entry is a regular file, not a symbolic link, with an eligible
/// extension; none otherwise.
pub open spec fn planned(
    sel: Algorithms,
    path: Seq<char>,
    is_symlink: bool,
    is_file: bool,
) -> Seq<Algorithm> {
    if is_eligible_path(path) && !is_symlink && is_file {
        sel.enabled_seq()
    } else {
        Seq::empty()
    }
}

/// The capacity of the work queue for a pool of `threads` workers.
pub open spec fn capacity_for(threads: int) -> int {
    if 2 * threads > MIN_QUEUE_CAPACITY {
        2 * threads
    } else {
        MIN_QUEUE_CAPACITY as int
    }
}

/// The settings of one run: the number of workers, the quality handed to
/// every codec context, and the algorithms to produce.
pub struct Compressor<Q> {
    threads: usize,
    quality: Q,
    algorithms: Algorithms,
}

impl<Q> Compressor<Q> {
    #[verifier::type_invariant]
    spec fn inv(self) -> bool {
        1 <= self.threads <= usize::MAX / 2
    }

    pub closed spec fn spec_threads(&self) -> usize {
        self.threads
    }

    pub closed spec fn spec_quality(&self) -> Q {
        self.quality
    }

    pub closed spec fn spec_algorithms(&self) -> Algorithms {
        self.algorithms
    }

    pub fn new(threads: usize, quality: Q, algorithms: Algorithms) -> (r: Self)
        requires
            1 <= threads <= usize::MAX / 2,
        ensures
            r.spec_threads() == threads,
            r.spec_quality() == quality,
            r.spec_algorithms() == algorithms,
    {
        Compressor { threads, quality, algorithms }
    }

    pub fn threads(&self) -> (r: usize)
        ensures
            r == self.spec_threads(),
            1 <= r <= usize::MAX / 2,
    {
        proof {
            use_type_invariant(self);
        }
        self.threads
    }

    pub fn quality(&self) -> (r: &Q)
        ensures
            *r == self.spec_quality(),
    {
        &self.quality
    }

    pub fn algorithms(&self) -> (r: Algorithms)
        ensures
            r == self.spec_algorithms(),
    {
        self.algorithms
    }

    /// The capacity of the bounded work queue: twice the number of workers,
    /// and never less than the minimum.
    pub fn queue_capacity(&self) -> (r: usize)
        ensures
            r == capacity_for(self.spec_threads() as int),
            r >= 2 * self.spec_threads(),
            r >= MIN_QUEUE_CAPACITY,
    {
        proof {
            use_type_invariant(self);
        }
        let doubled = self.threads * 2;
        if doubled > MIN_QUEUE_CAPACITY {
            doubled
        } else {
            MIN_QUEUE_CAPACITY
        }
    }

    /// The work items for one entry of the walk: one per enabled algorithm,
    /// each carrying the entry's path, when the entry is a regular file, not
    /// a symbolic link, whose extension is eligible; none otherwise.
    pub fn units_for(&self, path: &str, is_symlink: bool, is_file: bool) -> (r: Vec<
        (Algorithm, String),
    >)
        ensures
            r@.len() == planned(self.spec_algorithms(), path@, is_symlink, is_file).len(),
            forall|i: int|
                0 <= i < r@.len() ==> (#[trigger] r@[i]).0 == planned(
                    self.spec_algorithms(),
                    path@,
                    is_symlink,
                    is_file,
                )[i] && r@[i].1@ == path@,
    {
        let mut units: Vec<(Algorithm, String)> = Vec::new();
        if is_symlink || !is_file || !should_compress(path) {
            return units;
        }
        let algs = self.algorithms.enabled();
        let mut i: usize = 0;
        while i < algs.len()
            invariant
                i <= algs@.len(),
                algs@ == self.spec_algorithms().enabled_seq(),
                planned(self.spec_algorithms(), path@, is_symlink, is_file) == algs@,
                units@.len() == i,
                forall|k: int|
                    0 <= k < i ==> (#[trigger] units@[k]).0 == algs@[k] && units@[k].1@ == path@,
            decreases algs@.len() - i,
        {
            units.push((algs[i], path.to_owned()));
            i = i + 1;
        }
        units
    }
}

/// An entry gets a work item for algorithm `a` exactly when it is a regular
/// file, not a symbolic link, with an eligible extension, and `a` is
/// selected; and then exactly one.
pub proof fn lemma_eligibility(
    sel: Algorithms,
    path: Seq<char>,
    is_symlink: bool,
    is_file: bool,
    a: Algorithm,
)
    ensures
        planned(sel, path, is_symlink, is_file).contains(a) <==> (is_eligible_path(path)
            && !is_symlink && is_file && sel.includes(a)),
        planned(sel, path, is_symlink, is_file).no_duplicates(),
{
    lemma_enabled_exact(sel);
}

/// A symbolic link gets no work item, whatever it points to.
pub proof fn lemma_symlink_excluded(sel: Algorithms, path: Seq<char>, is_file: bool)
    ensures
        planned(sel, path, true, is_file).len() == 0,
{
}

} // verus!
