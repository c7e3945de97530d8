//! Reference counts of outstanding playback permits, by generation.

use std::collections::HashMap;
use vstd::prelude::*;

verus! {

broadcast use vstd::std_specs::hash::group_hash_axioms;

/// The sum of all counts.
pub open spec fn permit_total(counts: Map<u64, usize>) -> nat
    decreases counts.dom().len(),
{
    if counts.dom().finite() && counts.dom().len() > 0 {
        let generation = counts.dom().choose();
        counts[generation] as nat + permit_total(counts.remove(generation))
    } else {
        0
    }
}

/// The count held for one generation, zero where there is none.
pub open spec fn permit_count(counts: Map<u64, usize>, generation: u64) -> nat {
    if counts.contains_key(generation) {
        counts[generation] as nat
    } else {
        0
    }
}

/// Any one count can be split off the sum.
pub proof fn lemma_total_splits(counts: Map<u64, usize>, generation: u64)
    requires
        counts.dom().finite(),
    ensures
        permit_total(counts) == permit_count(counts, generation) + permit_total(
            counts.remove(generation),
        ),
    decreases counts.dom().len(),
{
    if !counts.contains_key(generation) {
        assert(counts.remove(generation) =~= counts);
    } else {
        let chosen = counts.dom().choose();
        if chosen != generation {
            lemma_total_splits(counts.remove(chosen), generation);
            assert(counts.remove(chosen).remove(generation) =~= counts.remove(generation).remove(
                chosen,
            ));
            lemma_total_splits(counts.remove(generation), chosen);
        }
    }
}

/// Setting one count moves the sum by the difference.
pub proof fn lemma_total_after_insert(counts: Map<u64, usize>, generation: u64, count: usize)
    requires
        counts.dom().finite(),
    ensures
        permit_total(counts.insert(generation, count)) == permit_total(counts) - permit_count(
            counts,
            generation,
        ) + count,
{
    lemma_total_splits(counts, generation);
    lemma_total_splits(counts.insert(generation, count), generation);
    assert(counts.insert(generation, count).remove(generation) =~= counts.remove(generation));
}

/// The counts after one more permit of `generation`.
pub open spec fn with_permit(counts: Map<u64, usize>, generation: u64) -> Map<u64, usize> {
    counts.insert(generation, (permit_count(counts, generation) + 1) as usize)
}

/// The counts after one permit of `generation` came back. A generation with
/// nothing out is left alone, and one that reaches zero loses its entry.
pub open spec fn without_permit(counts: Map<u64, usize>, generation: u64) -> Map<u64, usize> {
    if permit_count(counts, generation) <= 1 {
        counts.remove(generation)
    } else {
        counts.insert(generation, (permit_count(counts, generation) - 1) as usize)
    }
}

/// Giving back a permit that was just handed out restores the counts.
pub proof fn law_grant_then_give_back(counts: Map<u64, usize>, generation: u64)
    requires
        forall|g: u64| #[trigger] counts.contains_key(g) ==> counts[g] > 0,
        permit_count(counts, generation) < usize::MAX,
    ensures
        without_permit(with_permit(counts, generation), generation) == counts,
{
    assert(without_permit(with_permit(counts, generation), generation) =~= counts);
}

/// How many permits each generation has handed out and not yet got back. A
/// generation without permits has no entry.
pub struct PermitCounts {
    counts: HashMap<u64, usize>,
}

impl View for PermitCounts {
    type V = Map<u64, usize>;

    closed spec fn view(&self) -> Map<u64, usize> {
        self.counts@
    }
}

impl PermitCounts {
    /// No entry is zero, and the sum can be reported as a `usize`.
    pub open spec fn wf(&self) -> bool {
        &&& self@.dom().finite()
        &&& forall|g: u64| #[trigger] self@.contains_key(g) ==> self@[g] > 0
        &&& permit_total(self@) <= usize::MAX
    }

    pub fn new() -> (r: Self)
        ensures
            r.wf(),
            r@ == Map::<u64, usize>::empty(),
    {
        let counts: HashMap<u64, usize> = HashMap::new();
        assert(counts@.dom().finite());
        PermitCounts { counts }
    }

    /// The permits that `generation` has out.
    pub fn count(&self, generation: u64) -> (r: usize)
        ensures
            r == permit_count(self@, generation),
    {
        match self.counts.get(&generation) {
            Some(count) => *count,
            None => 0,
        }
    }

    /// The permits that all generations together have out.
    pub fn total(&self) -> (r: usize)
        requires
            self.wf(),
        ensures
            r == permit_total(self@),
    {
        let mut sum: usize = 0;
        let ghost mut rest: Map<u64, usize> = self@;
        for generation in it: self.counts.keys()
            invariant
                self.wf(),
                it.seq().unref().to_set() == self@.dom(),
                it.seq().no_duplicates(),
                rest.dom().finite(),
                forall|g: u64| #[trigger]
                    rest.contains_key(g) ==> self@.contains_key(g) && rest[g] == self@[g],
                forall|k: int|
                    it.index() <= k < it.seq().len() && self@.contains_key(*it.seq()[k])
                        ==> rest.contains_key(*#[trigger] it.seq()[k]),
                forall|k: int|
                    0 <= k < it.index() ==> !rest.contains_key(*#[trigger] it.seq()[k]),
                sum + permit_total(rest) == permit_total(self@),
        {
            let count: usize = self.count(*generation);
            proof {
                assert(it.seq().unref()[it.index()] == *generation);
                assert(it.seq().unref().to_set().contains(*generation));
                lemma_total_splits(rest, *generation);
                rest = rest.remove(*generation);
            }
            sum = sum + count;
            assert forall|k: int| it.index() + 1 <= k < it.seq().len()
                && self@.contains_key(*it.seq()[k]) implies rest.contains_key(
                *#[trigger] it.seq()[k],
            ) by {
                assert(it.seq()[k] != it.seq()[it.index()]);
            }
        }
        assert(rest.dom() =~= Set::empty()) by {
            assert forall|g: u64| !rest.dom().contains(g) by {
                if rest.contains_key(g) {
                    assert(self.counts@.dom().contains(g));
                }
            }
        }
        sum
    }

    /// Hands out one more permit of `generation`.
    pub fn grant(&mut self, generation: u64)
        requires
            old(self).wf(),
            permit_total(old(self)@) < usize::MAX,
        ensures
            final(self).wf(),
            final(self)@ == with_permit(old(self)@, generation),
            permit_total(final(self)@) == permit_total(old(self)@) + 1,
    {
        let count: usize = self.count(generation);
        proof {
            lemma_total_splits(self@, generation);
            lemma_total_after_insert(self@, generation, (count + 1) as usize);
        }
        self.counts.insert(generation, count + 1);
    }

    /// Takes back one permit of `generation`.
    pub fn give_back(&mut self, generation: u64)
        requires
            old(self).wf(),
        ensures
            final(self).wf(),
            final(self)@ == without_permit(old(self)@, generation),
            permit_total(final(self)@) == permit_total(old(self)@) - (if permit_count(
                old(self)@,
                generation,
            ) > 0 {
                1int
            } else {
                0int
            }),
    {
        let count: usize = self.count(generation);
        proof {
            lemma_total_splits(self@, generation);
        }
        if count <= 1 {
            self.counts.remove(&generation);
        } else {
            proof {
                lemma_total_after_insert(self@, generation, (count - 1) as usize);
            }
            self.counts.insert(generation, count - 1);
        }
    }
}

/// A permit that is handed out or comes back moves one count by one, never below
/// zero, and leaves those of all other generations alone. A generation without
/// permits has no entry.
pub proof fn law_permits_move_one_count(counts: Map<u64, usize>, generation: u64)
    requires
        permit_count(counts, generation) < usize::MAX,
    ensures
        with_permit(counts, generation).contains_key(generation),
        with_permit(counts, generation)[generation] == (if counts.contains_key(generation) {
            counts[generation] + 1
        } else {
            1
        }),
        with_permit(counts, generation).remove(generation) =~= counts.remove(generation),
        counts.contains_key(generation) && counts[generation] > 1 ==> without_permit(
            counts,
            generation,
        ).contains_key(generation) && without_permit(counts, generation)[generation]
            == counts[generation] - 1,
        !counts.contains_key(generation) || counts[generation] <= 1 ==> !without_permit(
            counts,
            generation,
        ).contains_key(generation),
        without_permit(counts, generation).remove(generation) =~= counts.remove(generation),
{
}

/// The sum is that of the single counts: nothing where there are none, and with
/// one count set aside the rest.
pub proof fn law_total_is_the_sum(counts: Map<u64, usize>, generation: u64, count: usize)
    requires
        counts.dom().finite(),
        !counts.contains_key(generation),
    ensures
        permit_total(Map::empty()) == 0,
        permit_total(counts.insert(generation, count)) == permit_total(counts) + count,
        permit_count(counts.insert(generation, count), generation) == count,
        permit_count(counts, generation) == 0,
{
    assert(Map::<u64, usize>::empty().dom() =~= Set::<u64>::empty());
    lemma_total_after_insert(counts, generation, count);
}

/// A granted permit counts for its generation, one given back no longer, and no
/// other generation is touched.
pub proof fn law_permits_are_counted_by_generation(generation: u64, other: u64)
    requires
        other != generation,
    ensures
        forall|permits: &mut PermitCounts| #[trigger]
            call_ensures(PermitCounts::grant, (permits, generation), ()) && permit_total(
                (*permits)@,
            ) < usize::MAX ==> {
                let before = (*permits)@;
                let after = (*final(permits))@;
                &&& after.contains_key(generation)
                &&& !before.contains_key(generation) ==> after[generation] == 1
                &&& before.contains_key(generation) && before[generation] < usize::MAX
                    ==> after[generation] == before[generation] + 1
                &&& after.contains_key(other) <==> before.contains_key(other)
                &&& before.contains_key(other) ==> after[other] == before[other]
            },
        forall|permits: &mut PermitCounts| #[trigger]
            call_ensures(PermitCounts::give_back, (permits, generation), ()) ==> {
                let before = (*permits)@;
                let after = (*final(permits))@;
                &&& before.contains_key(generation) && before[generation] > 1
                    ==> after.contains_key(generation) && after[generation] == before[generation]
                    - 1
                &&& !before.contains_key(generation) || before[generation] <= 1
                    ==> !after.contains_key(generation)
                &&& after.contains_key(other) <==> before.contains_key(other)
                &&& before.contains_key(other) ==> after[other] == before[other]
            },
{
}

/// A generation's count is the number of its permits, nothing where it has none.
pub proof fn law_count_is_of_the_generation(permits: &PermitCounts, generation: u64, r: usize)
    requires
        call_ensures(PermitCounts::count, (permits, generation), r),
    ensures
        permits@.contains_key(generation) ==> r == permits@[generation],
        !permits@.contains_key(generation) ==> r == 0,
{
}

/// All permits are counted, and none before one was granted.
pub proof fn law_all_permits_are_counted(
    permits: &PermitCounts,
    r: usize,
    fresh: PermitCounts,
    generation: u64,
)
    requires
        call_ensures(PermitCounts::total, (permits,), r),
        call_ensures(PermitCounts::new, (), fresh),
    ensures
        r == permit_total(permits@),
        !fresh@.contains_key(generation),
        permit_total(fresh@) == 0,
{
    assert(fresh@.dom() =~= Set::empty());
}

} // verus!
