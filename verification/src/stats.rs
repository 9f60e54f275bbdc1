//! Gold and last hits that units are worth.

use vstd::prelude::*;

verus! {

/// A unit whose kill gives gold and counts as last hits.
pub trait GoldCollectable: Sized {
    /// The gold of a kill.
    spec fn spec_golds(&self) -> nat;

    /// The gold can be computed without overflow.
    spec fn golds_in_range(&self) -> bool;

    /// The last hits a kill counts for.
    spec fn spec_to_last_hit(&self) -> nat;

    /// The gold of a kill.
    fn golds(&self) -> (r: usize)
        requires
            self.golds_in_range(),
        ensures
            r == self.spec_golds(),
    ;

    /// The last hits a kill counts for; none by default.
    fn to_last_hit(&self) -> (r: usize)
        ensures
            r == self.spec_to_last_hit(),
    ;
}

/// The gold of all `items`.
pub open spec fn sum_golds<T: GoldCollectable>(items: Seq<T>) -> nat
    decreases items.len(),
{
    if items.len() == 0 {
        0
    } else {
        sum_golds(items.drop_last()) + items.last().spec_golds()
    }
}

/// The last hits of all `items`.
pub open spec fn sum_last_hits<T: GoldCollectable>(items: Seq<T>) -> nat
    decreases items.len(),
{
    if items.len() == 0 {
        0
    } else {
        sum_last_hits(items.drop_last()) + items.last().spec_to_last_hit()
    }
}

/// Adding the gold of the first items never gives more than adding all of them.
proof fn lemma_sum_golds_prefix<T: GoldCollectable>(items: Seq<T>, i: int)
    requires
        0 <= i <= items.len(),
    ensures
        sum_golds(items.take(i)) <= sum_golds(items),
    decreases items.len() - i,
{
    if i < items.len() {
        lemma_sum_golds_prefix(items, i + 1);
        assert(items.take(i + 1).drop_last() =~= items.take(i));
    } else {
        assert(items.take(i) =~= items);
    }
}

/// Adding the last hits of the first items never gives more than adding all of them.
proof fn lemma_sum_last_hits_prefix<T: GoldCollectable>(items: Seq<T>, i: int)
    requires
        0 <= i <= items.len(),
    ensures
        sum_last_hits(items.take(i)) <= sum_last_hits(items),
    decreases items.len() - i,
{
    if i < items.len() {
        lemma_sum_last_hits_prefix(items, i + 1);
        assert(items.take(i + 1).drop_last() =~= items.take(i));
    } else {
        assert(items.take(i) =~= items);
    }
}

/// The gold of two groups of units together is the gold of the first added to the
/// gold of the second.
pub proof fn lemma_sum_golds_concat<T: GoldCollectable>(a: Seq<T>, b: Seq<T>)
    ensures
        sum_golds(a + b) == sum_golds(a) + sum_golds(b),
    decreases b.len(),
{
    if b.len() == 0 {
        assert(a + b =~= a);
    } else {
        lemma_sum_golds_concat(a, b.drop_last());
        assert((a + b).drop_last() =~= a + b.drop_last());
    }
}

/// The last hits of two groups of units together are the last hits of the first added
/// to those of the second.
pub proof fn lemma_sum_last_hits_concat<T: GoldCollectable>(a: Seq<T>, b: Seq<T>)
    ensures
        sum_last_hits(a + b) == sum_last_hits(a) + sum_last_hits(b),
    decreases b.len(),
{
    if b.len() == 0 {
        assert(a + b =~= a);
    } else {
        lemma_sum_last_hits_concat(a, b.drop_last());
        assert((a + b).drop_last() =~= a + b.drop_last());
    }
}

/// The total gold of `items`, which must fit a `usize`.
pub fn collect_golds<T: GoldCollectable>(items: &[T]) -> (r: usize)
    requires
        forall|i: int| 0 <= i < items@.len() ==> (#[trigger] items@[i]).golds_in_range(),
        sum_golds(items@) <= usize::MAX,
    ensures
        r == sum_golds(items@),
{
    let mut total: usize = 0;
    let mut i: usize = 0;
    while i < items.len()
        invariant
            i <= items@.len(),
            forall|j: int| 0 <= j < items@.len() ==> (#[trigger] items@[j]).golds_in_range(),
            sum_golds(items@) <= usize::MAX,
            total == sum_golds(items@.take(i as int)),
        decreases items@.len() - i,
    {
        proof {
            assert(items@.take(i + 1).drop_last() =~= items@.take(i as int));
            lemma_sum_golds_prefix(items@, i + 1);
        }
        total = total + items[i].golds();
        i = i + 1;
    }
    assert(items@.take(items@.len() as int) =~= items@);
    total
}

/// The total last hits of `items`, which must fit a `usize`.
pub fn collect_last_hits<T: GoldCollectable>(items: &[T]) -> (r: usize)
    requires
        sum_last_hits(items@) <= usize::MAX,
    ensures
        r == sum_last_hits(items@),
{
    let mut total: usize = 0;
    let mut i: usize = 0;
    while i < items.len()
        invariant
            i <= items@.len(),
            sum_last_hits(items@) <= usize::MAX,
            total == sum_last_hits(items@.take(i as int)),
        decreases items@.len() - i,
    {
        proof {
            assert(items@.take(i + 1).drop_last() =~= items@.take(i as int));
            lemma_sum_last_hits_prefix(items@, i + 1);
        }
        total = total + items[i].to_last_hit();
        i = i + 1;
    }
    assert(items@.take(items@.len() as int) =~= items@);
    total
}

} // verus!
