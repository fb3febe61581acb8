use vstd::prelude::*;

verus! {

/// Issues curve ids 1, 2, 3, ...; 0 is never issued.
#[derive(Debug)]
pub struct IdAllocator {
    pub last: usize,
}

impl IdAllocator {
    pub fn new() -> (r: IdAllocator)
        ensures
            r.last == 0,
    {
        IdAllocator { last: 0 }
    }
}

/// The next id: one more than the last one issued.
pub fn new_id(ids: &mut IdAllocator) -> (r: usize)
    requires
        old(ids).last < usize::MAX,
    ensures
        r == old(ids).last + 1,
        final(ids).last == r,
{
    ids.last = ids.last + 1;
    ids.last
}

/// Ids issued one after another by a fresh allocator, each one more than the
/// one before and the first equal to 1, are exactly 1, 2, ..., n: all
/// distinct, increasing, with no gap.
pub proof fn lemma_ids_contiguous(issued: Seq<usize>)
    requires
        issued.len() > 0 ==> issued[0] == 1,
        forall|k: int| 0 <= k < issued.len() - 1 ==> #[trigger] issued[k + 1] == issued[k] + 1,
    ensures
        forall|k: int| 0 <= k < issued.len() ==> #[trigger] issued[k] == k + 1,
        forall|j: int, k: int| 0 <= j < k < issued.len() ==> issued[j] < issued[k],
    decreases issued.len(),
{
    if issued.len() > 1 {
        let init = issued.drop_last();
        assert forall|k: int| 0 <= k < init.len() - 1 implies #[trigger] init[k + 1] == init[k] + 1 by {
            assert(init[k + 1] == issued[k + 1]);
        }
        lemma_ids_contiguous(init);
        assert forall|k: int| 0 <= k < issued.len() implies #[trigger] issued[k] == k + 1 by {
            if k < init.len() {
                assert(init[k] == issued[k]);
            } else {
                assert(init[k - 1] == issued[k - 1]);
            }
        }
    }
}

} // verus!
