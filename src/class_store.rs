use crate::felt::Felt;
use vstd::prelude::*;

verus! {

/// How many records one write batch of the class store holds.
pub const DB_UPDATES_BATCH_SIZE: usize = 1024;

/// Where a stored object lives, or where a read is anchored: the pending tier,
/// or the finalized tier as of block `n`.
#[derive(Clone, Copy, Debug, PartialEq, Eq, Structural)]
pub enum DbBlockId {
    Pending,
    BlockN(u64),
}

impl DbBlockId {
    /// Whether this is the pending location.
    pub fn is_pending(&self) -> (r: bool)
        ensures
            r == (*self is Pending),
    {
        match self {
            DbBlockId::Pending => true,
            DbBlockId::BlockN(_) => false,
        }
    }
}

/// Whether a record stored at `record` is visible to a read at `requested`:
/// a pending-aware read sees everything it finds; a read as of block `n` sees
/// finalized records of blocks up to `n`, and nothing pending.
pub open spec fn visible(requested: DbBlockId, record: DbBlockId) -> bool {
    match (requested, record) {
        (DbBlockId::Pending, _) => true,
        (DbBlockId::BlockN(n), DbBlockId::BlockN(m)) => m <= n,
        (DbBlockId::BlockN(_), DbBlockId::Pending) => false,
    }
}

/// Decides whether a record stored at `record` is visible to a read at `requested`.
pub fn is_visible(requested: DbBlockId, record: DbBlockId) -> (r: bool)
    ensures
        r == visible(requested, record),
{
    match (requested, record) {
        (DbBlockId::Pending, _) => true,
        (DbBlockId::BlockN(block_n), DbBlockId::BlockN(real_block_n)) => real_block_n <= block_n,
        (DbBlockId::BlockN(_), DbBlockId::Pending) => false,
    }
}

/// A class record as the store holds it: its info and where it was declared.
#[derive(Clone, Copy, Debug)]
pub struct ClassInfoWithBlockNumber<I> {
    pub class_info: I,
    pub block_id: DbBlockId,
}

/// What a read of one class at `requested` returns, given what the pending
/// and the finalized tier hold under its hash. The pending tier is consulted
/// first, and only by a pending-aware read.
pub open spec fn class_read<I>(
    requested: DbBlockId,
    pending: Option<ClassInfoWithBlockNumber<I>>,
    finalized: Option<ClassInfoWithBlockNumber<I>>,
) -> Option<I> {
    let found = if requested is Pending && pending is Some {
        pending
    } else {
        finalized
    };
    match found {
        Some(record) => if visible(requested, record.block_id) {
            Some(record.class_info)
        } else {
            None
        },
        None => None,
    }
}

/// Resolves a class read from what the two tiers hold under the class hash.
/// `pending` is not looked at unless the read is pending-aware.
pub fn get_class_info<I>(
    requested: DbBlockId,
    pending: Option<ClassInfoWithBlockNumber<I>>,
    finalized: Option<ClassInfoWithBlockNumber<I>>,
) -> (r: Option<I>)
    ensures
        r == class_read(requested, pending, finalized),
{
    let found = if requested.is_pending() && pending.is_some() {
        pending
    } else {
        finalized
    };
    match found {
        Some(record) => {
            if is_visible(requested, record.block_id) {
                Some(record.class_info)
            } else {
                None
            }
        },
        None => None,
    }
}

/// Resolves a read of a compiled program from what the two tiers hold under
/// its hash: the pending tier first, for a pending-aware read only. Compiled
/// programs carry no block of their own, so no visibility rule applies.
pub fn get_sierra_compiled<C>(requested: DbBlockId, pending: Option<C>, finalized: Option<C>) -> (r: Option<C>)
    ensures
        r == if requested is Pending && pending is Some {
            pending
        } else {
            finalized
        },
{
    if requested.is_pending() && pending.is_some() {
        pending
    } else {
        finalized
    }
}

/// Whether `plan` lists, in increasing order, exactly the indices `i` below
/// `keep.len()` with `keep[i]`.
pub open spec fn is_index_selection(keep: Seq<bool>, plan: Seq<usize>) -> bool {
    &&& forall|k: int| 0 <= k < plan.len() ==> plan[k] < keep.len() && keep[plan[k] as int]
    &&& forall|k: int, l: int| 0 <= k < l < plan.len() ==> plan[k] < plan[l]
    &&& forall|i: int| 0 <= i < keep.len() && keep[i] ==> plan.contains(i as usize)
}

/// Lists the indices at which `keep` holds, in order.
fn select_indices(keep: &Vec<bool>) -> (r: Vec<usize>)
    ensures
        is_index_selection(keep@, r@),
{
    let mut r: Vec<usize> = Vec::new();
    let mut i: usize = 0;
    while i < keep.len()
        invariant
            0 <= i <= keep.len(),
            forall|k: int| 0 <= k < r@.len() ==> r@[k] < i && keep@[r@[k] as int],
            forall|k: int, l: int| 0 <= k < l < r@.len() ==> r@[k] < r@[l],
            forall|j: int| 0 <= j < i && keep@[j] ==> r@.contains(j as usize),
        decreases keep.len() - i,
    {
        let ghost before = r@;
        if keep[i] {
            r.push(i);
        }
        proof {
            assert forall|j: int| 0 <= j < i + 1 && keep@[j] implies r@.contains(j as usize) by {
                if j < i {
                    let k = choose|k: int| 0 <= k < before.len() && before[k] == j as usize;
                    assert(r@[k] == j as usize);
                } else {
                    assert(r@[r@.len() - 1] == i);
                }
            }
        }
        i = i + 1;
    }
    r
}

/// The classes to write into the info tier: the indices of those whose hash
/// the finalized tier does not hold yet (`already_stored[i]` says it does).
/// A class declared again in a later block is thus not written again: the
/// first writer wins.
pub fn classes_to_store(already_stored: &Vec<bool>) -> (r: Vec<usize>)
    ensures
        is_index_selection(already_stored@.map_values(|s: bool| !s), r@),
{
    let mut keep: Vec<bool> = Vec::new();
    let mut i: usize = 0;
    while i < already_stored.len()
        invariant
            0 <= i <= already_stored.len(),
            keep@ == already_stored@.subrange(0, i as int).map_values(|s: bool| !s),
        decreases already_stored.len() - i,
    {
        keep.push(!already_stored[i]);
        proof {
            assert(already_stored@.subrange(0, i + 1) == already_stored@.subrange(0, i as int).push(
                already_stored@[i as int],
            ));
        }
        i = i + 1;
    }
    proof {
        assert(already_stored@.subrange(0, already_stored@.len() as int) =~= already_stored@);
    }
    select_indices(&keep)
}

/// The classes whose compiled program is written: the indices of those that
/// carry one (`compiled_class_hashes[i]` is `Some`). These are written whether
/// or not the class was known.
pub fn compiled_classes_to_store(compiled_class_hashes: &Vec<Option<Felt>>) -> (r: Vec<usize>)
    ensures
        is_index_selection(compiled_class_hashes@.map_values(|c: Option<Felt>| c is Some), r@),
{
    let mut keep: Vec<bool> = Vec::new();
    let mut i: usize = 0;
    while i < compiled_class_hashes.len()
        invariant
            0 <= i <= compiled_class_hashes.len(),
            keep@ == compiled_class_hashes@.subrange(0, i as int).map_values(|c: Option<Felt>| c is Some),
        decreases compiled_class_hashes.len() - i,
    {
        keep.push(compiled_class_hashes[i].is_some());
        proof {
            assert(compiled_class_hashes@.subrange(0, i + 1) == compiled_class_hashes@.subrange(0, i as int).push(
                compiled_class_hashes@[i as int],
            ));
        }
        i = i + 1;
    }
    proof {
        assert(compiled_class_hashes@.subrange(0, compiled_class_hashes@.len() as int) =~= compiled_class_hashes@);
    }
    select_indices(&keep)
}

/// Whether the tier `after` is `before` with the planned classes written at
/// `block_id`: each planned hash holds a record of `block_id`, and every other
/// hash keeps what it had.
pub open spec fn is_tier_after_store<I>(
    before: Map<Felt, ClassInfoWithBlockNumber<I>>,
    after: Map<Felt, ClassInfoWithBlockNumber<I>>,
    hashes: Seq<Felt>,
    plan: Seq<usize>,
    block_id: DbBlockId,
) -> bool {
    &&& forall|k: int|
        0 <= k < plan.len() ==> after.contains_key(#[trigger] hashes[plan[k] as int])
            && after[hashes[plan[k] as int]].block_id == block_id
    &&& forall|h: Felt|
        !(exists|k: int| 0 <= k < plan.len() && #[trigger] hashes[plan[k] as int] == h) ==> (
        after.contains_key(h) == before.contains_key(h) && (before.contains_key(h) ==> after[h] == before[h]))
}

/// Idempotent class declaration: when a class hash the finalized tier already
/// holds is declared again, in any block, the store plan leaves its record as
/// it was, and every read of it sees the first declaration.
pub proof fn lemma_first_writer_wins<I>(
    finalized: Map<Felt, ClassInfoWithBlockNumber<I>>,
    after: Map<Felt, ClassInfoWithBlockNumber<I>>,
    hashes: Seq<Felt>,
    already_stored: Seq<bool>,
    plan: Seq<usize>,
    block_id: DbBlockId,
    h: Felt,
)
    requires
        already_stored.len() == hashes.len(),
        forall|i: int| 0 <= i < hashes.len() ==> already_stored[i] == finalized.contains_key(#[trigger] hashes[i]),
        is_index_selection(already_stored.map_values(|s: bool| !s), plan),
        is_tier_after_store(finalized, after, hashes, plan, block_id),
        finalized.contains_key(h),
    ensures
        after.contains_key(h),
        after[h] == finalized[h],
        forall|requested: DbBlockId, pending: Option<ClassInfoWithBlockNumber<I>>|
            class_read(requested, pending, Some(after[h])) == class_read(requested, pending, Some(finalized[h])),
{
    assert forall|k: int| 0 <= k < plan.len() implies #[trigger] hashes[plan[k] as int] != h by {
        let i = plan[k] as int;
        assert(already_stored.map_values(|s: bool| !s)[i]);
    }
}

/// Pending visibility: a record in the pending tier is seen by a pending-aware
/// read and by no read as of a finalized block, whatever the finalized tier
/// holds; once the pending tier is cleared, reads as of a finalized block are
/// as they were, and the record is gone.
pub proof fn lemma_pending_visibility<I>(
    record: ClassInfoWithBlockNumber<I>,
    finalized: Option<ClassInfoWithBlockNumber<I>>,
    n: u64,
)
    requires
        record.block_id == DbBlockId::Pending,
    ensures
        class_read(DbBlockId::Pending, Some(record), finalized) == Some(record.class_info),
        class_read(DbBlockId::BlockN(n), Some(record), None) == None::<I>,
        class_read(DbBlockId::BlockN(n), None, Some(record)) == None::<I>,
        class_read(DbBlockId::BlockN(n), Some(record), finalized) == class_read(
            DbBlockId::BlockN(n),
            None,
            finalized,
        ),
        class_read(DbBlockId::Pending, None, None::<ClassInfoWithBlockNumber<I>>) == None::<I>,
{
}

} // verus!
