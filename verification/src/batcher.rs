//! Shuffled mini-batches of sample indices.
//!
//! A dataset of `n` samples is visited once per epoch in a random order.  The
//! order is a permutation of the indices `0..n`; the batches are its
//! contiguous runs of `batch_size` indices, the last of which may be shorter.

use rand::seq::SliceRandom;
use vstd::arithmetic::div_mod::lemma_fundamental_div_mod_converse;
use vstd::prelude::*;

verus! {

/// Whether `order` lists each of the indices `0..n` exactly once.
pub open spec fn is_permutation(order: Seq<usize>, n: nat) -> bool {
    &&& order.len() == n
    &&& order.no_duplicates()
    &&& forall|i: int| 0 <= i < order.len() ==> order[i] < n
    &&& forall|x: usize| x < n ==> order.contains(x)
}

/// The indices `0..n` in ascending order.
pub open spec fn ascending(n: nat) -> Seq<usize> {
    Seq::new(n, |i: int| i as usize)
}

/// How many batches of at most `batch_size` items hold `len` items.
pub open spec fn batch_count(len: nat, batch_size: nat) -> nat
    recommends
        batch_size > 0,
{
    if len % batch_size == 0 {
        len / batch_size
    } else {
        len / batch_size + 1
    }
}

/// The `k`-th contiguous run of `batch_size` items of `items`, cut short
/// where `items` ends.
pub open spec fn run(items: Seq<usize>, batch_size: nat, k: int) -> Seq<usize> {
    let start = k * batch_size;
    let end = if start + batch_size <= items.len() {
        start + batch_size
    } else {
        items.len() as int
    };
    items.subrange(start, end)
}

/// Whether `batches` are the runs of `items`, in order and without a gap.
pub open spec fn is_split(batches: Seq<Seq<usize>>, items: Seq<usize>, batch_size: nat) -> bool {
    &&& batches.len() == batch_count(items.len(), batch_size)
    &&& forall|k: int| 0 <= k < batches.len() ==> #[trigger] batches[k] == run(items, batch_size, k)
}

/// The contents of a list of batches.
pub open spec fn contents(batches: Seq<Vec<usize>>) -> Seq<Seq<usize>> {
    Seq::new(batches.len(), |k: int| batches[k]@)
}

/// Whether `x` stands at some place of some batch.
pub open spec fn occurs(batches: Seq<Seq<usize>>, x: usize) -> bool {
    exists|k: int, p: int|
        0 <= k < batches.len() && 0 <= p < batches[k].len() && #[trigger] batches[k][p] == x
}

/// Whether `batches` split some permutation of `0..n` into runs of
/// `batch_size`: the permutation is then their concatenation.
pub open spec fn is_batching(batches: Seq<Seq<usize>>, n: nat, batch_size: nat) -> bool {
    &&& is_permutation(batches.flatten(), n)
    &&& is_split(batches, batches.flatten(), batch_size)
}

proof fn lemma_ascending_is_permutation(n: nat)
    requires
        n <= usize::MAX,
    ensures
        is_permutation(ascending(n), n),
{
    assert forall|x: usize| x < n implies ascending(n).contains(x) by {
        assert(ascending(n)[x as int] == x);
    }
}

/// A rearrangement of a permutation of `0..n` is a permutation of `0..n`.
proof fn lemma_rearranged_permutation(before: Seq<usize>, after: Seq<usize>, n: nat)
    requires
        is_permutation(before, n),
        after.to_multiset() == before.to_multiset(),
    ensures
        is_permutation(after, n),
{
    before.to_multiset_ensures();
    after.to_multiset_ensures();
    before.lemma_multiset_has_no_duplicates();
    after.lemma_multiset_has_no_duplicates_conv();
    assert forall|i: int| 0 <= i < after.len() implies after[i] < n by {
        assert(before.to_multiset().count(after[i]) > 0);
    }
    assert forall|x: usize| x < n implies after.contains(x) by {
        assert(after.to_multiset().count(x) > 0);
    }
}

/// Every batch of a split starts inside the sequence that was split.
proof fn lemma_batch_starts_inside(len: nat, batch_size: nat, k: int)
    requires
        batch_size > 0,
        0 <= k < batch_count(len, batch_size),
    ensures
        0 <= k * batch_size < len,
{
    let q = len as int / batch_size as int;
    let r = len as int % batch_size as int;
    vstd::arithmetic::div_mod::lemma_fundamental_div_mod(len as int, batch_size as int);
    assert(0 <= k * batch_size < len) by (nonlinear_arith)
        requires
            batch_size > 0,
            len == batch_size * q + r,
            0 <= r < batch_size,
            0 <= k,
            r == 0 ==> k < q,
            r != 0 ==> k <= q,
    ;
}

/// The batches of a split reach the end of the sequence that was split.
proof fn lemma_batches_reach_end(len: nat, batch_size: nat)
    requires
        batch_size > 0,
    ensures
        batch_count(len, batch_size) * batch_size >= len,
{
    let q = len as int / batch_size as int;
    let r = len as int % batch_size as int;
    let count = batch_count(len, batch_size) as int;
    vstd::arithmetic::div_mod::lemma_fundamental_div_mod(len as int, batch_size as int);
    assert(count * batch_size >= len) by (nonlinear_arith)
        requires
            batch_size > 0,
            len == batch_size * q + r,
            0 <= r < batch_size,
            r == 0 ==> count == q,
            r != 0 ==> count == q + 1,
    ;
}

/// The first `j` batches of a split, put end to end, are the items that
/// come before the start of batch `j`.
proof fn lemma_split_prefix(
    batches: Seq<Seq<usize>>,
    items: Seq<usize>,
    batch_size: nat,
    j: int,
)
    requires
        batch_size > 0,
        is_split(batches, items, batch_size),
        0 <= j <= batches.len(),
    ensures
        j < batches.len() ==> batches.take(j).flatten() == items.subrange(0, j * batch_size),
        j == batches.len() ==> batches.take(j).flatten() == items,
    decreases j,
{
    if j == 0 {
        if batches.len() == 0 {
            lemma_batches_reach_end(items.len(), batch_size);
        }
    } else {
        let k = j - 1;
        lemma_split_prefix(batches, items, batch_size, k);
        lemma_batch_starts_inside(items.len(), batch_size, k);
        assert((k + 1) * batch_size == k * batch_size + batch_size) by (nonlinear_arith);
        assert(batches.take(j) =~= batches.take(k).push(batches[k]));
        batches.take(k).lemma_flatten_push(batches[k]);
        if j < batches.len() {
            lemma_batch_starts_inside(items.len(), batch_size, j);
        } else {
            lemma_batches_reach_end(items.len(), batch_size);
        }
    }
}

/// The batches of a split, put end to end, give back the sequence that was
/// split.
pub proof fn lemma_split_concatenates(
    batches: Seq<Seq<usize>>,
    items: Seq<usize>,
    batch_size: nat,
)
    requires
        batch_size > 0,
        is_split(batches, items, batch_size),
    ensures
        batches.flatten() == items,
{
    lemma_split_prefix(batches, items, batch_size, batches.len() as int);
    assert(batches.take(batches.len() as int) =~= batches);
}

/// Where the item at place `p` of batch `k` stands in the sequence that was
/// split.
proof fn lemma_place_in_run(items: Seq<usize>, batch_size: nat, k: int, p: int)
    requires
        batch_size > 0,
        0 <= k < batch_count(items.len(), batch_size),
        0 <= p < run(items, batch_size, k).len(),
    ensures
        p < batch_size,
        0 <= k * batch_size + p < items.len(),
        run(items, batch_size, k)[p] == items[k * batch_size + p],
{
    lemma_batch_starts_inside(items.len(), batch_size, k);
}

/// In a batching of `n` samples no batch is empty, every batch but the last
/// holds `batch_size` indices and the last holds the rest; each index below
/// `n` stands at exactly one place of exactly one batch, and no other number
/// stands anywhere.
pub proof fn lemma_batching_covers_once(batches: Seq<Seq<usize>>, n: nat, batch_size: nat)
    requires
        batch_size > 0,
        is_batching(batches, n, batch_size),
    ensures
        batches.len() == batch_count(n, batch_size),
        forall|k: int| 0 <= k < batches.len() ==> 0 < (#[trigger] batches[k]).len() <= batch_size,
        forall|k: int| 0 <= k < batches.len() - 1 ==> (#[trigger] batches[k]).len() == batch_size,
        batches.len() > 0 ==> batches.last().len() == n - (batches.len() - 1) * batch_size,
        forall|x: usize| x < n ==> #[trigger] occurs(batches, x),
        forall|k: int, p: int|
            0 <= k < batches.len() && 0 <= p < batches[k].len() ==> #[trigger] batches[k][p] < n,
        forall|ka: int, pa: int, kb: int, pb: int|
            0 <= ka < batches.len() && 0 <= pa < batches[ka].len() && 0 <= kb < batches.len() && 0
                <= pb < batches[kb].len() && #[trigger] batches[ka][pa] == #[trigger] batches[kb][pb]
                ==> ka == kb && pa == pb,
{
    let order = batches.flatten();
    let count = batches.len() as int;
    assert forall|k: int| 0 <= k < count implies 0 < (#[trigger] batches[k]).len()
        <= batch_size by {
        lemma_batch_starts_inside(n, batch_size, k);
    }
    assert forall|k: int| 0 <= k < count - 1 implies (#[trigger] batches[k]).len()
        == batch_size by {
        lemma_batch_starts_inside(n, batch_size, k);
        lemma_batch_starts_inside(n, batch_size, k + 1);
        assert((k + 1) * batch_size == k * batch_size + batch_size) by (nonlinear_arith);
    }
    if count > 0 {
        lemma_batch_starts_inside(n, batch_size, count - 1);
        lemma_batches_reach_end(n, batch_size);
        assert(count * batch_size == (count - 1) * batch_size + batch_size) by (nonlinear_arith);
    }
    assert forall|x: usize| x < n implies #[trigger] occurs(batches, x) by {
        assert(order.contains(x));
        let i = choose|i: int| 0 <= i < order.len() && order[i] == x;
        let k = i / batch_size as int;
        let p = i % batch_size as int;
        vstd::arithmetic::div_mod::lemma_fundamental_div_mod(i, batch_size as int);
        lemma_batches_reach_end(n, batch_size);
        assert(0 <= k < count && k * batch_size + p == i) by (nonlinear_arith)
            requires
                batch_size > 0,
                0 <= i < n,
                i == batch_size * k + p,
                0 <= p < batch_size,
                count * batch_size >= n,
                count >= 0,
        ;
        lemma_batch_starts_inside(n, batch_size, k);
        assert(batches[k][p] == x);
    }
    assert forall|k: int, p: int|
        0 <= k < batches.len() && 0 <= p < batches[k].len() implies #[trigger] batches[k][p]
        < n by {
        lemma_place_in_run(order, batch_size, k, p);
    }
    assert forall|ka: int, pa: int, kb: int, pb: int|
        0 <= ka < batches.len() && 0 <= pa < batches[ka].len() && 0 <= kb < batches.len() && 0
            <= pb < batches[kb].len() && #[trigger] batches[ka][pa]
            == #[trigger] batches[kb][pb] implies ka == kb && pa == pb by {
        lemma_place_in_run(order, batch_size, ka, pa);
        lemma_place_in_run(order, batch_size, kb, pb);
        let i = ka * batch_size + pa;
        lemma_fundamental_div_mod_converse(i, batch_size as int, ka, pa);
        lemma_fundamental_div_mod_converse(i, batch_size as int, kb, pb);
    }
}

/// Rearranges `items` in place with `rand::seq::SliceRandom::shuffle`, driven
/// by the thread-local generator `rand::thread_rng`.  Which arrangement comes
/// out is left open; what is claimed is that the call only exchanges
/// elements, so the same items are there afterwards, each as often as before.
#[verifier::external_body]
fn shuffle(items: &mut Vec<usize>)
    ensures
        final(items)@.to_multiset() == old(items)@.to_multiset(),
{
    items.shuffle(&mut rand::thread_rng());
}

/// The indices `0..n` in a random order.
pub fn sample(n: usize) -> (order: Vec<usize>)
    ensures
        is_permutation(order@, n as nat),
{
    let mut order: Vec<usize> = Vec::new();
    let mut i: usize = 0;
    while i < n
        invariant
            i <= n,
            order@ == ascending(i as nat),
        decreases n - i,
    {
        order.push(i);
        i += 1;
    }
    let ghost sorted = order@;
    shuffle(&mut order);
    proof {
        lemma_ascending_is_permutation(n as nat);
        lemma_rearranged_permutation(sorted, order@, n as nat);
    }
    order
}

/// Cuts `items` into contiguous batches of `batch_size`, the last one
/// shorter where `batch_size` does not divide the number of items.
pub fn partition(items: &Vec<usize>, batch_size: usize) -> (batches: Vec<Vec<usize>>)
    requires
        batch_size > 0,
    ensures
        is_split(contents(batches@), items@, batch_size as nat),
{
    let mut batches: Vec<Vec<usize>> = Vec::new();
    let mut current: Vec<usize> = Vec::new();
    let ghost mut start: int = 0;
    let mut i: usize = 0;
    assert(batches.len() * batch_size == 0) by (nonlinear_arith)
        requires
            batches.len() == 0,
    ;
    while i < items.len()
        invariant
            batch_size > 0,
            i <= items.len(),
            start == batches.len() * batch_size,
            start + current.len() == i,
            current.len() < batch_size,
            current@ == items@.subrange(start, i as int),
            forall|k: int|
                0 <= k < batches.len() ==> (#[trigger] batches[k])@ == run(
                    items@,
                    batch_size as nat,
                    k,
                ),
        decreases items.len() - i,
    {
        current.push(items[i]);
        i += 1;
        if current.len() == batch_size {
            proof {
                let filled = batches.len() as int;
                assert((filled + 1) * batch_size == filled * batch_size + batch_size)
                    by (nonlinear_arith);
            }
            batches.push(current);
            current = Vec::new();
            proof {
                start = i as int;
            }
        }
    }
    if current.len() != 0 {
        proof {
            lemma_fundamental_div_mod_converse(
                items.len() as int,
                batch_size as int,
                batches.len() as int,
                current.len() as int,
            );
        }
        batches.push(current);
    } else {
        proof {
            lemma_fundamental_div_mod_converse(
                items.len() as int,
                batch_size as int,
                batches.len() as int,
                0,
            );
        }
    }
    batches
}

/// A dataset with a sample has a batch.
pub proof fn lemma_batches_exist(len: nat, batch_size: nat)
    requires
        len > 0,
        batch_size > 0,
    ensures
        batch_count(len, batch_size) > 0,
{
    lemma_batches_reach_end(len, batch_size);
}

/// The indices `0..dataset_len` in a fresh random order, cut into batches
/// of `batch_size`.
pub fn shuffle_and_batch(dataset_len: usize, batch_size: usize) -> (batches: Vec<Vec<usize>>)
    requires
        batch_size > 0,
    ensures
        is_batching(contents(batches@), dataset_len as nat, batch_size as nat),
{
    let order = sample(dataset_len);
    let batches = partition(&order, batch_size);
    proof {
        lemma_split_concatenates(contents(batches@), order@, batch_size as nat);
    }
    batches
}

} // verus!
