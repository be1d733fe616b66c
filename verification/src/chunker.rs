//! Partitioning an ordered sequence into batches of a fixed maximum size.

use vstd::prelude::*;

verus! {

/// Number of batches into which `n` items fall when a batch holds at most
/// `size` of them: `n / size`, rounded up.
pub open spec fn batch_count(n: nat, size: nat) -> nat
    recommends
        size > 0,
{
    ((n + size - 1) / (size as int)) as nat
}

/// Position of the first item of batch `index`.
pub open spec fn batch_start(size: nat, index: int) -> int {
    index * size
}

/// Position just behind the last item of batch `index`: the batch is full
/// unless the items run out before.
pub open spec fn batch_end(n: nat, size: nat, index: int) -> int {
    if (index + 1) * size <= n {
        (index + 1) * size
    } else {
        n as int
    }
}

/// Batch `index` of `items`: the items at the positions from `index * size` up
/// to, and without, `min((index + 1) * size, items.len())`.
pub open spec fn batch_of<T>(items: Seq<T>, size: nat, index: int) -> Seq<T> {
    items.subrange(batch_start(size, index), batch_end(items.len(), size, index))
}

/// The batches of `items`, in order.
pub open spec fn batches_of<T>(items: Seq<T>, size: nat) -> Seq<Seq<T>> {
    Seq::new(batch_count(items.len(), size), |index: int| batch_of(items, size, index))
}

/// The first `count` batches laid end to end.
pub open spec fn concat<T>(batches: Seq<Seq<T>>, count: nat) -> Seq<T>
    decreases count,
{
    if count == 0 {
        Seq::empty()
    } else {
        concat(batches, (count - 1) as nat) + batches[count - 1]
    }
}

/// What a vector of vectors holds.
pub open spec fn batch_views<T>(batches: Seq<Vec<T>>) -> Seq<Seq<T>> {
    Seq::new(batches.len(), |index: int| batches[index]@)
}

proof fn lemma_count(n: nat, size: nat, full: nat, rest: nat)
    requires
        size > 0,
        n == full * size + rest,
        rest < size,
    ensures
        rest == 0 ==> batch_count(n, size) == full,
        rest > 0 ==> batch_count(n, size) == full + 1,
        n / size == full,
        n % size == rest,
{
    vstd::arithmetic::div_mod::lemma_fundamental_div_mod_converse(
        n as int,
        size as int,
        full as int,
        rest as int,
    );
    if rest == 0 {
        vstd::arithmetic::div_mod::lemma_fundamental_div_mod_converse(
            n + size - 1,
            size as int,
            full as int,
            size - 1,
        );
    } else {
        assert((full + 1) * size == full * size + size) by (nonlinear_arith);
        vstd::arithmetic::div_mod::lemma_fundamental_div_mod_converse(
            n + size - 1,
            size as int,
            (full + 1) as int,
            rest - 1,
        );
    }
}

/// Number of batches into which `n` items fall in batches of `size`.
pub fn count_batches(n: usize, size: usize) -> (count: usize)
    requires
        size > 0,
    ensures
        count == batch_count(n as nat, size as nat),
{
    proof {
        lemma_batch_count_is_ceiling(n as nat, size as nat);
        vstd::arithmetic::div_mod::lemma_fundamental_div_mod(n as int, size as int);
        vstd::arithmetic::div_mod::lemma_div_pos_is_pos(n as int, size as int);
        assert(n % size != 0 ==> n / size < n) by (nonlinear_arith)
            requires
                size > 0,
                n == size * (n / size) + n % size,
                0 <= n / size,
        ;
    }
    if n % size == 0 {
        n / size
    } else {
        n / size + 1
    }
}

/// Splits `records` into batches of `size` items, the last one possibly
/// shorter. The items keep their order within and across the batches; nothing
/// is copied, dropped or added. No items give no batch.
pub fn chunk<T>(records: Vec<T>, size: usize) -> (batches: Vec<Vec<T>>)
    requires
        size > 0,
    ensures
        batch_views(batches@) == batches_of(records@, size as nat),
{
    let ghost items = records@;
    let mut batches: Vec<Vec<T>> = Vec::new();
    let mut current: Vec<T> = Vec::new();
    for record in it: records
        invariant
            size > 0,
            it.seq() == items,
            current@.len() < size,
            it.index() == batches@.len() * size + current@.len(),
            current@ == items.subrange(batches@.len() * size, it.index() as int),
            forall|i: int|
                0 <= i < batches@.len() ==> (#[trigger] batches@[i])@ == items.subrange(
                    i * size,
                    (i + 1) * size,
                ),
    {
        let ghost done = batches@.len();
        let ghost before = current@;
        current.push(record);
        assert(current@ =~= items.subrange(done * size, it.index() + 1));
        if current.len() == size {
            assert((done + 1) * size == done * size + size) by (nonlinear_arith);
            batches.push(current);
            current = Vec::new();
            assert(current@ =~= items.subrange((done + 1) * size, it.index() + 1));
        }
    }
    let ghost full = batches@.len();
    let ghost rest = current@.len();
    proof {
        lemma_count(items.len(), size as nat, full, rest);
        assert forall|i: int| 0 <= i < full implies #[trigger] batch_end(
            items.len(),
            size as nat,
            i,
        ) == (i + 1) * size by {
            assert((i + 1) * size <= full * size) by (nonlinear_arith)
                requires
                    i + 1 <= full,
                    size > 0,
            ;
        }
    }
    if current.len() > 0 {
        proof {
            assert((full + 1) * size == full * size + size) by (nonlinear_arith);
        }
        batches.push(current);
    }
    assert(batch_views(batches@) =~= batches_of(items, size as nat));
    batches
}

/// The batch count is `n / size` rounded up: the batches have room for all
/// `n` items, and one batch fewer would not. Nothing gives no batch.
pub proof fn lemma_batch_count_is_ceiling(n: nat, size: nat)
    requires
        size > 0,
    ensures
        batch_count(n, size) * size >= n,
        n > 0 ==> batch_count(n, size) >= 1 && (batch_count(n, size) - 1) * size < n,
        n == 0 ==> batch_count(n, size) == 0,
        n % size == 0 ==> batch_count(n, size) == n / size,
        n % size != 0 ==> batch_count(n, size) == n / size + 1,
{
    let full = n / size;
    let rest = n % size;
    vstd::arithmetic::div_mod::lemma_fundamental_div_mod(n as int, size as int);
    vstd::arithmetic::div_mod::lemma_div_pos_is_pos(n as int, size as int);
    assert(size * full == full * size) by (nonlinear_arith);
    lemma_count(n, size, full, rest);
    let count = batch_count(n, size);
    assert((full + 1) * size == full * size + size) by (nonlinear_arith);
    if rest == 0 && n > 0 {
        assert(full >= 1) by (nonlinear_arith)
            requires
                n == full * size,
                n > 0,
                size > 0,
        ;
        assert((full - 1) * size == full * size - size) by (nonlinear_arith);
    }
}

/// Every batch holds the items of its own range: it is not empty, it has
/// `size` items unless it is the last, and the last has `n % size` items, or
/// `size` where `size` divides `n`.
pub proof fn lemma_batch_lengths<T>(items: Seq<T>, size: nat, index: int)
    requires
        size > 0,
        0 <= index < batch_count(items.len(), size),
    ensures
        0 <= batch_start(size, index) < batch_end(items.len(), size, index) <= items.len(),
        batch_of(items, size, index).len() == batch_end(items.len(), size, index) - batch_start(
            size,
            index,
        ),
        index + 1 < batch_count(items.len(), size) ==> batch_of(items, size, index).len() == size,
        index + 1 == batch_count(items.len(), size) && items.len() % size != 0 ==> batch_of(
            items,
            size,
            index,
        ).len() == items.len() % size,
        index + 1 == batch_count(items.len(), size) && items.len() % size == 0 ==> batch_of(
            items,
            size,
            index,
        ).len() == size,
{
    let n = items.len();
    let count = batch_count(n, size);
    lemma_batch_count_is_ceiling(n, size);
    vstd::arithmetic::div_mod::lemma_fundamental_div_mod(n as int, size as int);
    assert(size * (n / size) == (n / size) * size) by (nonlinear_arith);
    assert((index + 1) * size == index * size + size) by (nonlinear_arith);
    assert(index * size <= (count - 1) * size) by (nonlinear_arith)
        requires
            index <= count - 1,
            size > 0,
    ;
    assert(index * size >= 0) by (nonlinear_arith)
        requires
            index >= 0,
            size > 0,
    ;
    if index + 1 < count {
        assert((index + 1) * size <= (count - 1) * size) by (nonlinear_arith)
            requires
                index + 1 <= count - 1,
                size > 0,
        ;
    } else {
        assert(index == count - 1);
        if n % size != 0 {
            assert(index == n / size);
        } else {
            assert(index + 1 == n / size);
        }
    }
}

/// The first `count` batches, laid end to end, are the items before the end of
/// the last of them.
pub proof fn lemma_concat_is_prefix<T>(items: Seq<T>, size: nat, count: nat)
    requires
        size > 0,
        count <= batch_count(items.len(), size),
    ensures
        count == 0 ==> concat(batches_of(items, size), count) == Seq::<T>::empty(),
        count > 0 ==> concat(batches_of(items, size), count) == items.subrange(
            0,
            batch_end(items.len(), size, count - 1),
        ),
    decreases count,
{
    if count > 0 {
        lemma_concat_is_prefix(items, size, (count - 1) as nat);
        lemma_batch_lengths(items, size, count - 1);
        let batches = batches_of(items, size);
        let before = concat(batches, (count - 1) as nat);
        assert(batches[count - 1] == batch_of(items, size, count - 1));
        if count == 1 {
            assert(before + batches[0] =~= items.subrange(0, batch_end(items.len(), size, 0)));
        } else {
            lemma_batch_lengths(items, size, count - 2);
            assert(batch_end(items.len(), size, count - 2) == batch_start(size, count - 1));
            assert(before + batches[count - 1] =~= items.subrange(
                0,
                batch_end(items.len(), size, count - 1),
            ));
        }
    }
}

/// Laying all the batches end to end, in order, gives back the items exactly.
pub proof fn lemma_batches_reconstruct<T>(items: Seq<T>, size: nat)
    requires
        size > 0,
    ensures
        concat(batches_of(items, size), batch_count(items.len(), size)) == items,
{
    let count = batch_count(items.len(), size);
    lemma_concat_is_prefix(items, size, count);
    lemma_batch_count_is_ceiling(items.len(), size);
    if count == 0 {
        assert(items =~= Seq::<T>::empty());
    } else {
        lemma_batch_lengths(items, size, count - 1);
        assert(count * size == (count - 1) * size + size) by (nonlinear_arith);
        assert(batch_end(items.len(), size, count - 1) == items.len());
        assert(items.subrange(0, items.len() as int) =~= items);
    }
}

/// The batches are disjoint and in order: the item at position `offset` of
/// batch `index` is the item at position `index * size + offset` of the input.
pub proof fn lemma_batch_item<T>(items: Seq<T>, size: nat, index: int, offset: int)
    requires
        size > 0,
        0 <= index < batch_count(items.len(), size),
        0 <= offset < batch_of(items, size, index).len(),
    ensures
        0 <= index * size + offset < items.len(),
        batch_of(items, size, index)[offset] == items[index * size + offset],
{
    lemma_batch_lengths(items, size, index);
}

} // verus!
