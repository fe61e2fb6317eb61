//! Splitting a file into byte ranges of `CHUNK_SIZE`.

use vstd::prelude::*;

use super::CHUNK_SIZE;

verus! {

/// Number of ranges the plan for a file of `size` bytes holds: one per started
/// chunk, and a single empty range for an empty file.
pub open spec fn chunk_count(size: nat) -> nat {
    if size == 0 {
        1
    } else {
        ((size + CHUNK_SIZE - 1) / (CHUNK_SIZE as int)) as nat
    }
}

/// The `i`-th range of the plan for a file of `size` bytes.
pub open spec fn chunk_range(size: nat, i: nat) -> (u64, u64) {
    let start = i * CHUNK_SIZE;
    let end = if start + CHUNK_SIZE <= size { start + CHUNK_SIZE } else { size as int };
    (start as u64, end as u64)
}

/// The whole plan: `chunk_count(size)` ranges, the `i`-th being `chunk_range(size, i)`.
pub open spec fn chunk_plan(size: nat) -> Seq<(u64, u64)> {
    Seq::new(chunk_count(size), |i: int| chunk_range(size, i as nat))
}

/// Largest file size whose plan can be computed without the range end
/// overflowing a `u64`.
pub open spec fn plannable(size: u64) -> bool {
    size <= u64::MAX - CHUNK_SIZE + 1
}

/// Splits a file into `(start, end_exclusive)` byte ranges of `CHUNK_SIZE`, the last
/// one truncated to whatever remains; an empty file gets the single range `(0, 0)`.
pub fn plan_chunk_ranges(file_size: u64) -> (ranges: Vec<(u64, u64)>)
    requires
        plannable(file_size),
    ensures
        ranges@ == chunk_plan(file_size as nat),
{
    if file_size == 0 {
        let mut v: Vec<(u64, u64)> = Vec::new();
        v.push((0, 0));
        assert(v@ =~= chunk_plan(0));
        return v;
    }
    let chunk_size: u64 = CHUNK_SIZE as u64;
    let mut ranges: Vec<(u64, u64)> = Vec::new();
    let mut start: u64 = 0;
    let ghost mut i: nat = 0;
    while start < file_size
        invariant
            plannable(file_size),
            file_size > 0,
            chunk_size == CHUNK_SIZE,
            start < file_size ==> start == i * CHUNK_SIZE,
            start == file_size ==> file_size <= i * CHUNK_SIZE,
            start <= file_size,
            i <= chunk_count(file_size as nat),
            start < file_size ==> i < chunk_count(file_size as nat),
            start == file_size ==> i == chunk_count(file_size as nat),
            ranges@ =~= chunk_plan(file_size as nat).take(i as int),
        decreases file_size - start,
    {
        let end = if start + chunk_size <= file_size { start + chunk_size } else { file_size };
        ranges.push((start, end));
        proof {
            assert(chunk_plan(file_size as nat)[i as int] == chunk_range(file_size as nat, i));
            assert(chunk_plan(file_size as nat).take((i + 1) as int) =~= chunk_plan(file_size as nat).take(i as int).push(chunk_range(file_size as nat, i)));
            i = i + 1;
        }
        start = end;
    }
    assert(chunk_plan(file_size as nat).take(i as int) =~= chunk_plan(file_size as nat));
    ranges
}

/// The plan partitions `[0, size)`: it starts at 0, ends at `size`, each range begins
/// where the previous one ended, no range is longer than `CHUNK_SIZE`, and for a
/// non-empty file no range is empty.
pub proof fn lemma_chunk_plan_partitions(size: nat)
    requires
        size <= u64::MAX,
    ensures
        chunk_plan(size).len() >= 1,
        chunk_plan(size)[0].0 == 0,
        chunk_plan(size).last().1 == size,
        forall|i: int|
            0 < i < chunk_plan(size).len() ==> #[trigger] chunk_plan(size)[i].0 == chunk_plan(size)[i
                - 1].1,
        forall|i: int|
            0 <= i < chunk_plan(size).len() ==> {
                &&& #[trigger] chunk_plan(size)[i].0 <= chunk_plan(size)[i].1
                &&& chunk_plan(size)[i].1 - chunk_plan(size)[i].0 <= CHUNK_SIZE
                &&& size > 0 ==> chunk_plan(size)[i].0 < chunk_plan(size)[i].1
            },
{
    let n = chunk_count(size);
    assert forall|i: int| 0 <= i < n implies {
        &&& #[trigger] chunk_plan(size)[i].0 == i * CHUNK_SIZE
        &&& size > 0 ==> i * CHUNK_SIZE < size
    } by {
        if size > 0 {
            lemma_index_below_count(size, i);
        }
    }
    if size > 0 {
        lemma_last_reaches_end(size);
    }
}

/// A range index below the count starts inside the file.
proof fn lemma_index_below_count(size: nat, i: int)
    requires
        size > 0,
        0 <= i < chunk_count(size),
    ensures
        i * CHUNK_SIZE < size,
{
    let c = CHUNK_SIZE as int;
    let n = (size + c - 1) / c;
    assert(n * c <= size + c - 1) by (nonlinear_arith)
        requires
            n == (size + c - 1) / c,
            c > 0,
    ;
    assert(i * c <= (n - 1) * c) by (nonlinear_arith)
        requires
            i <= n - 1,
            c > 0,
    ;
}

/// The last range of a non-empty file's plan starts inside it and reaches its end.
proof fn lemma_last_reaches_end(size: nat)
    requires
        size > 0,
    ensures
        (chunk_count(size) - 1) * CHUNK_SIZE < size,
        size <= chunk_count(size) * CHUNK_SIZE,
{
    let c = CHUNK_SIZE as int;
    let n = (size + c - 1) / c;
    lemma_index_below_count(size, n - 1);
    assert(size <= n * c) by (nonlinear_arith)
        requires
            n == (size + c - 1) / c,
            c > 0,
    ;
}

} // verus!
