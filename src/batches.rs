use vstd::prelude::*;

verus! {

/// Number of labels equal to 1 (successful trials) in `s`.
pub open spec fn successes(s: Seq<i32>) -> int
    decreases s.len(),
{
    if s.len() == 0 {
        0
    } else {
        successes(s.drop_last()) + (if s.last() == 1 {
            1int
        } else {
            0int
        })
    }
}

/// End of the batch that starts at `start`: `size` labels on, or the end.
pub open spec fn batch_end(start: int, size: int, n: int) -> int {
    if start + size < n {
        start + size
    } else {
        n
    }
}

/// The labels of batch `c` when `s` is cut into batches of `size`.
pub open spec fn batch(s: Seq<i32>, size: int, c: int) -> Seq<i32> {
    s.subrange(c * size, batch_end(c * size, size, s.len() as int))
}

/// Counts, for each consecutive batch of `size` labels (the last one may be
/// shorter), how many trials succeeded (label 1) and how many did not
/// (any other label). These are the exponents of the per-batch likelihood
/// `bias^successes * (1 - bias)^failures`.
pub fn batch_outcomes(labels: &Vec<i32>, size: usize) -> (r: Vec<(usize, usize)>)
    requires
        size > 0,
    ensures
        r.len() * size >= labels.len(),
        r.len() == 0 || (r.len() - 1) * size < labels.len(),
        forall|c: int|
            0 <= c < r.len() ==> (#[trigger] r[c]).0 == successes(batch(labels@, size as int, c))
                && r[c].0 + r[c].1 == batch(labels@, size as int, c).len(),
{
    let n = labels.len();
    let mut out: Vec<(usize, usize)> = Vec::new();
    let mut start: usize = 0;
    assert(out.len() * size == 0) by (nonlinear_arith)
        requires
            out.len() == 0,
    ;
    while start < n
        invariant
            size > 0,
            n == labels.len(),
            start <= n,
            start < n ==> start == out.len() * size,
            out.len() * size >= start,
            out.len() == 0 || (out.len() - 1) * size < n,
            forall|c: int|
                0 <= c < out.len() ==> (#[trigger] out[c]).0 == successes(
                    batch(labels@, size as int, c),
                ) && out[c].0 + out[c].1 == batch(labels@, size as int, c).len(),
        decreases n - start,
    {
        let end: usize = if size < n - start {
            start + size
        } else {
            n
        };
        let mut ones: usize = 0;
        let mut i: usize = start;
        while i < end
            invariant
                start <= i <= end <= n,
                n == labels.len(),
                ones <= i - start,
                ones == successes(labels@.subrange(start as int, i as int)),
            decreases end - i,
        {
            assert(labels@.subrange(start as int, i + 1).drop_last() =~= labels@.subrange(
                start as int,
                i as int,
            ));
            if labels[i] == 1 {
                ones = ones + 1;
            }
            i = i + 1;
        }
        let ghost c = out.len() as int;
        assert(c * size == start);
        assert(batch(labels@, size as int, c) == labels@.subrange(start as int, end as int));
        out.push((ones, (end - start) - ones));
        assert(start + size == (c + 1) * size) by (nonlinear_arith)
            requires
                start == c * size,
        ;
        start = end;
    }
    out
}

} // verus!
