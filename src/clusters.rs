use vstd::prelude::*;

verus! {

/// Index of the first smallest key among `s[0..n]`, scanning left to right
/// and moving only on a strictly smaller key.
pub open spec fn first_min_upto(s: Seq<u64>, n: int) -> int
    decreases n,
{
    if n <= 1 {
        0
    } else {
        let j = first_min_upto(s, n - 1);
        if s[n - 1] < s[j] {
            n - 1
        } else {
            j
        }
    }
}

/// Index of the first smallest key of `s`.
pub open spec fn first_min(s: Seq<u64>) -> int {
    first_min_upto(s, s.len() as int)
}

proof fn lemma_first_min_upto(s: Seq<u64>, n: int)
    requires
        1 <= n <= s.len(),
    ensures
        0 <= first_min_upto(s, n) < n,
        forall|j: int| 0 <= j < n ==> s[first_min_upto(s, n)] <= #[trigger] s[j],
        forall|j: int| 0 <= j < first_min_upto(s, n) ==> #[trigger] s[j] > s[first_min_upto(s, n)],
    decreases n,
{
    if n > 1 {
        lemma_first_min_upto(s, n - 1);
    }
}

/// Chooses, for one point, the cluster whose distance key is smallest; on
/// equal keys the earlier cluster wins.
pub fn nearest_cluster(keys: &Vec<u64>) -> (r: usize)
    requires
        keys.len() > 0,
    ensures
        r == first_min(keys@),
        r < keys.len(),
        forall|j: int| 0 <= j < keys.len() ==> keys[r as int] <= #[trigger] keys[j],
        forall|j: int| 0 <= j < r ==> #[trigger] keys[j] > keys[r as int],
{
    let mut best: usize = 0;
    let mut i: usize = 1;
    while i < keys.len()
        invariant
            1 <= i <= keys.len(),
            best < i,
            best as int == first_min_upto(keys@, i as int),
        decreases keys.len() - i,
    {
        if keys[i] < keys[best] {
            best = i;
        }
        i = i + 1;
    }
    proof {
        lemma_first_min_upto(keys@, keys.len() as int);
    }
    best
}

/// The indices `i < n`, in increasing order, with `a[i] == c`.
pub open spec fn members_upto(a: Seq<usize>, c: usize, n: int) -> Seq<usize>
    decreases n,
{
    if n <= 0 {
        Seq::empty()
    } else if a[n - 1] == c {
        members_upto(a, c, n - 1).push((n - 1) as usize)
    } else {
        members_upto(a, c, n - 1)
    }
}

/// The indices of the points that `a` assigns to cluster `c`.
pub open spec fn members(a: Seq<usize>, c: usize) -> Seq<usize> {
    members_upto(a, c, a.len() as int)
}

/// Sum of the sizes of clusters `0..m` over the first `n` assignments.
pub open spec fn sizes_upto(a: Seq<usize>, n: int, m: int) -> int
    decreases m,
{
    if m <= 0 {
        0
    } else {
        sizes_upto(a, n, m - 1) + members_upto(a, (m - 1) as usize, n).len()
    }
}

/// Sum of the sizes of the `k` clusters that `a` describes.
pub open spec fn total_size(a: Seq<usize>, k: usize) -> int {
    sizes_upto(a, a.len() as int, k as int)
}

proof fn lemma_sizes_step(a: Seq<usize>, n: int, m: int)
    requires
        0 <= n < a.len(),
        0 <= m <= usize::MAX + 1,
    ensures
        sizes_upto(a, n + 1, m) == sizes_upto(a, n, m) + (if a[n] < m {
            1int
        } else {
            0int
        }),
    decreases m,
{
    if m > 0 {
        lemma_sizes_step(a, n, m - 1);
        let c = (m - 1) as usize;
        assert(members_upto(a, c, n + 1).len() == members_upto(a, c, n).len() + (if a[n] == c {
            1int
        } else {
            0int
        }));
    }
}

proof fn lemma_sizes_empty(a: Seq<usize>, m: int)
    requires
        0 <= m,
    ensures
        sizes_upto(a, 0, m) == 0,
    decreases m,
{
    if m > 0 {
        lemma_sizes_empty(a, m - 1);
    }
}

proof fn lemma_sizes_prefix(a: Seq<usize>, k: usize, n: int)
    requires
        0 <= n <= a.len(),
        forall|i: int| 0 <= i < a.len() ==> a[i] < k,
    ensures
        sizes_upto(a, n, k as int) == n,
    decreases n,
{
    if n == 0 {
        lemma_sizes_empty(a, k as int);
    } else {
        lemma_sizes_prefix(a, k, n - 1);
        lemma_sizes_step(a, n - 1, k as int);
    }
}

/// Assigning points to clusters loses and duplicates none: when every point
/// goes to one of `k` clusters, the cluster sizes add up to the number of
/// points.
pub proof fn lemma_assignment_keeps_every_point(a: Seq<usize>, k: usize)
    requires
        forall|i: int| 0 <= i < a.len() ==> a[i] < k,
    ensures
        total_size(a, k) == a.len(),
{
    lemma_sizes_prefix(a, k, a.len() as int);
}

/// Builds each cluster's member list from scratch: cluster `c` receives the
/// indices of the points assigned to it, in input order.
pub fn group_by_cluster(assignment: &Vec<usize>, k: usize) -> (r: Vec<Vec<usize>>)
    requires
        forall|i: int| 0 <= i < assignment.len() ==> assignment[i] < k,
    ensures
        r.len() == k,
        forall|c: int| 0 <= c < k ==> r[c]@ == members(assignment@, c as usize),
{
    let mut groups: Vec<Vec<usize>> = Vec::new();
    let mut c: usize = 0;
    while c < k
        invariant
            c <= k,
            groups.len() == c,
            forall|j: int| 0 <= j < c ==> groups[j]@ == Seq::<usize>::empty(),
        decreases k - c,
    {
        groups.push(Vec::new());
        c = c + 1;
    }
    let mut i: usize = 0;
    while i < assignment.len()
        invariant
            i <= assignment.len(),
            groups.len() == k,
            forall|i: int| 0 <= i < assignment.len() ==> assignment[i] < k,
            forall|c: int|
                0 <= c < k ==> groups[c]@ == members_upto(assignment@, c as usize, i as int),
        decreases assignment.len() - i,
    {
        let target = assignment[i];
        let ghost before = groups@;
        let mut row: Vec<usize> = Vec::new();
        groups.set_and_swap(target, &mut row);
        row.push(i);
        groups.set_and_swap(target, &mut row);
        assert forall|c: int| 0 <= c < k implies groups[c]@ == members_upto(
            assignment@,
            c as usize,
            i + 1,
        ) by {
            if c != target as int {
                assert(groups[c] == before[c]);
            }
        }
        i = i + 1;
    }
    groups
}

/// The cluster each point goes to, given each point's distance keys to the
/// clusters.
pub open spec fn nearest_of(rows: Seq<Vec<u64>>) -> Seq<usize> {
    Seq::new(rows.len(), |i: int| first_min(rows[i]@) as usize)
}

/// One assignment round: each point (one row of distance keys, one key per
/// cluster) goes to its nearest cluster, earlier clusters winning ties, and
/// every cluster's member list is rebuilt from scratch.
pub fn assign_points(distance_keys: &Vec<Vec<u64>>, k: usize) -> (r: Vec<Vec<usize>>)
    requires
        k > 0,
        forall|i: int| 0 <= i < distance_keys.len() ==> (#[trigger] distance_keys[i]).len() == k,
    ensures
        r.len() == k,
        forall|c: int| 0 <= c < k ==> r[c]@ == members(nearest_of(distance_keys@), c as usize),
        total_size(nearest_of(distance_keys@), k) == distance_keys.len(),
{
    let mut assignment: Vec<usize> = Vec::new();
    let mut i: usize = 0;
    while i < distance_keys.len()
        invariant
            i <= distance_keys.len(),
            k > 0,
            forall|i: int| 0 <= i < distance_keys.len() ==> (#[trigger] distance_keys[i]).len() == k,
            assignment@ == nearest_of(distance_keys@).subrange(0, i as int),
            forall|j: int| 0 <= j < i ==> assignment[j] < k,
        decreases distance_keys.len() - i,
    {
        let c = nearest_cluster(&distance_keys[i]);
        assignment.push(c);
        assert(assignment@ =~= nearest_of(distance_keys@).subrange(0, i + 1));
        i = i + 1;
    }
    assert(assignment@ =~= nearest_of(distance_keys@));
    proof {
        lemma_assignment_keeps_every_point(assignment@, k);
    }
    group_by_cluster(&assignment, k)
}

} // verus!
