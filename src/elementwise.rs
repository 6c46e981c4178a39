use vstd::prelude::*;

verus! {

/// Combines two equally long vectors position by position: entry `i` of the
/// result is `f(&a[i], &b[i])`. A weight update is this map with
/// `f(w, g) = w - g * rate`, so the new weight vector is exactly as long as
/// the old one.
pub fn pair_map<T, F: Fn(&T, &T) -> T>(a: &Vec<T>, b: &Vec<T>, f: F) -> (r: Vec<T>)
    requires
        a.len() == b.len(),
        forall|i: int| 0 <= i < a.len() ==> f.requires((&a[i], &b[i])),
    ensures
        r.len() == a.len(),
        forall|i: int| 0 <= i < a.len() ==> f.ensures((&a[i], &b[i]), #[trigger] r[i]),
{
    let mut out: Vec<T> = Vec::new();
    let mut i: usize = 0;
    while i < a.len()
        invariant
            i <= a.len(),
            a.len() == b.len(),
            out.len() == i,
            forall|j: int| 0 <= j < a.len() ==> f.requires((&a[j], &b[j])),
            forall|j: int| 0 <= j < i ==> f.ensures((&a[j], &b[j]), #[trigger] out[j]),
        decreases a.len() - i,
    {
        let v = f(&a[i], &b[i]);
        out.push(v);
        i = i + 1;
    }
    out
}

} // verus!
