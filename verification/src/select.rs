//! The choice of the most downloaded crates, read one at a time.
use vstd::prelude::*;

verus! {

/// The indices of `r` are distinct and below `n`.
pub open spec fn valid_indices(r: Seq<usize>, n: int) -> bool {
    &&& forall|i: int| 0 <= i < r.len() ==> #[trigger] r[i] < n
    &&& forall|i: int, j: int| 0 <= i < j < r.len() ==> r[i] != r[j]
}

/// The indices of `r` are ordered by non-increasing downloads.
pub open spec fn sorted_by_downloads(d: Seq<u64>, r: Seq<usize>) -> bool {
    forall|i: int, j: int| 0 <= i < j < r.len() ==> d[r[i] as int] >= d[r[j] as int]
}

/// Every index below `n` left out of `r` has no more downloads than any
/// index kept.
pub open spec fn keeps_the_largest(d: Seq<u64>, r: Seq<usize>, n: int) -> bool {
    forall|k: int, j: int|
        #![trigger d[k], r[j]]
        0 <= k < n && !r.contains(k as usize) && 0 <= j < r.len() ==> d[k] <= d[r[j] as int]
}

/// How many crates are kept after reading the first `n`: `top` of them once
/// there are that many; when `top` is zero, one crate as soon as a crate
/// with some download is read (a crate replaces the least downloaded kept
/// one, here none, when it has more downloads than it).
pub open spec fn kept_len(d: Seq<u64>, top: int, n: int) -> int {
    if top == 0 {
        if exists|k: int| 0 <= k < n && d[k] > 0 {
            1
        } else {
            0
        }
    } else if top <= n {
        top
    } else {
        n
    }
}

proof fn lemma_bound(a: Seq<usize>, b: Seq<usize>, i: usize)
    requires
        forall|x: usize| #[trigger] a.contains(x) <==> (b.contains(x) || x == i),
        forall|j: int| 0 <= j < b.len() ==> #[trigger] b[j] < i,
    ensures
        forall|j: int| 0 <= j < a.len() ==> #[trigger] a[j] < i + 1,
{
    assert forall|j: int| 0 <= j < a.len() implies #[trigger] a[j] < i + 1 by {
        assert(a.contains(a[j]));
        if a[j] != i {
            assert(b.contains(a[j]));
            let jj = choose|jj: int| 0 <= jj < b.len() && b[jj] == a[j];
        }
    }
}

/// Inserts `k` into `r` before the first index with fewer downloads.
fn insert_sorted(d: &Vec<u64>, r: &mut Vec<usize>, k: usize)
    requires
        k < d@.len(),
        sorted_by_downloads(d@, old(r)@),
        valid_indices(old(r)@, d@.len() as int),
        !old(r)@.contains(k),
    ensures
        sorted_by_downloads(d@, final(r)@),
        valid_indices(final(r)@, d@.len() as int),
        final(r)@.len() == old(r)@.len() + 1,
        forall|x: usize| #[trigger] final(r)@.contains(x) <==> (old(r)@.contains(x) || x == k),
{
    let mut p: usize = 0;
    while p < r.len() && d[r[p]] >= d[k]
        invariant
            p <= r@.len(),
            r@ == old(r)@,
            k < d@.len(),
            valid_indices(r@, d@.len() as int),
            forall|i: int| 0 <= i < p ==> d@[#[trigger] r@[i] as int] >= d@[k as int],
        decreases r@.len() - p,
    {
        p = p + 1;
    }
    let ghost b = r@;
    r.insert(p, k);
    proof {
        let a = r@;
        assert(forall|j: int| 0 <= j < p ==> #[trigger] a[j] == b[j]);
        assert(a[p as int] == k);
        assert(forall|j: int| p < j < a.len() ==> #[trigger] a[j] == b[j - 1]);
        assert forall|i: int, j: int| 0 <= i < j < a.len() implies d@[a[i] as int] >= d@[a[j] as int] by {
            if i < p && j == p {
            } else if i == p && j > p {
                if p < b.len() {
                    assert(d@[b[p as int] as int] < d@[k as int]);
                    if j - 1 > p {
                        assert(d@[b[p as int] as int] >= d@[b[j - 1] as int]);
                    }
                }
            } else if i < p && j > p {
                assert(a[j] == b[j - 1]);
            } else if i > p {
                assert(a[i] == b[i - 1]);
                assert(a[j] == b[j - 1]);
            }
        }
        assert forall|i: int, j: int| 0 <= i < j < a.len() implies a[i] != a[j] by {
            if i == p {
                assert(b[j - 1] != k);
            } else if j == p {
                assert(b[i] != k);
            } else if i < p && j > p {
                assert(a[j] == b[j - 1]);
            } else if i > p {
                assert(a[i] == b[i - 1]);
            }
        }
        assert forall|i: int| 0 <= i < a.len() implies #[trigger] a[i] < d@.len() by {
            if i > p {
                assert(a[i] == b[i - 1]);
            }
        }
        assert forall|x: usize| #[trigger] a.contains(x) <==> (b.contains(x) || x == k) by {
            if a.contains(x) {
                let j = choose|j: int| 0 <= j < a.len() && a[j] == x;
                if j < p {
                    assert(b[j] == x);
                } else if j > p {
                    assert(b[j - 1] == x);
                }
            }
            if b.contains(x) {
                let j = choose|j: int| 0 <= j < b.len() && b[j] == x;
                if j < p {
                    assert(a[j] == x);
                } else {
                    assert(a[j + 1] == x);
                }
            }
            if x == k {
                assert(a[p as int] == x);
            }
        }
    }
}

/// The indices of the `top` most downloaded crates, most downloaded first,
/// reading the crates one at a time: a crate joins while fewer than `top`
/// are kept, and afterwards replaces the least downloaded kept one (if any)
/// when it has strictly more downloads than it.
pub fn select_top(downloads: &Vec<u64>, top: usize) -> (r: Vec<usize>)
    ensures
        valid_indices(r@, downloads@.len() as int),
        r@.len() == kept_len(downloads@, top as int, downloads@.len() as int),
        sorted_by_downloads(downloads@, r@),
        keeps_the_largest(downloads@, r@, downloads@.len() as int),
{
    let d = downloads;
    let mut r: Vec<usize> = Vec::new();
    let mut i: usize = 0;
    while i < d.len()
        invariant
            i <= d@.len(),
            valid_indices(r@, i as int),
            r@.len() == kept_len(d@, top as int, i as int),
            sorted_by_downloads(d@, r@),
            keeps_the_largest(d@, r@, i as int),
            r@.len() < top ==> forall|k: usize| k < i ==> #[trigger] r@.contains(k),
        decreases d@.len() - i,
    {
        let ghost b = r@;
        proof {
            assert(!b.contains(i)) by {
                if b.contains(i) {
                    let j = choose|j: int| 0 <= j < b.len() && b[j] == i;
                }
            }
        }
        if r.len() < top {
            insert_sorted(d, &mut r, i);
            proof {
                lemma_bound(r@, b, i);
                assert forall|k: usize| k < i + 1 implies #[trigger] r@.contains(k) by {
                    if k < i {
                        assert(b.contains(k));
                    }
                }
                if top == 0 {
                } else {
                    assert(r@.len() == kept_len(d@, top as int, i + 1));
                }
            }
        } else {
            let last = if r.len() > 0 {
                d[r[r.len() - 1]]
            } else {
                0
            };
            if last < d[i] {
                if r.len() > 0 {
                    let popped = r.pop().unwrap();
                    let ghost m = r@;
                    assert(m =~= b.drop_last());
                    insert_sorted(d, &mut r, i);
                    proof {
                        let a = r@;
                        let low = d@[popped as int];
                        assert(popped == b[b.len() - 1]);
                        assert forall|j: int| 0 <= j < a.len() implies d@[a[j] as int] >= low by {
                            assert(a.contains(a[j]));
                            if a[j] != i {
                                assert(m.contains(a[j]));
                                let jj = choose|jj: int| 0 <= jj < m.len() && m[jj] == a[j];
                                assert(b[jj] == m[jj]);
                            }
                        }
                        assert forall|k: int, j: int|
                            #![trigger d@[k], a[j]]
                             0 <= k < i + 1 && !a.contains(k as usize) && 0 <= j < a.len() implies d@[k]
                            <= d@[a[j] as int] by {
                            if k as usize != popped && k < i {
                                assert(!b.contains(k as usize)) by {
                                    if b.contains(k as usize) {
                                        let kk = choose|kk: int|
                                            0 <= kk < b.len() && b[kk] == k as usize;
                                        if kk < m.len() {
                                            assert(m[kk] == k as usize);
                                            assert(m.contains(k as usize));
                                        }
                                    }
                                }
                                assert(d@[k] <= d@[b[b.len() - 1] as int]);
                            }
                        }
                        assert forall|j: int| 0 <= j < m.len() implies #[trigger] m[j] < i by {
                            assert(m[j] == b[j]);
                        }
                        lemma_bound(a, m, i);
                        if top == 0 {
                            assert(d@[i as int] > 0);
                            assert(kept_len(d@, top as int, i + 1) == 1);
                        }
                    }
                } else {
                    insert_sorted(d, &mut r, i);
                    proof {
                        lemma_bound(r@, b, i);
                        assert(top == 0);
                        assert(d@[i as int] > 0);
                        assert(kept_len(d@, top as int, i + 1) == 1);
                        assert forall|k: int, j: int|
                            #![trigger d@[k], r@[j]]
                             0 <= k < i + 1 && !r@.contains(k as usize) && 0 <= j < r@.len() implies d@[k]
                            <= d@[r@[j] as int] by {
                            if k < i && d@[k] > 0 {
                                assert(kept_len(d@, top as int, i as int) == 1);
                            }
                        }
                    }
                }
            } else {
                proof {
                    assert forall|k: int, j: int|
                        #![trigger d@[k], r@[j]]
                         0 <= k < i + 1 && !r@.contains(k as usize) && 0 <= j < r@.len() implies d@[k]
                        <= d@[r@[j] as int] by {
                        if k == i {
                            assert(d@[r@[j] as int] >= d@[r@[r@.len() - 1] as int]);
                        }
                    }
                    if top == 0 {
                        if r@.len() == 0 {
                            assert(d@[i as int] == 0);
                            assert forall|k: int| 0 <= k < i + 1 implies !(d@[k] > 0) by {
                                if k < i && d@[k] > 0 {
                                    assert(kept_len(d@, top as int, i as int) == 1);
                                }
                            }
                        } else {
                            let w = choose|k: int| 0 <= k < i && d@[k] > 0;
                            assert(kept_len(d@, top as int, i + 1) == 1);
                        }
                    }
                }
            }
        }
        i = i + 1;
    }
    r
}

} // verus!
