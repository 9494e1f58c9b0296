//! Moving the elements of vectors around while keeping track of where each
//! one goes.
use vstd::prelude::*;
use crate::clock::{earlier, time_lt, Timestamp};

verus! {

/// The elements of `v` from last to first.
pub fn reversed<T>(v: Vec<T>) -> (r: Vec<T>)
    ensures
        r@.len() == v@.len(),
        forall|j: int| 0 <= j < v@.len() ==> r@[j] == v@[v@.len() - 1 - j],
{
    let ghost s = v@;
    let mut v = v;
    let mut r: Vec<T> = Vec::new();
    while v.len() > 0
        invariant
            v@ == s.take(v@.len() as int),
            v@.len() <= s.len(),
            r@.len() + v@.len() == s.len(),
            forall|j: int| 0 <= j < r@.len() ==> r@[j] == s[s.len() - 1 - j],
        decreases v@.len(),
    {
        let ghost before = v@;
        match v.pop() {
            Some(x) => {
                assert(x == s[v@.len() as int]);
                assert(v@ =~= s.take(v@.len() as int));
                r.push(x);
            },
            None => {},
        }
    }
    r
}

/// Something that happened at a point in time.
pub trait Dated {
    /// When it happened.
    spec fn date(&self) -> Timestamp;

    /// When it happened.
    fn date_of(&self) -> (t: Timestamp)
        ensures
            t == self.date(),
    ;
}

/// Whether `r` runs from the newest to the oldest.
pub open spec fn newest_first_order<T: Dated>(r: Seq<T>) -> bool {
    forall|i: int, j: int| 0 <= i < j < r.len() ==> !time_lt(#[trigger] r[i].date(), #[trigger] r[j].date())
}

/// Whether `r` holds the elements of `items` rearranged, the element at
/// `i` of `r` being the one at `p[i]` of `items`, each taken once, with
/// elements of the same time left in their order in `items`.
pub open spec fn stable_rearrangement<T: Dated>(items: Seq<T>, r: Seq<T>, p: Seq<int>) -> bool {
    &&& p.len() == items.len()
    &&& r.len() == items.len()
    &&& forall|i: int| 0 <= i < p.len() ==> 0 <= #[trigger] p[i] < items.len() && r[i] == items[p[i]]
    &&& forall|i: int, j: int| 0 <= i < j < p.len() ==> #[trigger] p[i] != #[trigger] p[j]
    &&& forall|i: int, j: int|
        0 <= i < j < p.len() && (#[trigger] r[i]).date() == (#[trigger] r[j]).date() ==> p[i] < p[j]
}

/// `items` from the newest to the oldest; items of the same time keep
/// their order.
pub fn newest_first<T: Dated>(items: Vec<T>) -> (r: Vec<T>)
    ensures
        newest_first_order(r@),
        exists|p: Seq<int>| stable_rearrangement(items@, r@, p),
{
    let ghost s = items@;
    let n = items.len();
    let mut src = reversed(items);
    let mut r: Vec<T> = Vec::new();
    let ghost mut p: Seq<int> = Seq::empty();
    let mut m: usize = 0;
    while m < n
        invariant
            n == s.len(),
            m <= n,
            src@.len() == n - m,
            forall|j: int| 0 <= j < src@.len() ==> src@[j] == s[n - 1 - j],
            r@.len() == m,
            p.len() == m,
            newest_first_order(r@),
            forall|i: int| 0 <= i < m ==> 0 <= #[trigger] p[i] < m && r@[i] == s[p[i]],
            forall|i: int, j: int| 0 <= i < j < m ==> #[trigger] p[i] != #[trigger] p[j],
            forall|i: int, j: int|
                0 <= i < j < m && (#[trigger] r@[i]).date() == (#[trigger] r@[j]).date() ==> p[i] < p[j],
        decreases n - m,
    {
        let popped = src.pop();
        let x = popped.unwrap();
        assert(x == s[m as int]);
        let d = x.date_of();
        let mut k: usize = 0;
        while k < r.len() && !earlier(&r[k].date_of(), &d)
            invariant
                k <= r@.len(),
                d == x.date(),
                forall|i: int| 0 <= i < k ==> !time_lt(#[trigger] r@[i].date(), d),
            decreases r@.len() - k,
        {
            k += 1;
        }
        let ghost old_r = r@;
        let ghost old_p = p;
        r.insert(k, x);
        proof {
            p = old_p.insert(k as int, m as int);
            assert(r@ == old_r.insert(k as int, x));
            assert forall|i: int, j: int| 0 <= i < j < r@.len() implies !time_lt(
                #[trigger] r@[i].date(),
                #[trigger] r@[j].date(),
            ) by {
                if j < k {
                    assert(r@[i] == old_r[i] && r@[j] == old_r[j]);
                } else if j == k {
                    assert(r@[i] == old_r[i]);
                } else if i < k {
                    assert(r@[i] == old_r[i] && r@[j] == old_r[j - 1]);
                } else if i == k {
                    assert(r@[j] == old_r[j - 1]);
                    assert(time_lt(old_r[k as int].date(), d));
                    if j - 1 > k {
                        assert(!time_lt(old_r[k as int].date(), old_r[j - 1].date()));
                    }
                } else {
                    assert(r@[i] == old_r[i - 1] && r@[j] == old_r[j - 1]);
                }
            }
            assert forall|i: int| 0 <= i < m + 1 implies 0 <= #[trigger] p[i] < m + 1 && r@[i] == s[p[i]] by {
                if i < k {
                    assert(p[i] == old_p[i] && r@[i] == old_r[i]);
                } else if i > k {
                    assert(p[i] == old_p[i - 1] && r@[i] == old_r[i - 1]);
                }
            }
            assert forall|i: int, j: int| 0 <= i < j < m + 1 implies #[trigger] p[i] != #[trigger] p[j] by {
                if i < k && j < k {
                    assert(p[i] == old_p[i] && p[j] == old_p[j]);
                } else if i < k && j == k {
                    assert(p[i] == old_p[i]);
                } else if i < k && j > k {
                    assert(p[i] == old_p[i] && p[j] == old_p[j - 1]);
                } else if i == k {
                    assert(p[j] == old_p[j - 1]);
                } else {
                    assert(p[i] == old_p[i - 1] && p[j] == old_p[j - 1]);
                }
            }
            assert forall|i: int, j: int|
                0 <= i < j < m + 1 && (#[trigger] r@[i]).date() == (#[trigger] r@[j]).date() implies p[i]
                < p[j] by {
                if i < k && j < k {
                    assert(p[i] == old_p[i] && p[j] == old_p[j] && r@[i] == old_r[i] && r@[j] == old_r[j]);
                } else if i < k && j == k {
                    assert(p[i] == old_p[i]);
                } else if i < k && j > k {
                    assert(p[i] == old_p[i] && p[j] == old_p[j - 1] && r@[i] == old_r[i] && r@[j] == old_r[j - 1]);
                    assert(time_lt(old_r[k as int].date(), d));
                    if j - 1 > k {
                        assert(!time_lt(old_r[k as int].date(), old_r[j - 1].date()));
                    }
                } else if i == k {
                    assert(r@[j] == old_r[j - 1]);
                    assert(time_lt(old_r[k as int].date(), d));
                    if j - 1 > k {
                        assert(!time_lt(old_r[k as int].date(), old_r[j - 1].date()));
                    }
                } else {
                    assert(p[i] == old_p[i - 1] && p[j] == old_p[j - 1] && r@[i] == old_r[i - 1] && r@[j] == old_r[j - 1]);
                }
            }
        }
        m += 1;
    }
    assert(stable_rearrangement(s, r@, p));
    r
}

} // verus!
