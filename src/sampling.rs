//! Ordered samples of distinct values, and the interface that sampling
//! algorithms share.
use crate::rng::draw_below;
use rand::rngs::SmallRng;
use vstd::prelude::*;
use vstd::set_lib::{lemma_int_range, lemma_len_subset, set_int_range};

verus! {

/// Draws that one output position may spend on rejected candidates before the
/// least value not yet taken is used instead. At one draw per nanosecond the
/// cap lasts for centuries, so in practice every position is drawn.
pub const MAX_DRAWS: u64 = 0xffff_ffff_ffff_ffff;

/// Every value of `s` lies in `[0, n)` and no value occurs twice.
pub open spec fn distinct_below(s: Seq<u32>, n: u32) -> bool {
    &&& forall|i: int| 0 <= i < s.len() ==> s[i] < n
    &&& forall|i: int, j: int| 0 <= i < j < s.len() ==> s[i] != s[j]
}

/// A sequence shorter than `n` leaves some value of `[0, n)` out.
proof fn lemma_some_value_free(s: Seq<u32>, n: u32)
    requires
        s.len() < n,
    ensures
        exists|v: u32| v < n && !s.contains(v),
{
    if forall|v: u32| v < n ==> s.contains(v) {
        let wide = s.map_values(|x: u32| x as int);
        let range = set_int_range(0, n as int);
        assert(range.subset_of(wide.to_set())) by {
            assert forall|x: int| range.contains(x) implies wide.to_set().contains(x) by {
                let v = x as u32;
                assert(s.contains(v));
                let j = choose|j: int| 0 <= j < s.len() && s[j] == v;
                assert(wide[j] == x);
            }
        }
        wide.lemma_cardinality_of_set();
        lemma_int_range(0, n as int);
        lemma_len_subset(range, wide.to_set());
        assert(false);
    }
}

/// A sample that takes all `n` values of `[0, n)` is a permutation of them:
/// the set of its values is exactly `{0, ..., n - 1}`.
pub proof fn lemma_full_sample_is_permutation(s: Seq<u32>, n: u32)
    requires
        distinct_below(s, n),
        s.len() == n,
    ensures
        s.to_set() == Set::new(|v: u32| v < n),
{
    assert forall|v: u32| v < n implies s.contains(v) by {
        if !s.contains(v) {
            let wide = s.map_values(|x: u32| x as int);
            let rest = set_int_range(0, n as int).remove(v as int);
            assert(wide.no_duplicates()) by {
                assert forall|i: int, j: int| 0 <= i < wide.len() && 0 <= j < wide.len() && i != j
                    implies wide[i] != wide[j] by {
                    if i < j {
                        assert(s[i] != s[j]);
                    } else {
                        assert(s[j] != s[i]);
                    }
                }
            }
            assert(wide.to_set().subset_of(rest)) by {
                assert forall|x: int| wide.to_set().contains(x) implies rest.contains(x) by {
                    let j = choose|j: int| 0 <= j < wide.len() && wide[j] == x;
                    assert(s[j] < n);
                    if x == v as int {
                        assert(s[j] == v);
                        assert(s.contains(v));
                    }
                }
            }
            wide.unique_seq_to_set();
            lemma_int_range(0, n as int);
            lemma_len_subset(wide.to_set(), rest);
        }
    }
    assert(s.to_set() =~= Set::new(|v: u32| v < n));
}

/// Whether `t` occurs among the first `end` values of `res`.
fn prefix_contains(res: &[u32], end: usize, t: u32) -> (r: bool)
    requires
        end <= res@.len(),
    ensures
        r == res@.subrange(0, end as int).contains(t),
{
    let mut j: usize = 0;
    while j < end
        invariant
            j <= end <= res@.len(),
            forall|m: int| 0 <= m < j ==> res@[m] != t,
        decreases end - j,
    {
        if res[j] == t {
            assert(res@.subrange(0, end as int)[j as int] == t);
            return true;
        }
        j = j + 1;
    }
    proof {
        let pre = res@.subrange(0, end as int);
        assert forall|m: int| 0 <= m < pre.len() implies pre[m] != t by {
            assert(pre[m] == res@[m]);
        }
    }
    false
}

/// The least value of `[0, n)` that does not occur among the first `end`
/// values of `res`.
fn least_free(res: &[u32], end: usize, n: u32) -> (v: u32)
    requires
        end <= res@.len(),
        end < n,
    ensures
        v < n,
        !res@.subrange(0, end as int).contains(v),
        forall|w: u32| w < v ==> res@.subrange(0, end as int).contains(w),
{
    let mut v: u32 = 0;
    while v < n
        invariant
            end <= res@.len(),
            end < n,
            forall|w: u32| w < v ==> res@.subrange(0, end as int).contains(w),
        decreases n - v,
    {
        if !prefix_contains(res, end, v) {
            return v;
        }
        v = v + 1;
    }
    proof {
        lemma_some_value_free(res@.subrange(0, end as int), n);
    }
    0
}

/// The rejection rule for one position: a value `t` drawn for position `i`
/// is kept, and written there, when it is not among the positions before `i`;
/// otherwise it is rejected and `res` is left as it was.
pub fn place(res: &mut [u32], i: usize, t: u32) -> (kept: bool)
    requires
        i < old(res)@.len(),
    ensures
        kept == !old(res)@.subrange(0, i as int).contains(t),
        kept ==> final(res)@ == old(res)@.update(i as int, t),
        !kept ==> final(res)@ == old(res)@,
{
    if prefix_contains(res, i, t) {
        false
    } else {
        res[i] = t;
        true
    }
}

/// Fills position `i` of `res`: draws uniformly from `[0, n)` and offers each
/// draw to [`place`] until one is kept. Only after [`MAX_DRAWS`] rejections
/// is the least value not yet taken placed instead.
fn fill_position(rng: &mut SmallRng, res: &mut [u32], i: usize, n: u32)
    requires
        i < old(res)@.len(),
        i < n,
    ensures
        final(res)@ == old(res)@.update(i as int, final(res)@[i as int]),
        final(res)@[i as int] < n,
        !old(res)@.subrange(0, i as int).contains(final(res)@[i as int]),
{
    let ghost start = res@;
    let mut draws: u64 = 0;
    while draws < MAX_DRAWS
        invariant
            res@ == start,
            start == old(res)@,
            i < res@.len(),
            i < n,
        decreases MAX_DRAWS - draws,
    {
        let t = draw_below(rng, n);
        if place(res, i, t) {
            assert(res@[i as int] == t);
            return;
        }
        draws = draws + 1;
    }
    let t = least_free(res, i, n);
    place(res, i, t);
}

/// Fills `res` with `res.len()` distinct values of `[0, length)`, in the order
/// drawn: each position takes the first uniform draw that [`place`] keeps,
/// that is the first not already among the positions before it.
pub fn random_order(rng: &mut SmallRng, length: u32, res: &mut [u32])
    requires
        old(res)@.len() <= length,
    ensures
        final(res)@.len() == old(res)@.len(),
        distinct_below(final(res)@, length),
{
    let amount = res.len();
    let mut i: usize = 0;
    while i < amount
        invariant
            res@.len() == amount,
            amount <= length,
            i <= amount,
            distinct_below(res@.subrange(0, i as int), length),
        decreases amount - i,
    {
        let ghost before = res@;
        fill_position(rng, res, i, length);
        proof {
            let t = res@[i as int];
            assert(res@.subrange(0, i as int) =~= before.subrange(0, i as int));
            assert(res@.subrange(0, i + 1) =~= before.subrange(0, i as int).push(t));
            let pre = before.subrange(0, i as int);
            assert forall|m: int| 0 <= m < pre.len() implies pre[m] != t by {
                if pre[m] == t {
                    assert(pre.contains(t));
                }
            }
        }
        i = i + 1;
    }
    assert(res@.subrange(0, amount as int) =~= res@);
}

/// A sampling algorithm: fills a caller's buffer with distinct values of
/// `[0, n)`. The buffer is reused from call to call, so an implementation
/// overwrites it and never changes its length.
pub trait SampleAlgorithm {
    fn generate(&self, rng: &mut SmallRng, n: u32, out: &mut [u32])
        requires
            old(out)@.len() <= n,
        ensures
            final(out)@.len() == old(out)@.len(),
            distinct_below(final(out)@, n),
    ;
}

/// Rejection sampling, through [`random_order`].
pub struct RejectionSampling;

impl SampleAlgorithm for RejectionSampling {
    fn generate(&self, rng: &mut SmallRng, n: u32, out: &mut [u32]) {
        random_order(rng, n, out)
    }
}

} // verus!
