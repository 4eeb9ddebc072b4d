//! The sweep policy: which `(n, k)` pairs to time, in what order, and when to
//! stop.
use vstd::prelude::*;

verus! {

/// Pairs whose `n` or `k` would reach this size are not tried.
pub const MAX_SIZE: u64 = 1_000_000_000;

/// A latency above this, in nanoseconds (three seconds), ends the row of the
/// sweep it was measured in.
pub const MAX_LATENCY_NANOS: u64 = 3_000_000_000;

/// The Fibonacci numbers, starting `1, 1, 2, 3, 5`.
pub open spec fn fib(i: nat) -> nat
    decreases i,
{
    if i < 2 {
        1
    } else {
        fib((i - 2) as nat) + fib((i - 1) as nat)
    }
}

/// One step of the counter rule `(a, b) -> (b, a + b)`.
pub open spec fn fib_step(p: (nat, nat)) -> (nat, nat) {
    (p.1, p.0 + p.1)
}

/// `p` after `m` steps of [`fib_step`].
pub open spec fn fib_steps(p: (nat, nat), m: nat) -> (nat, nat)
    decreases m,
{
    if m == 0 {
        p
    } else {
        fib_step(fib_steps(p, (m - 1) as nat))
    }
}

/// From `(1, 1)`, `m` steps of the counter rule reach the Fibonacci numbers
/// at `m` and `m + 1`: the steps run through the Fibonacci sequence.
pub proof fn lemma_steps_from_one(m: nat)
    ensures
        fib_steps((1, 1), m) == (fib(m), fib(m + 1)),
    decreases m,
{
    if m > 0 {
        lemma_steps_from_one((m - 1) as nat);
    }
}

/// A pair of Fibonacci-like counters `(a, b)`.
#[derive(PartialEq, Eq, Structural, Clone, Copy, Debug)]
pub struct Counter {
    pub a: u64,
    pub b: u64,
}

impl Counter {
    /// The pair as mathematical integers.
    pub open spec fn view_pair(self) -> (nat, nat) {
        (self.a as nat, self.b as nat)
    }
}

/// Applies the counter rule `(a, b) -> (b, a + b)`.
pub fn advance(p: Counter) -> (r: Counter)
    requires
        p.a + p.b <= u64::MAX,
    ensures
        r.view_pair() == fib_step(p.view_pair()),
{
    Counter { a: p.b, b: p.a + p.b }
}

/// The counter rule on machine pairs, where the sum fits.
pub open spec fn stepped(p: Counter) -> Counter {
    Counter { a: p.b, b: (p.a + p.b) as u64 }
}

/// The state of a sweep: `k` is taken from the counter pair `kk` and `n` from
/// the counter pair `nn`, each the second member of its pair. The pair to
/// time next is `(n, k) = (nn.b, kk.b)`.
#[derive(PartialEq, Eq, Structural, Clone, Copy, Debug)]
pub struct Sweep {
    pub kk: Counter,
    pub nn: Counter,
}

impl Sweep {
    /// Both pairs are ordered and positive, `nn` is at least `kk` in each
    /// member (so `k <= n`), and `n` is below [`MAX_SIZE`].
    pub open spec fn wf(&self) -> bool {
        &&& 1 <= self.kk.a <= self.kk.b
        &&& self.nn.a <= self.nn.b
        &&& self.kk.a <= self.nn.a
        &&& self.kk.b <= self.nn.b
        &&& self.nn.b < MAX_SIZE
    }

    /// The first row of the sweep from counter pair `kk`, where the sweep
    /// goes on to one: `n` starts equal to `k`.
    pub open spec fn row_from(kk: Counter) -> Option<Sweep> {
        if kk.a + kk.b < MAX_SIZE {
            Some(Sweep { kk: stepped(kk), nn: stepped(kk) })
        } else {
            None
        }
    }

    /// The start of a sweep: `n = k = 1`.
    pub fn new() -> (r: Sweep)
        ensures
            r.wf(),
            r.kk == (Counter { a: 1, b: 1 }),
            r.nn == (Counter { a: 1, b: 1 }),
    {
        Sweep { kk: Counter { a: 1, b: 1 }, nn: Counter { a: 1, b: 1 } }
    }

    /// The domain size to time now.
    pub fn n(&self) -> (r: u64)
        ensures
            r == self.nn.b,
    {
        self.nn.b
    }

    /// The sample count to time now.
    pub fn k(&self) -> (r: u64)
        ensures
            r == self.kk.b,
    {
        self.kk.b
    }

    /// The state after the pair `(n, k)` took `latency_nanos` per call, or
    /// `None` where the sweep of this algorithm is over.
    ///
    /// A latency within [`MAX_LATENCY_NANOS`] moves `n` on; once `n` would
    /// reach [`MAX_SIZE`], `k` moves on and `n` starts again from it. A latency
    /// above moves `k` on at once, or, at `n == k`, where no larger `k` can be
    /// faster, ends the sweep. So does `k` reaching [`MAX_SIZE`].
    pub fn next(&self, latency_nanos: u64) -> (r: Option<Sweep>)
        requires
            self.wf(),
        ensures
            latency_nanos > MAX_LATENCY_NANOS && self.nn == self.kk ==> r is None,
            latency_nanos > MAX_LATENCY_NANOS && self.nn != self.kk ==> r == Sweep::row_from(
                self.kk,
            ),
            latency_nanos <= MAX_LATENCY_NANOS ==> r == if self.nn.a + self.nn.b < MAX_SIZE {
                Some(Sweep { kk: self.kk, nn: stepped(self.nn) })
            } else {
                Sweep::row_from(self.kk)
            },
            r matches Some(s) ==> s.wf() && (self.kk.b < s.kk.b || (s.kk == self.kk
                && self.nn.b < s.nn.b)),
    {
        if latency_nanos > MAX_LATENCY_NANOS {
            if self.nn == self.kk {
                return None;
            }
            return Sweep::first_of_row(self.kk);
        }
        if self.nn.a + self.nn.b < MAX_SIZE {
            Some(Sweep { kk: self.kk, nn: advance(self.nn) })
        } else {
            Sweep::first_of_row(self.kk)
        }
    }

    /// [`Sweep::row_from`] at run time.
    fn first_of_row(kk: Counter) -> (r: Option<Sweep>)
        requires
            1 <= kk.a <= kk.b < MAX_SIZE,
        ensures
            r == Sweep::row_from(kk),
    {
        if kk.a + kk.b < MAX_SIZE {
            let next = advance(kk);
            Some(Sweep { kk: next, nn: next })
        } else {
            None
        }
    }
}

} // verus!
