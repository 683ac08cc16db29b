//! Retry delays of the remote calls: one exponential series for each kind of
//! call, doubling from its shortest delay up to its longest. The series are
//! those that the crate `exponential_backoff` yields where it adds no
//! jitter.

use vstd::prelude::*;

verus! {

/// The parameters of a retry series: how many retries there are, and the
/// shortest and the longest delay in milliseconds.
#[derive(Clone, Copy, Debug, PartialEq, Eq)]
pub struct Backoff {
    pub attempts: u32,
    pub min: u64,
    pub max: u64,
}

/// Two to the power `k`, held at the largest number of 32 bits where it
/// would go beyond.
pub open spec fn doubling(k: nat) -> nat
    decreases k,
{
    if k == 0 {
        1
    } else if 2 * doubling((k - 1) as nat) > u32::MAX {
        u32::MAX as nat
    } else {
        2 * doubling((k - 1) as nat)
    }
}

/// The delay before retry number `k` (the first retry is number zero): the
/// shortest delay doubled `k` times, capped at the longest.
pub open spec fn delay_at(min: nat, max: nat, k: nat) -> nat {
    if min * doubling(k) <= max {
        min * doubling(k)
    } else {
        max
    }
}

impl Backoff {
    /// The laws of a series hold where the shortest delay is not above the
    /// longest.
    pub open spec fn valid(&self) -> bool {
        self.min <= self.max
    }

    /// The delay before retry number `k`.
    pub open spec fn visit(&self, k: nat) -> nat {
        delay_at(self.min as nat, self.max as nat, k)
    }

    /// The series as it is stored: the delay of the last retry first, that of
    /// the first retry at the tail, where a retry takes it.
    pub open spec fn series(&self) -> Seq<u64> {
        Seq::new(self.attempts as nat, |i: int| self.visit((self.attempts - 1 - i) as nat) as u64)
    }

    /// The delay before the retry whose power of two is `factor`.
    fn delay(&self, factor: u64, Ghost(k): Ghost<nat>) -> (r: u64)
        requires
            factor == doubling(k),
            factor <= u32::MAX,
        ensures
            r == self.visit(k),
    {
        assert(self.min * factor <= u64::MAX * u32::MAX) by (nonlinear_arith)
            requires
                self.min <= u64::MAX,
                factor <= u32::MAX,
        ;
        let product: u128 = (self.min as u128) * (factor as u128);
        if product <= self.max as u128 {
            product as u64
        } else {
            self.max
        }
    }
}

/// What can be drawn out as a stored series of delays.
pub trait FromIteratorToSeries {
    /// The series that `to_vec` gives.
    spec fn stored(&self) -> Seq<u64>;

    /// The delays in milliseconds, the delay of the first retry last.
    fn to_vec(&self) -> (r: Vec<u64>)
        ensures
            r@ == self.stored(),
    ;
}

impl FromIteratorToSeries for Backoff {
    open spec fn stored(&self) -> Seq<u64> {
        self.series()
    }

    fn to_vec(&self) -> (r: Vec<u64>) {
        let mut waits: Vec<u64> = Vec::new();
        let mut factor: u64 = 1;
        let mut k: u32 = 0;
        while k < self.attempts
            invariant
                k <= self.attempts,
                factor == doubling(k as nat),
                factor <= u32::MAX,
                waits@.len() == k,
                forall|i: int| 0 <= i < k ==> waits@[i] == self.visit(i as nat) as u64,
            decreases self.attempts - k,
        {
            waits.push(self.delay(factor, Ghost(k as nat)));
            factor = if 2 * factor > 4294967295 {
                4294967295
            } else {
                2 * factor
            };
            k = k + 1;
        }
        let mut series: Vec<u64> = Vec::new();
        let mut left: usize = waits.len();
        while left > 0
            invariant
                left <= waits@.len(),
                waits@.len() == self.attempts,
                forall|i: int| 0 <= i < waits@.len() ==> waits@[i] == self.visit(i as nat) as u64,
                series@.len() == waits@.len() - left,
                forall|i: int|
                    0 <= i < series@.len() ==> series@[i] == self.visit(
                        (self.attempts - 1 - i) as nat,
                    ) as u64,
            decreases left,
        {
            left = left - 1;
            series.push(waits[left]);
        }
        assert(series@ =~= self.series());
        series
    }
}

/// The retry series of the call that opens a session.
pub fn open_session() -> (r: Backoff)
    ensures
        r == (Backoff { attempts: 3, min: 1000, max: 5000 }),
        r.valid(),
{
    Backoff { attempts: 3, min: 1000, max: 5000 }
}

/// The retry series of the call that closes a session.
pub fn close_session() -> (r: Backoff)
    ensures
        r == (Backoff { attempts: 2, min: 1000, max: 3000 }),
        r.valid(),
{
    Backoff { attempts: 2, min: 1000, max: 3000 }
}

/// The retry series of the call that asks for the entry node's addresses.
pub fn get_addresses() -> (r: Backoff)
    ensures
        r == (Backoff { attempts: 10, min: 1000, max: 60000 }),
        r.valid(),
{
    Backoff { attempts: 10, min: 1000, max: 60000 }
}

/// The retry series of the call that lists the open sessions.
pub fn list_sessions() -> (r: Backoff)
    ensures
        r == (Backoff { attempts: 3, min: 1000, max: 5000 }),
        r.valid(),
{
    Backoff { attempts: 3, min: 1000, max: 5000 }
}

proof fn lemma_doubling_grows(k: nat)
    ensures
        1 <= doubling(k) <= u32::MAX,
        doubling(k + 1) >= doubling(k),
    decreases k,
{
    if k > 0 {
        lemma_doubling_grows((k - 1) as nat);
    }
}

proof fn lemma_delay_grows(min: nat, max: nat, k: nat)
    requires
        min <= max,
    ensures
        min <= delay_at(min, max, k) <= max,
        delay_at(min, max, k) <= delay_at(min, max, k + 1),
{
    lemma_doubling_grows(k);
    assert(min * doubling(k) >= min) by (nonlinear_arith)
        requires
            doubling(k) >= 1,
    ;
    assert(min * doubling(k) <= min * doubling(k + 1)) by (nonlinear_arith)
        requires
            doubling(k) <= doubling(k + 1),
    ;
}

/// A retry series has as many delays as it has retries, every delay lies
/// between the shortest and the longest, the first retry waits the shortest
/// delay, and no retry waits less than one before it. In the stored series,
/// which is taken from the tail, no delay is therefore longer than one
/// stored before it.
pub proof fn lemma_series_never_shrinks(b: Backoff)
    requires
        b.valid(),
    ensures
        b.series().len() == b.attempts,
        b.visit(0) == b.min,
        forall|k: nat| b.min <= #[trigger] b.visit(k) <= b.max,
        forall|lo: nat, hi: nat| lo <= hi ==> #[trigger] b.visit(lo) <= #[trigger] b.visit(hi),
        forall|i: int|
            0 <= i < b.attempts ==> #[trigger] b.series()[i] == b.visit((b.attempts - 1 - i) as nat),
        forall|i: int, j: int|
            0 <= i <= j < b.attempts ==> #[trigger] b.series()[i] >= #[trigger] b.series()[j],
{
    assert forall|k: nat| b.min <= #[trigger] b.visit(k) <= b.max by {
        lemma_delay_grows(b.min as nat, b.max as nat, k);
    }
    assert forall|lo: nat, hi: nat| lo <= hi implies #[trigger] b.visit(lo) <= #[trigger] b.visit(
        hi,
    ) by {
        lemma_visits_ordered(b, lo, hi);
    }
    assert(b.visit(0) == b.min) by {
        assert(doubling(0) == 1);
        assert(b.min * 1 == b.min);
    }
    assert forall|i: int, j: int| 0 <= i <= j < b.attempts implies #[trigger] b.series()[i]
        >= #[trigger] b.series()[j] by {
        lemma_visits_ordered(b, (b.attempts - 1 - j) as nat, (b.attempts - 1 - i) as nat);
        lemma_delay_grows(b.min as nat, b.max as nat, (b.attempts - 1 - j) as nat);
        lemma_delay_grows(b.min as nat, b.max as nat, (b.attempts - 1 - i) as nat);
    }
}

proof fn lemma_visits_ordered(b: Backoff, lo: nat, hi: nat)
    requires
        b.valid(),
        lo <= hi,
    ensures
        b.visit(lo) <= b.visit(hi),
    decreases hi - lo,
{
    if lo < hi {
        lemma_visits_ordered(b, lo, (hi - 1) as nat);
        lemma_delay_grows(b.min as nat, b.max as nat, (hi - 1) as nat);
    }
}

} // verus!
