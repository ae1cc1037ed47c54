use vstd::prelude::*;

verus! {

/// One whole token, in the millitoken fixed-point scale the bucket uses.
pub const TOKEN_MILLI: u64 = 1000;

/// The highest refill rate the bucket accepts, in millitokens per second
/// (one thousand tokens a second).
pub const MAX_RATE_MILLI: u64 = 1000000;

/// The largest stored-token capacity, in millitokens.
pub const MAX_CAPACITY_MILLI: u64 = 0x1000000000000000;

/// The largest instant the bucket's clock accepts, in milliseconds from
/// the caller's epoch (about thirty-five years).
pub const MAX_INSTANT_MS: u64 = 0x10000000000;

/// A token bucket that smooths the outbound request rate: tokens accrue
/// at a steady rate up to a burst capacity, and each request spends one.
///
/// Quantities are fixed-point integers — millitokens, and milliseconds on
/// a caller-supplied monotonic clock — so refill and consumption are exact
/// arithmetic. The caller reads the clock and passes each instant in;
/// instants must never decrease from call to call.
#[derive(Debug, Clone)]
pub struct TokenBucket {
    pub rate_milli: u64,
    pub capacity_milli: u64,
    pub tokens_milli: u64,
    pub last_update_ms: u64,
}

/// The stored tokens after `elapsed_ms` of refill at `rate_milli` per
/// second, capped at the capacity.
pub open spec fn spec_refill(
    tokens: nat,
    capacity: nat,
    elapsed_ms: nat,
    rate_milli: nat,
) -> nat {
    let grown = tokens + elapsed_ms * rate_milli / 1000;
    if grown <= capacity {
        grown
    } else {
        capacity
    }
}

/// The whole milliseconds that cover the accrual of what one token still
/// lacks, rounding up.
pub open spec fn spec_wait_ms(tokens: nat, rate_milli: nat) -> nat
    recommends
        tokens < 1000,
        rate_milli >= 1,
{
    (((1000 - tokens) * 1000 + rate_milli - 1) / (rate_milli as int)) as nat
}

impl TokenBucket {
    /// Bucket invariant: a positive bounded rate, a bounded capacity, no
    /// more tokens than the capacity, and a clock inside the supported
    /// range.
    pub open spec fn wf(&self) -> bool {
        &&& 1 <= self.rate_milli <= MAX_RATE_MILLI
        &&& self.capacity_milli <= MAX_CAPACITY_MILLI
        &&& self.tokens_milli <= self.capacity_milli
        &&& self.last_update_ms <= MAX_INSTANT_MS
    }

    /// A bucket that starts full, so a burst up to the capacity needs no
    /// waiting.
    pub fn new(rate_milli: u64, capacity_milli: u64, now_ms: u64) -> (r: Self)
        requires
            1 <= rate_milli <= MAX_RATE_MILLI,
            capacity_milli <= MAX_CAPACITY_MILLI,
            now_ms <= MAX_INSTANT_MS,
        ensures
            r.wf(),
            r.rate_milli == rate_milli,
            r.capacity_milli == capacity_milli,
            r.tokens_milli == capacity_milli,
            r.last_update_ms == now_ms,
    {
        TokenBucket { rate_milli, capacity_milli, tokens_milli: capacity_milli, last_update_ms: now_ms }
    }

    pub fn get_rate(&self) -> (r: u64)
        ensures
            r == self.rate_milli,
    {
        self.rate_milli
    }

    pub fn get_capacity(&self) -> (r: u64)
        ensures
            r == self.capacity_milli,
    {
        self.capacity_milli
    }

    /// Accrues the tokens earned since the last update and advances the
    /// clock; refill and any following consumption happen inside one
    /// exclusive borrow, so no two callers can spend the same token.
    fn refill(&mut self, now_ms: u64)
        requires
            old(self).wf(),
            old(self).last_update_ms <= now_ms <= MAX_INSTANT_MS,
        ensures
            final(self).wf(),
            final(self).rate_milli == old(self).rate_milli,
            final(self).capacity_milli == old(self).capacity_milli,
            final(self).last_update_ms == now_ms,
            final(self).tokens_milli == spec_refill(
                old(self).tokens_milli as nat,
                old(self).capacity_milli as nat,
                (now_ms - old(self).last_update_ms) as nat,
                old(self).rate_milli as nat,
            ),
    {
        let elapsed_ms: u64 = now_ms - self.last_update_ms;
        proof {
            assert(elapsed_ms * self.rate_milli <= MAX_INSTANT_MS * MAX_RATE_MILLI)
                by (nonlinear_arith)
                requires
                    elapsed_ms <= MAX_INSTANT_MS,
                    self.rate_milli <= MAX_RATE_MILLI,
            ;
            assert(elapsed_ms * self.rate_milli / 1000 <= MAX_INSTANT_MS * MAX_RATE_MILLI);
        }
        let earned: u64 = elapsed_ms * self.rate_milli / 1000;
        let grown: u64 = if earned <= u64::MAX - self.tokens_milli {
            self.tokens_milli + earned
        } else {
            u64::MAX
        };
        self.tokens_milli = if grown <= self.capacity_milli {
            grown
        } else {
            self.capacity_milli
        };
        self.last_update_ms = now_ms;
    }

    /// Refills for the given instant, then spends one token when a whole
    /// one is stored, reporting whether it did. Never waits.
    pub fn try_acquire(&mut self, now_ms: u64) -> (r: bool)
        requires
            old(self).wf(),
            old(self).last_update_ms <= now_ms <= MAX_INSTANT_MS,
        ensures
            final(self).wf(),
            final(self).rate_milli == old(self).rate_milli,
            final(self).capacity_milli == old(self).capacity_milli,
            final(self).last_update_ms == now_ms,
            ({
                let refilled = spec_refill(
                    old(self).tokens_milli as nat,
                    old(self).capacity_milli as nat,
                    (now_ms - old(self).last_update_ms) as nat,
                    old(self).rate_milli as nat,
                );
                &&& r <==> refilled >= TOKEN_MILLI
                &&& r ==> final(self).tokens_milli == refilled - TOKEN_MILLI
                &&& !r ==> final(self).tokens_milli == refilled
            }),
    {
        self.refill(now_ms);
        if self.tokens_milli >= TOKEN_MILLI {
            self.tokens_milli = self.tokens_milli - TOKEN_MILLI;
            true
        } else {
            false
        }
    }

    /// One round of the acquisition loop: after refilling, either a token
    /// is spent, or the caller is told how long to suspend before asking
    /// again — the exact whole milliseconds that cover what one token
    /// still lacks. The caller sleeps that long and calls once more; the
    /// loop lives with the caller because only it can sleep.
    pub fn acquire(&mut self, now_ms: u64) -> (r: AcquireOutcome)
        requires
            old(self).wf(),
            old(self).last_update_ms <= now_ms <= MAX_INSTANT_MS,
        ensures
            final(self).wf(),
            final(self).rate_milli == old(self).rate_milli,
            final(self).capacity_milli == old(self).capacity_milli,
            final(self).last_update_ms == now_ms,
            ({
                let refilled = spec_refill(
                    old(self).tokens_milli as nat,
                    old(self).capacity_milli as nat,
                    (now_ms - old(self).last_update_ms) as nat,
                    old(self).rate_milli as nat,
                );
                &&& refilled >= TOKEN_MILLI ==> r == AcquireOutcome::Acquired
                    && final(self).tokens_milli == refilled - TOKEN_MILLI
                &&& refilled < TOKEN_MILLI ==> r == (AcquireOutcome::Wait {
                    ms: spec_wait_ms(refilled, old(self).rate_milli as nat) as u64,
                }) && final(self).tokens_milli == refilled
            }),
    {
        self.refill(now_ms);
        if self.tokens_milli >= TOKEN_MILLI {
            self.tokens_milli = self.tokens_milli - TOKEN_MILLI;
            AcquireOutcome::Acquired
        } else {
            let lacking: u64 = TOKEN_MILLI - self.tokens_milli;
            let wait: u64 = (lacking * 1000 + self.rate_milli - 1) / self.rate_milli;
            AcquireOutcome::Wait { ms: wait }
        }
    }
}

/// What one acquisition round decided: a token was spent, or the caller
/// should suspend this long and try again.
#[derive(Debug, PartialEq, Eq, Structural)]
pub enum AcquireOutcome {
    Acquired,
    Wait { ms: u64 },
}

/// The bucket after `k` back-to-back `try_acquire` calls at the frozen
/// instant its clock already shows (so no refill happens between them).
pub open spec fn spec_after_burst(b: TokenBucket, k: nat) -> TokenBucket
    decreases k,
{
    if k == 0 {
        b
    } else {
        let prev = spec_after_burst(b, (k - 1) as nat);
        if prev.tokens_milli >= 1000 {
            TokenBucket {
                tokens_milli: (prev.tokens_milli - 1000) as u64,
                ..prev
            }
        } else {
            prev
        }
    }
}

/// From a full bucket, a burst of up to `capacity` whole tokens is served
/// without waiting: with the clock frozen, each of the first `k` draws
/// finds at least one whole token (so `try_acquire`'s contract makes it
/// succeed immediately), and after them exactly `k` tokens are gone.
pub proof fn lemma_full_bucket_serves_burst(b: TokenBucket, k: nat)
    requires
        b.wf(),
        b.tokens_milli == b.capacity_milli,
        k <= b.capacity_milli / 1000,
    ensures
        spec_after_burst(b, k).tokens_milli == b.capacity_milli - 1000 * k,
        spec_after_burst(b, k).capacity_milli == b.capacity_milli,
        spec_after_burst(b, k).rate_milli == b.rate_milli,
        spec_after_burst(b, k).last_update_ms == b.last_update_ms,
        forall|i: nat| i < k ==> #[trigger] spec_after_burst(b, i).tokens_milli >= 1000,
    decreases k,
{
    if k > 0 {
        lemma_full_bucket_serves_burst(b, (k - 1) as nat);
        assert(b.capacity_milli - 1000 * (k - 1) >= 1000) by (nonlinear_arith)
            requires
                k <= b.capacity_milli / 1000,
                k > 0,
        ;
        assert forall|i: nat| i < k implies #[trigger] spec_after_burst(b, i).tokens_milli
            >= 1000 by {
            if i == k - 1 {
                assert(spec_after_burst(b, i).tokens_milli == b.capacity_milli - 1000 * i);
            }
        }
    }
}

/// Once a full bucket of `c` whole tokens has served a burst of `c`
/// immediate draws, it is empty, and the next acquisition is told to wait
/// exactly the whole milliseconds in which one token accrues — for a
/// bucket refilled at `rate_milli` per second, the rounded-up value of
/// one second of a token divided by the rate.
pub proof fn lemma_exhausted_bucket_waits_one_token(b: TokenBucket)
    requires
        b.wf(),
        b.tokens_milli == b.capacity_milli,
        b.capacity_milli % 1000 == 0,
    ensures
        spec_after_burst(b, b.capacity_milli as nat / 1000).tokens_milli == 0,
        spec_wait_ms(0, b.rate_milli as nat) == (1000000 + b.rate_milli - 1) as nat / (
        b.rate_milli as nat),
{
    let c = b.capacity_milli as nat / 1000;
    lemma_full_bucket_serves_burst(b, c);
    assert(b.capacity_milli - 1000 * c == 0) by (nonlinear_arith)
        requires
            c == b.capacity_milli as nat / 1000,
            b.capacity_milli % 1000 == 0,
    ;
}

} // verus!
