//! Token bucket for the buyer-facing endpoint, with fractional refill.

use vstd::prelude::*;

verus! {

/// A point of the system's monotonic clock.
#[verifier::external_type_specification]
#[verifier::external_body]
pub struct ExInstant(std::time::Instant);

/// `std::time::Instant::now` reads the clock; nothing is said of what it reads.
pub assume_specification[ std::time::Instant::now ]() -> std::time::Instant
;

/// The time between two readings of the clock.
pub uninterp spec fn time_between(
    now: std::time::Instant,
    earlier: std::time::Instant,
) -> std::time::Duration;

/// The whole length of a duration, in nanoseconds.
pub uninterp spec fn duration_nanos(span: std::time::Duration) -> u128;

/// `std::time::Instant::saturating_duration_since` depends on its two readings
/// of the clock alone.
pub assume_specification[ std::time::Instant::saturating_duration_since ](
    now: &std::time::Instant,
    earlier: std::time::Instant,
) -> (span: std::time::Duration)
    ensures
        span == time_between(*now, earlier),
;

/// `std::time::Duration::as_nanos` gives the whole length of a duration.
pub assume_specification[ std::time::Duration::as_nanos ](span: &std::time::Duration) -> (nanos:
    u128)
    ensures
        nanos == duration_nanos(*span),
;

pub struct TokenBucket {
    rate_per_second: u64,
    burst: u64,
    tokens: u64,
    remainder: u128,
    last: std::time::Instant,
}

pub struct BucketModel {
    pub rate_per_second: int,
    pub burst: int,
    pub tokens: int,
    /// Billionths of a token.
    pub remainder: int,
}

impl View for TokenBucket {
    type V = BucketModel;

    closed spec fn view(&self) -> BucketModel {
        BucketModel {
            rate_per_second: self.rate_per_second as int,
            burst: self.burst as int,
            tokens: self.tokens as int,
            remainder: self.remainder as int,
        }
    }
}

/// The smaller of two integers.
pub open spec fn least(a: int, b: int) -> int {
    if a <= b {
        a
    } else {
        b
    }
}

/// The bucket after `elapsed` nanoseconds. A full bucket accrues nothing.
pub open spec fn refilled(bucket: BucketModel, elapsed: int) -> BucketModel {
    if bucket.tokens == bucket.burst {
        BucketModel { remainder: 0, ..bucket }
    } else {
        let accrued = least(
            least(elapsed * bucket.rate_per_second, u128::MAX as int) + bucket.remainder,
            u128::MAX as int,
        );
        let tokens = least(bucket.tokens + accrued / 1_000_000_000, bucket.burst);
        BucketModel {
            tokens,
            remainder: if tokens == bucket.burst {
                0
            } else {
                accrued % 1_000_000_000
            },
            ..bucket
        }
    }
}

/// The bucket after one request that comes `elapsed` nanoseconds after the last
/// one, and whether the request is granted.
pub open spec fn taken(bucket: BucketModel, elapsed: int) -> (BucketModel, bool) {
    let bucket = refilled(bucket, elapsed);
    if bucket.tokens == 0 {
        (bucket, false)
    } else {
        (BucketModel { tokens: bucket.tokens - 1, ..bucket }, true)
    }
}

/// Whether a bucket holds no more than its burst, and less than one token as
/// the remainder.
pub open spec fn bucket_ok(bucket: BucketModel) -> bool {
    &&& 0 <= bucket.tokens <= bucket.burst
    &&& 0 <= bucket.remainder < 1_000_000_000
    &&& 0 <= bucket.rate_per_second
}

impl TokenBucket {
    #[verifier::type_invariant]
    spec fn within_burst(self) -> bool {
        self.tokens <= self.burst && self.remainder < 1_000_000_000
    }

    /// When the last request came, or the bucket was made.
    pub closed spec fn last_request(self) -> std::time::Instant {
        self.last
    }

    /// A full bucket.
    pub fn new(rate_per_second: u64, burst: u64) -> (bucket: Self)
        ensures
            bucket@ == (BucketModel {
                rate_per_second: rate_per_second as int,
                burst: burst as int,
                tokens: burst as int,
                remainder: 0,
            }),
    {
        TokenBucket {
            rate_per_second,
            burst,
            tokens: burst,
            remainder: 0,
            last: std::time::Instant::now(),
        }
    }

    /// Takes a token if there is one, after the refill for the time since the
    /// last request.
    pub fn try_take(&mut self) -> (granted: bool)
        ensures
            taken(
                old(self)@,
                duration_nanos(
                    time_between(final(self).last_request(), old(self).last_request()),
                ) as int,
            ) == (final(self)@, granted),
            bucket_ok(final(self)@),
    {
        proof {
            use_type_invariant(&*self);
        }
        let now: std::time::Instant = std::time::Instant::now();
        let elapsed: u128 = now.saturating_duration_since(self.last).as_nanos();
        self.last = now;
        self.take_after(elapsed)
    }

    /// Takes a token if there is one, after the refill of `elapsed`
    /// nanoseconds.
    pub fn take_after(&mut self, elapsed: u128) -> (granted: bool)
        ensures
            taken(old(self)@, elapsed as int) == (final(self)@, granted),
            bucket_ok(final(self)@),
            final(self).last_request() == old(self).last_request(),
    {
        proof {
            use_type_invariant(&*self);
        }
        if self.tokens == self.burst {
            self.remainder = 0;
        } else {
            let grown: u128 = match elapsed.checked_mul(self.rate_per_second as u128) {
                Some(grown) => grown,
                None => u128::MAX,
            };
            let accrued: u128 = grown.saturating_add(self.remainder);
            let added: u128 = accrued / 1_000_000_000;
            let room: u64 = self.burst - self.tokens;
            if added >= room as u128 {
                self.tokens = self.burst;
                self.remainder = 0;
            } else {
                self.tokens = self.tokens + added as u64;
                self.remainder = accrued % 1_000_000_000;
            }
        }
        if self.tokens == 0 {
            return false;
        }
        self.tokens = self.tokens - 1;
        true
    }
}

/// What a bucket can still grant, in billionths of a token.
pub open spec fn stock(bucket: BucketModel) -> int {
    bucket.tokens * 1_000_000_000 + bucket.remainder
}

/// The number of requests that are granted, one after each of the given spans.
pub open spec fn grants(bucket: BucketModel, spans: Seq<int>) -> int
    decreases spans.len(),
{
    if spans.len() == 0 {
        0
    } else {
        let (after, granted) = taken(bucket, spans[0]);
        grants(after, spans.skip(1)) + if granted {
            1int
        } else {
            0int
        }
    }
}

/// The sum of the spans.
pub open spec fn total(spans: Seq<int>) -> int
    decreases spans.len(),
{
    if spans.len() == 0 {
        0
    } else {
        spans[0] + total(spans.skip(1))
    }
}

proof fn lemma_taken(bucket: BucketModel, elapsed: int)
    requires
        bucket_ok(bucket),
        0 <= elapsed,
    ensures
        ({
            let (after, granted) = taken(bucket, elapsed);
            &&& bucket_ok(after)
            &&& after.rate_per_second == bucket.rate_per_second
            &&& after.burst == bucket.burst
            &&& stock(after) + (if granted {
                1_000_000_000int
            } else {
                0int
            }) <= stock(bucket) + elapsed * bucket.rate_per_second
        }),
{
    assert(0 <= elapsed * bucket.rate_per_second) by (nonlinear_arith)
        requires
            0 <= elapsed,
            0 <= bucket.rate_per_second,
    ;
}

/// A request finds what the bucket held and what its rate gave since the last
/// one, up to the burst, and is granted exactly if that is a whole token. What
/// is not granted stays.
pub proof fn nothing_accrued_is_lost(bucket: BucketModel, elapsed: int)
    requires
        bucket_ok(bucket),
        0 <= elapsed,
        elapsed * bucket.rate_per_second + bucket.remainder <= u128::MAX,
    ensures
        ({
            let (after, granted) = taken(bucket, elapsed);
            let grown = stock(bucket) + elapsed * bucket.rate_per_second;
            let found = if grown <= bucket.burst * 1_000_000_000 {
                grown
            } else {
                bucket.burst * 1_000_000_000
            };
            &&& granted <==> found >= 1_000_000_000
            &&& stock(after) == (if granted {
                found - 1_000_000_000
            } else {
                found
            })
            &&& after.rate_per_second == bucket.rate_per_second
            &&& after.burst == bucket.burst
        }),
{
    assert(0 <= elapsed * bucket.rate_per_second) by (nonlinear_arith)
        requires
            0 <= elapsed,
            0 <= bucket.rate_per_second,
    ;
}

/// Over any run of requests, a bucket grants no more than it holds plus what
/// its rate gives for the time that passes: `burst + rate * seconds` requests
/// from a full bucket.
pub proof fn grants_are_bounded(bucket: BucketModel, spans: Seq<int>)
    requires
        bucket_ok(bucket),
        forall|i: int| 0 <= i < spans.len() ==> 0 <= #[trigger] spans[i],
    ensures
        grants(bucket, spans) * 1_000_000_000 <= stock(bucket) + total(spans)
            * bucket.rate_per_second,
    decreases spans.len(),
{
    if spans.len() > 0 {
        let (after, granted) = taken(bucket, spans[0]);
        let rest = spans.skip(1);
        lemma_taken(bucket, spans[0]);
        assert forall|i: int| 0 <= i < rest.len() implies 0 <= #[trigger] rest[i] by {
            assert(rest[i] == spans[i + 1]);
        }
        grants_are_bounded(after, rest);
        let rate = bucket.rate_per_second;
        assert((spans[0] + total(rest)) * rate == spans[0] * rate + total(rest) * rate)
            by (nonlinear_arith);
    }
}

/// As many requests as the bucket holds tokens are granted, whatever time
/// passes between them: the first `burst` requests from a full bucket.
pub proof fn held_tokens_are_granted(bucket: BucketModel, spans: Seq<int>)
    requires
        bucket_ok(bucket),
        spans.len() <= bucket.tokens,
        forall|i: int| 0 <= i < spans.len() ==> 0 <= #[trigger] spans[i],
    ensures
        grants(bucket, spans) == spans.len(),
    decreases spans.len(),
{
    if spans.len() > 0 {
        let (after, granted) = taken(bucket, spans[0]);
        let rest = spans.skip(1);
        lemma_taken(bucket, spans[0]);
        assert(0 <= spans[0] * bucket.rate_per_second) by (nonlinear_arith)
            requires
                0 <= spans[0],
                0 <= bucket.rate_per_second,
        ;
        assert forall|i: int| 0 <= i < rest.len() implies 0 <= #[trigger] rest[i] by {
            assert(rest[i] == spans[i + 1]);
        }
        held_tokens_are_granted(after, rest);
    }
}

/// A full bucket grants its whole burst at once, and then refuses until time
/// passes.
pub proof fn burst_is_granted(bucket: BucketModel, spans: Seq<int>)
    requires
        bucket_ok(bucket),
        bucket.remainder == 0,
        forall|i: int| 0 <= i < spans.len() ==> #[trigger] spans[i] == 0,
    ensures
        grants(bucket, spans) == least(bucket.tokens, spans.len() as int),
    decreases spans.len(),
{
    if spans.len() > 0 {
        let (after, granted) = taken(bucket, spans[0]);
        let rest = spans.skip(1);
        assert forall|i: int| 0 <= i < rest.len() implies #[trigger] rest[i] == 0 by {
            assert(rest[i] == spans[i + 1]);
        }
        assert(0 * bucket.rate_per_second == 0);
        burst_is_granted(after, rest);
    }
}

} // verus!
