//! Request rate limits: token buckets refilled continuously over a minute.
//!
//! Time is in milliseconds. A bucket of capacity `c` holds its tokens
//! multiplied by 60 000, so that one millisecond refills exactly `c` units
//! and a token is 60 000 units.

use vstd::prelude::*;

verus! {

/// Limits on a source's requests: per minute, bytes per minute and
/// concurrent requests.
#[derive(Debug, Clone, Copy, PartialEq, Eq, Structural)]
pub struct Limits {
    pub requests_per_min: Option<u64>,
    pub bytes_per_min: Option<u64>,
    pub concurrency: Option<u32>,
}

/// Units of bucket content per token.
pub const UNITS_PER_TOKEN: u128 = 60_000;

/// The content of a bucket after refilling from `last` to `now`: `capacity`
/// units per elapsed millisecond, up to a full bucket.
pub open spec fn refilled(units: int, last: int, now: int, capacity: int) -> int {
    let elapsed = if now > last { now - last } else { 0 };
    let full = capacity * UNITS_PER_TOKEN;
    if units + elapsed * capacity > full {
        full
    } else {
        units + elapsed * capacity
    }
}

/// The milliseconds to wait until `need` units have refilled at `capacity`
/// units per millisecond: rounded up, at least one, at most `u64::MAX`.
pub open spec fn wait_for(need: int, capacity: int) -> int {
    let w = (need + capacity - 1) / capacity;
    if w < 1 {
        1
    } else if w > u64::MAX {
        u64::MAX as int
    } else {
        w
    }
}

/// What a request gets from a bucket.
#[derive(Debug, Clone, Copy, PartialEq, Eq, Structural)]
pub enum Admission {
    /// The tokens were taken.
    Granted,
    /// Not enough tokens: try again after this many milliseconds.
    Wait(u64),
}

/// A token bucket.
pub struct TokenBucket {
    capacity: u64,
    units: u128,
    last_ms: u64,
}

/// The mathematical content of a [`TokenBucket`].
pub struct BucketView {
    pub capacity: nat,
    pub units: nat,
    pub last_ms: nat,
}

impl View for TokenBucket {
    type V = BucketView;

    closed spec fn view(&self) -> BucketView {
        BucketView { capacity: self.capacity as nat, units: self.units as nat, last_ms: self.last_ms as nat }
    }
}

/// The bucket after a request of `cost` tokens at `now`, and what the
/// request gets.
pub open spec fn take_spec(b: BucketView, cost: nat, now: nat) -> (BucketView, Admission) {
    let r = refilled(b.units as int, b.last_ms as int, now as int, b.capacity as int);
    let need = cost * UNITS_PER_TOKEN;
    if r >= need {
        (BucketView { capacity: b.capacity, units: (r - need) as nat, last_ms: now }, Admission::Granted)
    } else {
        (
            BucketView { capacity: b.capacity, units: r as nat, last_ms: now },
            Admission::Wait(wait_for(need - r, b.capacity as int) as u64),
        )
    }
}

/// A bucket never holds more than it can.
pub open spec fn bucket_ok(b: BucketView) -> bool {
    b.units <= b.capacity * UNITS_PER_TOKEN
}

impl TokenBucket {
    #[verifier::type_invariant]
    closed spec fn wf(&self) -> bool {
        self.units <= self.capacity as u128 * UNITS_PER_TOKEN
    }

    /// A full bucket of `capacity` tokens at `now`.
    pub fn full(capacity: u64, now_ms: u64) -> (b: Self)
        ensures
            b@ == (BucketView { capacity: capacity as nat, units: (capacity * UNITS_PER_TOKEN) as nat, last_ms: now_ms as nat }),
    {
        TokenBucket { capacity, units: capacity as u128 * UNITS_PER_TOKEN, last_ms: now_ms }
    }

    /// Takes `cost` tokens at `now` if the bucket, refilled, holds them;
    /// otherwise says how long to wait.
    pub fn take(&mut self, cost: u64, now_ms: u64) -> (a: Admission)
        requires
            old(self)@.capacity > 0,
        ensures
            (final(self)@, a) == take_spec(old(self)@, cost as nat, now_ms as nat),
            bucket_ok(final(self)@),
    {
        proof {
            use_type_invariant(&*self);
        }
        let elapsed: u64 = if now_ms > self.last_ms { now_ms - self.last_ms } else { 0 };
        let cap = self.capacity as u128;
        let full = cap * UNITS_PER_TOKEN;
        let e: u64 = if elapsed > 60_000 { 60_000 } else { elapsed };
        assert(e as u128 * cap <= 60_000 * cap) by (nonlinear_arith)
            requires
                e <= 60_000,
        ;
        let gained = e as u128 * cap;
        let r: u128 = if self.units + gained > full { full } else { self.units + gained };
        proof {
            if elapsed > 60_000 {
                assert(elapsed * cap >= 60_000 * cap) by (nonlinear_arith)
                    requires
                        elapsed > 60_000,
                ;
            }
        }
        let need = cost as u128 * UNITS_PER_TOKEN;
        if r >= need {
            self.units = r - need;
            self.last_ms = now_ms;
            Admission::Granted
        } else {
            self.units = r;
            self.last_ms = now_ms;
            let w = (need - r + cap - 1) / cap;
            let ms: u64 = if w < 1 {
                1
            } else if w > 0xffff_ffff_ffff_ffff {
                0xffff_ffff_ffff_ffff
            } else {
                w as u64
            };
            Admission::Wait(ms)
        }
    }
}

/// Waiting as long as a bucket asks is enough: a request of at most the
/// bucket's capacity that was told to wait is granted when it comes back
/// after the wait, if nothing was taken meanwhile.
pub proof fn law_wait_suffices(b: BucketView, cost: nat, now: nat)
    requires
        b.capacity > 0,
        cost <= b.capacity,
        bucket_ok(b),
        take_spec(b, cost, now).1 is Wait,
    ensures
        ({
            let (after, a) = take_spec(b, cost, now);
            take_spec(after, cost, now + wait_for(
                cost * UNITS_PER_TOKEN - refilled(b.units as int, b.last_ms as int, now as int, b.capacity as int),
                b.capacity as int,
            ) as nat).1 == Admission::Granted
        }),
{
    let c = b.capacity as int;
    let r = refilled(b.units as int, b.last_ms as int, now as int, c);
    let need = cost * UNITS_PER_TOKEN;
    let w = wait_for(need - r, c);
    assert(cost * UNITS_PER_TOKEN <= c * UNITS_PER_TOKEN) by (nonlinear_arith)
        requires
            cost <= c,
    ;
    assert((need - r + c - 1) / c <= 60_001) by (nonlinear_arith)
        requires
            c > 0,
            0 <= r,
            need <= c * 60_000,
    ;
    assert((need - r + c - 1) / c * c >= need - r) by (nonlinear_arith)
        requires
            c > 0,
            need - r > 0,
    ;
    assert(w * c >= need - r) by (nonlinear_arith)
        requires
            c > 0,
            need - r > 0,
            w >= (need - r + c - 1) / c,
            (need - r + c - 1) / c * c >= need - r,
    ;
    assert(cost * UNITS_PER_TOKEN <= c * UNITS_PER_TOKEN) by (nonlinear_arith)
        requires
            cost <= c,
    ;
}

/// A granted request leaves the bucket holding what it held after refilling,
/// less the tokens taken; a bucket never holds more than a full one.
pub proof fn law_grant_takes_cost(b: BucketView, cost: nat, now: nat)
    requires
        bucket_ok(b),
        take_spec(b, cost, now).1 == Admission::Granted,
    ensures
        take_spec(b, cost, now).0.units + cost * UNITS_PER_TOKEN == refilled(b.units as int, b.last_ms as int, now as int, b.capacity as int),
        bucket_ok(take_spec(b, cost, now).0),
{
}

/// The capacity a limit gives a bucket: none or 0 leaves it unlimited.
pub open spec fn capacity_of(limit: Option<u64>) -> nat {
    match limit {
        Some(c) => c as nat,
        None => 0,
    }
}

/// Requests and bytes per minute for one source.
pub struct RateLimiter {
    limits: Limits,
    requests: TokenBucket,
    bytes: TokenBucket,
}

impl RateLimiter {
    #[verifier::type_invariant]
    closed spec fn wf(&self) -> bool {
        &&& self.requests@.capacity == capacity_of(self.limits.requests_per_min)
        &&& self.bytes@.capacity == capacity_of(self.limits.bytes_per_min)
    }

    /// A limiter whose buckets start full at `now`.
    pub fn new(limits: Limits, now_ms: u64) -> (r: Self)
        ensures
            r.limits() == limits,
            r.requests_bucket() == (BucketView {
                capacity: capacity_of(limits.requests_per_min),
                units: (capacity_of(limits.requests_per_min) * UNITS_PER_TOKEN) as nat,
                last_ms: now_ms as nat,
            }),
            r.bytes_bucket() == (BucketView {
                capacity: capacity_of(limits.bytes_per_min),
                units: (capacity_of(limits.bytes_per_min) * UNITS_PER_TOKEN) as nat,
                last_ms: now_ms as nat,
            }),
    {
        let rpm = match limits.requests_per_min {
            Some(c) => c,
            None => 0,
        };
        let bpm = match limits.bytes_per_min {
            Some(c) => c,
            None => 0,
        };
        RateLimiter { limits, requests: TokenBucket::full(rpm, now_ms), bytes: TokenBucket::full(bpm, now_ms) }
    }

    /// The limits.
    pub closed spec fn limits(&self) -> Limits {
        self.limits
    }

    /// The bucket of requests.
    pub closed spec fn requests_bucket(&self) -> BucketView {
        self.requests@
    }

    /// The bucket of bytes.
    pub closed spec fn bytes_bucket(&self) -> BucketView {
        self.bytes@
    }

    /// The concurrency limit, which the caller enforces.
    pub fn concurrency(&self) -> (r: Option<u32>)
        ensures
            r == self.limits().concurrency,
    {
        self.limits.concurrency
    }

    /// Admits one request at `now`: granted at once when requests are not
    /// limited (no limit, or 0), else as the bucket decides.
    pub fn take_request(&mut self, now_ms: u64) -> (a: Admission)
        ensures
            final(self).limits() == old(self).limits(),
            final(self).bytes_bucket() == old(self).bytes_bucket(),
            if capacity_of(old(self).limits().requests_per_min) > 0 {
                (final(self).requests_bucket(), a) == take_spec(old(self).requests_bucket(), 1, now_ms as nat)
            } else {
                a == Admission::Granted && final(self).requests_bucket() == old(self).requests_bucket()
            },
    {
        proof {
            use_type_invariant(&*self);
        }
        let c = match self.limits.requests_per_min {
            Some(c) => c,
            None => 0,
        };
        if c == 0 {
            return Admission::Granted;
        }
        let mut b = TokenBucket::full(c, 0);
        std::mem::swap(&mut b, &mut self.requests);
        let a = b.take(1, now_ms);
        self.requests = b;
        a
    }

    /// Admits a request of `bytes` bytes at `now`: granted at once when bytes
    /// are not limited (no limit, or 0), else as the bucket decides.
    pub fn take_bytes(&mut self, bytes: u64, now_ms: u64) -> (a: Admission)
        ensures
            final(self).limits() == old(self).limits(),
            final(self).requests_bucket() == old(self).requests_bucket(),
            if capacity_of(old(self).limits().bytes_per_min) > 0 {
                (final(self).bytes_bucket(), a) == take_spec(old(self).bytes_bucket(), bytes as nat, now_ms as nat)
            } else {
                a == Admission::Granted && final(self).bytes_bucket() == old(self).bytes_bucket()
            },
    {
        proof {
            use_type_invariant(&*self);
        }
        let c = match self.limits.bytes_per_min {
            Some(c) => c,
            None => 0,
        };
        if c == 0 {
            return Admission::Granted;
        }
        let mut b = TokenBucket::full(c, 0);
        std::mem::swap(&mut b, &mut self.bytes);
        let a = b.take(bytes, now_ms);
        self.bytes = b;
        a
    }
}

} // verus!
