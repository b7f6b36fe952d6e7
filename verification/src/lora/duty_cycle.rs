//! EU 868 MHz duty cycle enforcement (ERC Recommendation 70-03 / EN 300 220).
//!
//! Duty cycle is defined per sub-band as the maximum cumulative transmitter
//! on-time over any one hour period. The limiter tracks spent airtime in
//! one-minute buckets covering a sliding hour, which is O(1) memory and errs
//! on the conservative side: a bucket only stops counting once the whole
//! minute has left the window.
//!
//! The minutes run on from one another, and begin anew when a claim comes an
//! hour or more after the running one began. What counts of a minute ends with
//! the last claim made in it: no claim counts for less than an hour, and none
//! for longer than an hour after the last one of its minute.
use vstd::prelude::*;

verus! {

/// The one hour observation window in milliseconds.
pub const WINDOW_MS: u64 = 3_600_000;

/// One-minute buckets that can reach into the window: the oldest may lie in it
/// in part only.
pub const BUCKET_COUNT: usize = 61;

/// Length of one bucket in milliseconds.
pub const BUCKET_MS: u64 = 60_000;

/// What the limit of a sub-band is multiplied by: one permille of an hour in
/// milliseconds.
pub const PERMILLE_OF_HOUR_MS: u32 = 3_600;

/// Duty cycle limit in permille for the ERC 70-03 sub-band that holds a
/// frequency, or `None` where EU duty cycle rules do not apply.
pub open spec fn permille_at(freq_hz: int) -> Option<u16> {
    if 433_050_000 <= freq_hz <= 434_790_000 {
        Some(100)
    } else if 868_000_000 <= freq_hz <= 868_600_000 {
        Some(10)
    } else if 868_700_000 <= freq_hz <= 869_200_000 {
        Some(1)
    } else if 869_400_000 <= freq_hz <= 869_650_000 {
        Some(100)
    } else if 869_700_000 <= freq_hz <= 870_000_000 {
        Some(10)
    } else if 863_000_000 <= freq_hz < 870_000_000 {
        Some(1)
    } else {
        None
    }
}

/// Duty cycle limit in permille (1 = 0.1%) for the ERC 70-03 sub-band
/// containing `freq_hz`, or `None` where EU duty cycle rules do not apply
/// (e.g. the 915 MHz FCC band).
///
/// Within 863-870 MHz, frequencies outside a recognised sub-band get the most
/// restrictive limit (0.1%) rather than no limit.
pub fn eu_duty_cycle_permille(freq_hz: u32) -> (r: Option<u16>)
    ensures
        r == permille_at(freq_hz as int),
{
    if 433_050_000 <= freq_hz && freq_hz <= 434_790_000 {
        Some(100)
    } else if 868_000_000 <= freq_hz && freq_hz <= 868_600_000 {
        Some(10)
    } else if 868_700_000 <= freq_hz && freq_hz <= 869_200_000 {
        Some(1)
    } else if 869_400_000 <= freq_hz && freq_hz <= 869_650_000 {
        Some(100)
    } else if 869_700_000 <= freq_hz && freq_hz <= 870_000_000 {
        Some(10)
    } else if 863_000_000 <= freq_hz && freq_hz < 870_000_000 {
        Some(1)
    } else {
        None
    }
}

/// Which budget a frequency draws on: one for each sub-band, one for the rest
/// of 863-870 MHz, and one for everything outside the EU bands.
pub open spec fn band_of(freq_hz: int) -> u8 {
    if 433_050_000 <= freq_hz <= 434_790_000 {
        6
    } else if 868_000_000 <= freq_hz <= 868_600_000 {
        1
    } else if 868_700_000 <= freq_hz <= 869_200_000 {
        2
    } else if 869_400_000 <= freq_hz <= 869_650_000 {
        3
    } else if 869_700_000 <= freq_hz <= 870_000_000 {
        4
    } else if 863_000_000 <= freq_hz < 870_000_000 {
        5
    } else {
        0
    }
}

/// Which sub-band budget a frequency draws on.
pub fn eu_band_key(freq_hz: u32) -> (r: u8)
    ensures
        r == band_of(freq_hz as int),
{
    if 433_050_000 <= freq_hz && freq_hz <= 434_790_000 {
        6
    } else if 868_000_000 <= freq_hz && freq_hz <= 868_600_000 {
        1
    } else if 868_700_000 <= freq_hz && freq_hz <= 869_200_000 {
        2
    } else if 869_400_000 <= freq_hz && freq_hz <= 869_650_000 {
        3
    } else if 869_700_000 <= freq_hz && freq_hz <= 870_000_000 {
        4
    } else if 863_000_000 <= freq_hz && freq_hz < 870_000_000 {
        5
    } else {
        0
    }
}

/// Frequencies that draw on one budget have one limit.
pub proof fn one_limit_per_band(a: int, b: int)
    requires
        band_of(a) == band_of(b),
    ensures
        permille_at(a) == permille_at(b),
{
}

/// A transmission was refused because it would exceed the duty cycle budget.
#[derive(Debug, Clone, Copy, PartialEq, Eq, Structural)]
pub struct DutyCycleExceeded {
    /// When enough budget will have freed up, or `None` if the packet's
    /// airtime exceeds the entire hourly allowance and can never be sent.
    pub retry_after_ms: Option<u64>,
}

/// A minute in which airtime was claimed.
pub struct Minute {
    /// When the minute began.
    pub start: int,
    /// When the last claim in it was made.
    pub last: int,
    /// The airtime of all claims in it in milliseconds.
    pub airtime: int,
}

/// The budget of one sub-band as a mathematical value.
pub struct Budget {
    /// The minutes in which airtime was spent, the oldest first.
    pub minutes: Seq<Minute>,
    /// When the running minute began.
    pub head_start: int,
    /// Allowed airtime per hour, or `None` for no limit.
    pub allowance: Option<int>,
}

/// The airtime of all minutes but the `k` oldest.
pub open spec fn airtime_from(minutes: Seq<Minute>, k: int) -> int
    decreases minutes.len() - k,
{
    if k >= minutes.len() {
        0
    } else {
        minutes[k].airtime + airtime_from(minutes, k + 1)
    }
}

/// Whether a minute has left the hour before `now` as a whole.
pub open spec fn has_left(minute: Minute, now: int) -> bool {
    minute.last + WINDOW_MS <= now
}

/// The number of minutes, oldest first and counted from `k`, that have left the
/// window at `now`.
pub open spec fn leavers(minutes: Seq<Minute>, now: int, k: int) -> int
    decreases minutes.len() - k,
{
    if k >= minutes.len() || !has_left(minutes[k], now) {
        k
    } else {
        leavers(minutes, now, k + 1)
    }
}

/// The number of minutes, counted from `k`, that have to leave the window
/// (oldest first) until `airtime` fits.
pub open spec fn release(minutes: Seq<Minute>, airtime: int, allowance: int, k: int) -> int
    decreases minutes.len() - k,
{
    if k >= minutes.len() || airtime_from(minutes, k) + airtime <= allowance {
        k
    } else {
        release(minutes, airtime, allowance, k + 1)
    }
}

impl Budget {
    /// An unspent budget for the sub-band that holds `freq_hz`.
    pub open spec fn fresh(freq_hz: int) -> Budget {
        Budget {
            minutes: Seq::empty(),
            head_start: 0,
            allowance: match permille_at(freq_hz) {
                Some(permille) => Some(permille * PERMILLE_OF_HOUR_MS),
                None => None,
            },
        }
    }

    /// What holds of every budget: a bounded number of minutes that follow one
    /// another up to the running one, each with claims of its own, and never
    /// more spent than allowed.
    pub open spec fn valid(self) -> bool {
        &&& self.minutes.len() <= BUCKET_COUNT
        &&& 0 <= self.head_start
        &&& forall|i: int|
            0 <= i < self.minutes.len() ==> {
                let m = #[trigger] self.minutes[i];
                &&& 0 <= m.start <= m.last < m.start + BUCKET_MS
                &&& 0 <= m.airtime
                &&& self.head_start < m.start + WINDOW_MS + BUCKET_MS
                &&& m.start == self.head_start || m.start + BUCKET_MS <= self.head_start
            }
        &&& forall|i: int, j: int|
            0 <= i < j < self.minutes.len() ==> self.minutes[i].start + (j - i) * BUCKET_MS
                <= self.minutes[j].start
        &&& match self.allowance {
            Some(limit) => 0 <= limit && self.spent() <= limit,
            None => self.spent() == 0,
        }
    }

    /// Whether nothing was claimed after `now`.
    pub open spec fn up_to(self, now: int) -> bool {
        self.head_start <= now && forall|i: int|
            0 <= i < self.minutes.len() ==> (#[trigger] self.minutes[i]).last <= now
    }

    /// Airtime spent inside the window.
    pub open spec fn spent(self) -> int {
        airtime_from(self.minutes, 0)
    }

    /// When the minute that is running at `now` began.
    pub open spec fn running_minute(self, now: int) -> int {
        let passed = now - self.head_start;
        if passed < 0 {
            self.head_start
        } else if passed < WINDOW_MS {
            now - passed % BUCKET_MS as int
        } else {
            now
        }
    }

    /// The budget at `now`: without the minutes that have left the window.
    pub open spec fn advanced(self, now: int) -> Budget {
        Budget {
            minutes: self.minutes.skip(leavers(self.minutes, now, 0)),
            head_start: self.running_minute(now),
            ..self
        }
    }

    /// Whether a claim of `airtime` at `now` is granted.
    pub open spec fn grants(self, now: int, airtime: int) -> bool {
        match self.allowance {
            Some(limit) => airtime <= limit && self.advanced(now).spent() + airtime <= limit,
            None => true,
        }
    }

    /// What a claim answers. A packet that exceeds the allowance can never be
    /// sent; any other has to wait for the oldest minutes to leave the window.
    pub open spec fn claim_result(self, now: int, airtime: int) -> Result<(), DutyCycleExceeded> {
        if self.grants(now, airtime) {
            Ok(())
        } else if airtime > self.allowance->Some_0 {
            Err(DutyCycleExceeded { retry_after_ms: None })
        } else {
            let minutes = self.advanced(now).minutes;
            let leaving = release(minutes, airtime, self.allowance->Some_0, 1);
            let wait = minutes[leaving - 1].last + WINDOW_MS - now;
            Err(
                DutyCycleExceeded {
                    retry_after_ms: Some(
                        if wait > u64::MAX {
                            u64::MAX
                        } else {
                            wait as u64
                        },
                    ),
                },
            )
        }
    }

    /// The budget with `airtime` charged at `now` to the running minute.
    pub open spec fn charged(self, now: int, airtime: int) -> Budget {
        let n = self.minutes.len() as int;
        let newest = self.minutes[n - 1];
        Budget {
            minutes: if n > 0 && newest.start == self.head_start {
                self.minutes.update(
                    n - 1,
                    Minute {
                        start: newest.start,
                        last: if now > newest.last {
                            now
                        } else {
                            newest.last
                        },
                        airtime: newest.airtime + airtime,
                    },
                )
            } else {
                self.minutes.push(
                    Minute {
                        start: self.head_start,
                        last: if now > self.head_start {
                            now
                        } else {
                            self.head_start
                        },
                        airtime,
                    },
                )
            },
            ..self
        }
    }

    /// The budget after a claim: a granted one is charged, a refused one is not.
    pub open spec fn after_claim(self, now: int, airtime: int) -> Budget {
        match self.allowance {
            None => self,
            Some(limit) => if airtime > limit {
                self
            } else if self.grants(now, airtime) {
                self.advanced(now).charged(now, airtime)
            } else {
                self.advanced(now)
            },
        }
    }
}

/// One bucket: the claims made in one minute.
#[derive(Clone, Copy)]
struct Bucket {
    start_ms: u64,
    last_ms: u64,
    airtime_ms: u32,
}

impl View for Bucket {
    type V = Minute;

    closed spec fn view(&self) -> Minute {
        Minute {
            start: self.start_ms as int,
            last: self.last_ms as int,
            airtime: self.airtime_ms as int,
        }
    }
}

/// Sliding-window airtime budget for one sub-band.
pub struct DutyCycleLimiter {
    /// Airtime spent per minute, the oldest first, at most [`BUCKET_COUNT`].
    buckets: Vec<Bucket>,
    /// Start timestamp of the running minute.
    head_start_ms: u64,
    /// Allowed airtime per sliding hour, or `None` for no limit.
    allowance_ms: Option<u32>,
}

/// The minutes behind some buckets.
spec fn minutes_of(buckets: Seq<Bucket>) -> Seq<Minute> {
    Seq::new(buckets.len(), |i: int| buckets[i]@)
}

impl View for DutyCycleLimiter {
    type V = Budget;

    closed spec fn view(&self) -> Budget {
        Budget {
            minutes: minutes_of(self.buckets@),
            head_start: self.head_start_ms as int,
            allowance: match self.allowance_ms {
                Some(limit) => Some(limit as int),
                None => None,
            },
        }
    }
}

/// Fewer minutes hold at most as much airtime.
proof fn lemma_airtime_monotone(minutes: Seq<Minute>, i: int, j: int)
    requires
        0 <= i <= j,
        forall|k: int| 0 <= k < minutes.len() ==> (#[trigger] minutes[k]).airtime >= 0,
    ensures
        0 <= airtime_from(minutes, j) <= airtime_from(minutes, i),
    decreases minutes.len() - i,
{
    if i < minutes.len() {
        lemma_airtime_monotone(minutes, i + 1, if i < j { j } else { i + 1 });
    }
}

/// Dropping the oldest minutes leaves the sums over the others.
proof fn lemma_airtime_skip(minutes: Seq<Minute>, n: int, k: int)
    requires
        0 <= n <= minutes.len(),
        0 <= k,
    ensures
        airtime_from(minutes.skip(n), k) == airtime_from(minutes, n + k),
    decreases minutes.len() - n - k,
{
    if n + k < minutes.len() {
        lemma_airtime_skip(minutes, n, k + 1);
    }
}

/// What is charged counts in every sum.
proof fn lemma_airtime_charged(b: Budget, now: int, airtime: int, k: int)
    requires
        0 <= k < b.charged(now, airtime).minutes.len(),
    ensures
        airtime_from(b.charged(now, airtime).minutes, k) == airtime_from(b.minutes, k) + airtime,
    decreases b.minutes.len() - k,
{
    reveal_with_fuel(airtime_from, 2);
    if k + 1 < b.charged(now, airtime).minutes.len() {
        lemma_airtime_charged(b, now, airtime, k + 1);
    }
}

/// The minutes that have left are the oldest, and the next one has not left.
proof fn lemma_leavers(minutes: Seq<Minute>, now: int, k: int)
    requires
        0 <= k <= minutes.len(),
    ensures
        k <= leavers(minutes, now, k) <= minutes.len(),
        forall|i: int| k <= i < leavers(minutes, now, k) ==> has_left(#[trigger] minutes[i], now),
        leavers(minutes, now, k) < minutes.len() ==> !has_left(
            minutes[leavers(minutes, now, k)],
            now,
        ),
    decreases minutes.len() - k,
{
    if k < minutes.len() && has_left(minutes[k], now) {
        lemma_leavers(minutes, now, k + 1);
    }
}

/// Moving on keeps a budget valid and frees airtime, never adds any. What it
/// keeps has not left the window.
pub proof fn lemma_advanced(b: Budget, now: int)
    requires
        b.valid(),
    ensures
        b.advanced(now).valid(),
        b.advanced(now).spent() <= b.spent(),
        forall|i: int|
            0 <= i < b.advanced(now).minutes.len() ==> !has_left(
                #[trigger] b.advanced(now).minutes[i],
                now,
            ),
        b.up_to(now) ==> b.advanced(now).up_to(now),
{
    let a = b.advanced(now);
    let n = leavers(b.minutes, now, 0);
    lemma_leavers(b.minutes, now, 0);
    lemma_airtime_skip(b.minutes, n, 0);
    lemma_airtime_monotone(b.minutes, 0, n);
    assert forall|i: int| 0 <= i < a.minutes.len() implies {
        let m = #[trigger] a.minutes[i];
        &&& 0 <= m.start <= m.last < m.start + BUCKET_MS && 0 <= m.airtime
        &&& a.head_start < m.start + WINDOW_MS + BUCKET_MS
        &&& m.start == a.head_start || m.start + BUCKET_MS <= a.head_start
        &&& !has_left(m, now)
        &&& b.up_to(now) ==> m.last <= now
    } by {
        assert(a.minutes[i] == b.minutes[n + i]);
        if i > 0 {
            assert(b.minutes[n].start + (n + i - n) * BUCKET_MS <= b.minutes[n + i].start);
        }
    }
    assert forall|i: int, j: int| 0 <= i < j < a.minutes.len() implies a.minutes[i].start + (j - i)
        * BUCKET_MS <= a.minutes[j].start by {
        assert(a.minutes[i] == b.minutes[n + i] && a.minutes[j] == b.minutes[n + j]);
        assert((n + j) - (n + i) == j - i);
    }
}

/// A claim keeps a budget valid.
pub proof fn lemma_claim_valid(b: Budget, now: int, airtime: int)
    requires
        b.valid(),
        0 <= now,
        0 <= airtime,
    ensures
        b.after_claim(now, airtime).valid(),
        b.up_to(now) ==> b.after_claim(now, airtime).up_to(now),
{
    lemma_advanced(b, now);
    if b.allowance is Some && b.grants(now, airtime) {
        let a = b.advanced(now);
        let c = a.charged(now, airtime);
        let n = a.minutes.len() as int;
        lemma_airtime_charged(a, now, airtime, 0);
        if n > 0 && a.minutes[n - 1].start != a.head_start {
            // All of these began less than an hour and a minute before the
            // running one, and each a minute or more after the one before.
            assert(a.head_start < a.minutes[0].start + WINDOW_MS + BUCKET_MS);
            if n > 1 {
                assert(a.minutes[0].start + (n - 1 - 0) * BUCKET_MS <= a.minutes[n - 1].start);
            }
            assert(n < BUCKET_COUNT);
        }
        assert forall|i: int, j: int| 0 <= i < j < c.minutes.len() implies c.minutes[i].start + (j
            - i) * BUCKET_MS <= c.minutes[j].start by {
            assert(j < n ==> a.minutes[i].start + (j - i) * BUCKET_MS <= a.minutes[j].start);
            if j == n && i < n - 1 {
                assert(a.minutes[i].start + (n - 1 - i) * BUCKET_MS <= a.minutes[n - 1].start);
            }
        }
    }
}

/// How far the oldest minutes have to leave: as far as makes the airtime fit,
/// and no further.
proof fn lemma_release(minutes: Seq<Minute>, airtime: int, allowance: int, k: int)
    requires
        1 <= k <= minutes.len(),
        airtime <= allowance,
        airtime_from(minutes, k - 1) + airtime > allowance,
    ensures
        k <= release(minutes, airtime, allowance, k) <= minutes.len(),
        airtime_from(minutes, release(minutes, airtime, allowance, k)) + airtime <= allowance,
        airtime_from(minutes, release(minutes, airtime, allowance, k) - 1) + airtime > allowance,
    decreases minutes.len() - k,
{
    if k < minutes.len() && airtime_from(minutes, k) + airtime > allowance {
        lemma_release(minutes, airtime, allowance, k + 1);
    }
}

impl DutyCycleLimiter {
    #[verifier::type_invariant]
    spec fn well_formed(self) -> bool {
        &&& self@.valid()
        &&& match self.allowance_ms {
            Some(limit) => limit <= 360_000,
            None => true,
        }
    }

    /// Limiter for the sub-band containing `freq_hz`.
    pub fn for_frequency(freq_hz: u32) -> (r: Self)
        ensures
            r@ == Budget::fresh(freq_hz as int),
    {
        let allowance_ms: Option<u32> = match eu_duty_cycle_permille(freq_hz) {
            Some(permille) => Some(permille as u32 * PERMILLE_OF_HOUR_MS),
            None => None,
        };
        let buckets: Vec<Bucket> = Vec::new();
        assert(minutes_of(buckets@) =~= Seq::<Minute>::empty());
        DutyCycleLimiter { buckets, head_start_ms: 0, allowance_ms }
    }

    /// Airtime spent inside the current window, in ms.
    pub fn spent_ms(&self) -> (r: u32)
        ensures
            r as int == self@.spent(),
    {
        proof {
            use_type_invariant(self);
        }
        let mut sum: u32 = 0;
        let mut k: usize = self.buckets.len();
        while k > 0
            invariant
                k <= self.buckets@.len(),
                self@.valid(),
                self@.allowance is Some ==> self@.allowance->Some_0 <= 360_000,
                sum as int == airtime_from(self@.minutes, k as int),
            decreases k,
        {
            proof {
                lemma_airtime_monotone(self@.minutes, 0, k - 1);
            }
            assert(self@.minutes[k - 1] == self.buckets@[k - 1]@);
            k = k - 1;
            sum = sum + self.buckets[k].airtime_ms;
        }
        sum
    }

    /// Move on to the minute that is running at `now_ms`, and drop the minutes
    /// that have left the window.
    fn advance(&mut self, now_ms: u64)
        ensures
            final(self)@ == old(self)@.advanced(now_ms as int),
    {
        proof {
            use_type_invariant(&*self);
            lemma_advanced(self@, now_ms as int);
            lemma_leavers(self@.minutes, now_ms as int, 0);
        }
        let ghost before = self@;
        let total: usize = self.buckets.len();
        let mut gone: usize = 0;
        while gone < total && now_ms >= self.buckets[gone].last_ms && now_ms
            - self.buckets[gone].last_ms >= WINDOW_MS
            invariant
                gone <= total == self.buckets@.len(),
                before == self@,
                leavers(before.minutes, now_ms as int, 0) == leavers(
                    before.minutes,
                    now_ms as int,
                    gone as int,
                ),
            decreases total - gone,
        {
            assert(before.minutes[gone as int] == self.buckets@[gone as int]@);
            gone = gone + 1;
        }
        proof {
            if gone < total {
                assert(before.minutes[gone as int] == self.buckets@[gone as int]@);
            }
        }
        let mut kept: Vec<Bucket> = Vec::new();
        let mut i: usize = gone;
        while i < total
            invariant
                gone <= i <= total == self.buckets@.len(),
                kept@ =~= self.buckets@.subrange(gone as int, i as int),
            decreases total - i,
        {
            kept.push(self.buckets[i]);
            i = i + 1;
        }
        assert(minutes_of(kept@) =~= before.minutes.skip(gone as int));
        let head_start_ms: u64 = if now_ms < self.head_start_ms {
            self.head_start_ms
        } else {
            let passed: u64 = now_ms - self.head_start_ms;
            if passed < WINDOW_MS {
                now_ms - passed % BUCKET_MS
            } else {
                now_ms
            }
        };
        assert(head_start_ms == before.running_minute(now_ms as int));
        *self = DutyCycleLimiter {
            buckets: kept,
            head_start_ms,
            allowance_ms: self.allowance_ms,
        };
    }

    /// Charge airtime that is free at `now_ms`.
    fn charge(&mut self, now_ms: u64, airtime_ms: u32)
        requires
            old(self)@.charged(now_ms as int, airtime_ms as int).valid(),
            old(self)@.allowance is Some,
        ensures
            final(self)@ == old(self)@.charged(now_ms as int, airtime_ms as int),
    {
        proof {
            use_type_invariant(&*self);
        }
        let ghost before = self@;
        let ghost after = before.charged(now_ms as int, airtime_ms as int);
        let total: usize = self.buckets.len();
        let mut buckets: Vec<Bucket> = Vec::new();
        let mut i: usize = 0;
        while i < total
            invariant
                i <= total == self.buckets@.len(),
                buckets@ =~= self.buckets@.take(i as int),
            decreases total - i,
        {
            buckets.push(self.buckets[i]);
            i = i + 1;
        }
        assert(buckets@ =~= self.buckets@);
        assert(total > 0 ==> before.minutes[total - 1] == buckets@[total - 1]@);
        if total > 0 && buckets[total - 1].start_ms == self.head_start_ms {
            let newest: Bucket = buckets[total - 1];
            proof {
                assert(after.minutes[total - 1].airtime == newest.airtime_ms + airtime_ms);
                lemma_airtime_monotone(after.minutes, 0, total - 1);
                lemma_airtime_monotone(after.minutes, total as int, total as int);
            }
            let last_ms: u64 = if now_ms > newest.last_ms {
                now_ms
            } else {
                newest.last_ms
            };
            let bucket: Bucket = Bucket {
                start_ms: newest.start_ms,
                last_ms,
                airtime_ms: newest.airtime_ms + airtime_ms,
            };
            buckets.set(total - 1, bucket);
        } else {
            let last_ms: u64 = if now_ms > self.head_start_ms {
                now_ms
            } else {
                self.head_start_ms
            };
            buckets.push(Bucket { start_ms: self.head_start_ms, last_ms, airtime_ms });
        }
        assert(minutes_of(buckets@) =~= after.minutes);
        *self = DutyCycleLimiter {
            buckets,
            head_start_ms: self.head_start_ms,
            allowance_ms: self.allowance_ms,
        };
    }

    /// Claim `airtime_ms` of budget for a transmission starting at `now_ms`
    /// (milliseconds from any monotonic origin, e.g. boot).
    ///
    /// On success the airtime is charged against the window. On refusal
    /// nothing is charged and the error says when to retry.
    pub fn try_claim(&mut self, now_ms: u64, airtime_ms: u32) -> (r: Result<(), DutyCycleExceeded>)
        ensures
            r == old(self)@.claim_result(now_ms as int, airtime_ms as int),
            final(self)@ == old(self)@.after_claim(now_ms as int, airtime_ms as int),
    {
        let ghost before = self@;
        proof {
            use_type_invariant(&*self);
        }
        let allowance_ms: u32 = match self.allowance_ms {
            Some(allowance_ms) => allowance_ms,
            None => {
                return Ok(());
            },
        };
        if airtime_ms > allowance_ms {
            return Err(DutyCycleExceeded { retry_after_ms: None });
        }
        self.advance(now_ms);
        let ghost moved = self@;
        proof {
            use_type_invariant(&*self);
            lemma_advanced(before, now_ms as int);
            lemma_claim_valid(before, now_ms as int, airtime_ms as int);
        }
        let spent: u32 = self.spent_ms();
        if spent + airtime_ms <= allowance_ms {
            self.charge(now_ms, airtime_ms);
            return Ok(());
        }
        // Walk the buckets oldest-first to find when enough budget frees up.
        let total: usize = self.buckets.len();
        let mut left: u32 = spent;
        let mut leaving: usize = 1;
        loop
            invariant
                1 <= leaving <= total == self.buckets@.len(),
                before == old(self)@,
                self@ == moved,
                moved.valid(),
                moved == before.advanced(now_ms as int),
                forall|i: int|
                    0 <= i < moved.minutes.len() ==> !has_left(
                        #[trigger] moved.minutes[i],
                        now_ms as int,
                    ),
                before.allowance == Some(allowance_ms as int),
                !before.grants(now_ms as int, airtime_ms as int),
                airtime_ms <= allowance_ms <= 360_000,
                left as int == airtime_from(moved.minutes, leaving - 1),
                left + airtime_ms > allowance_ms,
                left <= allowance_ms,
                release(moved.minutes, airtime_ms as int, allowance_ms as int, 1) == release(
                    moved.minutes,
                    airtime_ms as int,
                    allowance_ms as int,
                    leaving as int,
                ),
            decreases total - leaving,
        {
            let bucket: Bucket = self.buckets[leaving - 1];
            proof {
                assert(moved.minutes[leaving - 1] == bucket@);
                lemma_airtime_monotone(moved.minutes, leaving - 1, leaving as int);
            }
            left = left - bucket.airtime_ms;
            if left + airtime_ms <= allowance_ms {
                assert(!has_left(moved.minutes[leaving - 1], now_ms as int));
                let wait: u64 = if now_ms >= bucket.last_ms {
                    WINDOW_MS - (now_ms - bucket.last_ms)
                } else {
                    (bucket.last_ms - now_ms).saturating_add(WINDOW_MS)
                };
                return Err(DutyCycleExceeded { retry_after_ms: Some(wait) });
            }
            assert(leaving < total);
            leaving = leaving + 1;
        }
    }
}

/// A claim that was granted.
pub struct Grant {
    /// When it was made.
    pub at: int,
    /// The airtime it was made for.
    pub airtime: int,
}

/// The airtime granted at `since` or later.
pub open spec fn granted_since(grants: Seq<Grant>, since: int) -> int
    decreases grants.len(),
{
    if grants.len() == 0 {
        0
    } else {
        granted_since(grants.drop_last(), since) + (if grants.last().at >= since {
            grants.last().airtime
        } else {
            0
        })
    }
}

/// The airtime granted at `from` or later and before `until`.
pub open spec fn granted_within(grants: Seq<Grant>, from: int, until: int) -> int
    decreases grants.len(),
{
    if grants.len() == 0 {
        0
    } else {
        granted_within(grants.drop_last(), from, until) + (if from <= grants.last().at < until {
            grants.last().airtime
        } else {
            0
        })
    }
}

/// The grants that a run of claims leads to, in order.
pub open spec fn grants_of(b: Budget, claims: Seq<(u64, u32)>) -> Seq<Grant>
    decreases claims.len(),
{
    if claims.len() == 0 {
        Seq::empty()
    } else {
        let before = grants_of(b, claims.drop_last());
        let (now, airtime) = claims.last();
        if budget_after(b, claims.drop_last()).grants(now as int, airtime as int) {
            before.push(Grant { at: now as int, airtime: airtime as int })
        } else {
            before
        }
    }
}

/// The budget that a run of claims leaves behind.
pub open spec fn budget_after(b: Budget, claims: Seq<(u64, u32)>) -> Budget
    decreases claims.len(),
{
    if claims.len() == 0 {
        b
    } else {
        let (now, airtime) = claims.last();
        budget_after(b, claims.drop_last()).after_claim(now as int, airtime as int)
    }
}

/// Timestamps that never run backwards.
pub open spec fn monotone(claims: Seq<(u64, u32)>) -> bool {
    forall|i: int, j: int| 0 <= i <= j < claims.len() ==> claims[i].0 <= claims[j].0
}

/// Nothing was granted after the last grant.
proof fn lemma_granted_none(grants: Seq<Grant>, since: int)
    requires
        forall|i: int| 0 <= i < grants.len() ==> (#[trigger] grants[i]).at < since,
    ensures
        granted_since(grants, since) == 0,
    decreases grants.len(),
{
    if grants.len() > 0 {
        lemma_granted_none(grants.drop_last(), since);
    }
}

/// An earlier start counts at least as much, and an end at most as much.
proof fn lemma_granted_within(grants: Seq<Grant>, since: int, from: int, until: int)
    requires
        since <= from,
        forall|i: int| 0 <= i < grants.len() ==> (#[trigger] grants[i]).airtime >= 0,
    ensures
        0 <= granted_within(grants, from, until) <= granted_since(grants, since),
    decreases grants.len(),
{
    if grants.len() > 0 {
        let shorter = grants.drop_last();
        assert forall|i: int| 0 <= i < shorter.len() implies (#[trigger] shorter[i]).airtime
            >= 0 by {
            assert(shorter[i] == grants[i]);
        }
        lemma_granted_within(shorter, since, from, until);
        assert(grants.last() == grants[grants.len() - 1]);
    }
}

/// The minutes of a budget account for every grant in the hour before `now`:
/// those that end at a time or later hold all that was granted since.
spec fn accounts(b: Budget, grants: Seq<Grant>, now: int) -> bool {
    &&& forall|i: int|
        0 <= i < grants.len() ==> (#[trigger] grants[i]).airtime >= 0 && grants[i].at <= now
    &&& forall|k: int, since: int|
        #![trigger granted_since(grants, since), airtime_from(b.minutes, k)]
        0 <= k <= b.minutes.len() && now - WINDOW_MS < since && (k > 0 ==> b.minutes[k - 1].last
            < since) ==> granted_since(grants, since) <= airtime_from(b.minutes, k)
}

proof fn lemma_accounts_advanced(b: Budget, grants: Seq<Grant>, earlier: int, now: int)
    requires
        b.valid(),
        accounts(b, grants, earlier),
        earlier <= now,
    ensures
        accounts(b.advanced(now), grants, now),
{
    let a = b.advanced(now);
    let n = leavers(b.minutes, now, 0);
    lemma_leavers(b.minutes, now, 0);
    assert forall|k: int, since: int|
        #![trigger granted_since(grants, since), airtime_from(a.minutes, k)]
        0 <= k <= a.minutes.len() && now - WINDOW_MS < since && (k > 0 ==> a.minutes[k - 1].last
            < since) implies granted_since(grants, since) <= airtime_from(a.minutes, k) by {
        lemma_airtime_skip(b.minutes, n, k);
        if n + k > 0 {
            if k > 0 {
                assert(a.minutes[k - 1] == b.minutes[n + k - 1]);
            } else {
                assert(has_left(b.minutes[n - 1], now));
            }
        }
        assert(granted_since(grants, since) <= airtime_from(b.minutes, n + k));
    }
}

proof fn lemma_accounts_claim(
    b: Budget,
    grants: Seq<Grant>,
    earlier: int,
    now: int,
    airtime: int,
)
    requires
        b.valid(),
        b.up_to(now),
        b.allowance is Some,
        accounts(b, grants, earlier),
        0 <= earlier <= now,
        0 <= airtime,
    ensures
        b.grants(now, airtime) ==> accounts(
            b.after_claim(now, airtime),
            grants.push(Grant { at: now, airtime }),
            now,
        ),
        !b.grants(now, airtime) ==> accounts(b.after_claim(now, airtime), grants, now),
{
    lemma_accounts_advanced(b, grants, earlier, now);
    lemma_advanced(b, now);
    if b.grants(now, airtime) {
        let a = b.advanced(now);
        let c = a.charged(now, airtime);
        let longer = grants.push(Grant { at: now, airtime });
        assert(longer.drop_last() =~= grants);
        assert forall|k: int, since: int|
            #![trigger granted_since(longer, since), airtime_from(c.minutes, k)]
            0 <= k <= c.minutes.len() && now - WINDOW_MS < since && (k > 0 ==> c.minutes[k - 1].last
                < since) implies granted_since(longer, since) <= airtime_from(c.minutes, k) by {
            if k < c.minutes.len() {
                lemma_airtime_charged(a, now, airtime, k);
                assert(k > 0 ==> c.minutes[k - 1] == a.minutes[k - 1]);
                assert(granted_since(grants, since) <= airtime_from(a.minutes, k));
            } else {
                assert(now < since);
                lemma_granted_none(longer, since);
            }
        }
    }
}

proof fn lemma_run(b: Budget, claims: Seq<(u64, u32)>)
    requires
        b.valid(),
        b.allowance is Some,
        b.minutes.len() == 0,
        b.head_start == 0,
        monotone(claims),
    ensures
        budget_after(b, claims).valid(),
        budget_after(b, claims).allowance == b.allowance,
        ({
            let now = if claims.len() > 0 {
                claims.last().0 as int
            } else {
                0
            };
            &&& budget_after(b, claims).up_to(now)
            &&& accounts(budget_after(b, claims), grants_of(b, claims), now)
        }),
    decreases claims.len(),
{
    if claims.len() > 0 {
        let shorter = claims.drop_last();
        lemma_run(b, shorter);
        let (now, airtime) = claims.last();
        let mid = budget_after(b, shorter);
        let earlier = if shorter.len() > 0 {
            shorter.last().0 as int
        } else {
            0
        };
        assert(shorter.len() > 0 ==> shorter.last() == claims[claims.len() - 2]);
        assert(mid.up_to(now as int));
        lemma_accounts_claim(mid, grants_of(b, shorter), earlier, now as int, airtime as int);
        lemma_claim_valid(mid, now as int, airtime as int);
    }
}

/// The duty cycle law: of any run of claims with timestamps that never run
/// backwards, the airtime granted within the hour before the last claim never
/// exceeds the allowance of the sub-band.
pub proof fn granted_airtime_stays_within_allowance(freq_hz: u32, claims: Seq<(u64, u32)>)
    requires
        permille_at(freq_hz as int) is Some,
        monotone(claims),
        claims.len() > 0,
    ensures
        ({
            let grants = grants_of(Budget::fresh(freq_hz as int), claims);
            let now = claims.last().0 as int;
            let allowance = permille_at(freq_hz as int)->Some_0 * PERMILLE_OF_HOUR_MS;
            granted_since(grants, now - 3_600_000 + 1) <= allowance
        }),
{
    let b = Budget::fresh(freq_hz as int);
    lemma_run(b, claims);
    let after = budget_after(b, claims);
    let grants = grants_of(b, claims);
    let now = claims.last().0 as int;
    assert(granted_since(grants, now - 3_600_000 + 1) <= airtime_from(after.minutes, 0));
}

/// The same of any one hour: wherever it begins, the airtime granted in it
/// never exceeds the allowance of the sub-band.
pub proof fn any_hour_stays_within_allowance(freq_hz: u32, claims: Seq<(u64, u32)>, from: int)
    requires
        permille_at(freq_hz as int) is Some,
        monotone(claims),
    ensures
        granted_within(grants_of(Budget::fresh(freq_hz as int), claims), from, from + 3_600_000)
            <= permille_at(freq_hz as int)->Some_0 * PERMILLE_OF_HOUR_MS,
    decreases claims.len(),
{
    if claims.len() > 0 {
        let b = Budget::fresh(freq_hz as int);
        let grants = grants_of(b, claims);
        let (now, airtime) = claims.last();
        if now < from + 3_600_000 {
            lemma_run(b, claims);
            granted_airtime_stays_within_allowance(freq_hz, claims);
            lemma_granted_within(grants, now - 3_600_000 + 1, from, from + 3_600_000);
        } else {
            any_hour_stays_within_allowance(freq_hz, claims.drop_last(), from);
            let before = grants_of(b, claims.drop_last());
            assert(before.push(Grant { at: now as int, airtime: airtime as int }).drop_last()
                =~= before);
        }
    }
}

/// A fresh budget has nothing spent, and its first claim is granted exactly
/// where the frequency is not limited or the packet fits the hourly allowance.
pub proof fn fresh_budget_grants_its_allowance(freq_hz: u32, now: int, airtime: int)
    ensures
        Budget::fresh(freq_hz as int).valid(),
        Budget::fresh(freq_hz as int).spent() == 0,
        Budget::fresh(freq_hz as int).claim_result(now, airtime) is Ok <==> match permille_at(
            freq_hz as int,
        ) {
            Some(permille) => airtime <= permille * 3_600,
            None => true,
        },
{
    lemma_advanced(Budget::fresh(freq_hz as int), now);
}

/// A refused claim charges nothing: what was spent can only have expired.
pub proof fn refused_claim_charges_nothing(b: Budget, now: int, airtime: int)
    requires
        b.valid(),
        b.claim_result(now, airtime) is Err,
    ensures
        b.after_claim(now, airtime).spent() <= b.spent(),
        b.after_claim(now, airtime) == b || b.after_claim(now, airtime) == b.advanced(now),
{
    lemma_advanced(b, now);
}

/// The retry hint is the earliest moment that works: a refused claim has one
/// exactly if the packet fits the hourly allowance. It lies ahead and within
/// the hour, the packet is granted when it has come if nothing else was
/// claimed, and refused at any time before.
pub proof fn retry_hint_is_the_earliest(b: Budget, now: int, airtime: int)
    requires
        b.valid(),
        b.up_to(now),
        b.claim_result(now, airtime) is Err,
    ensures
        match b.claim_result(now, airtime)->Err_0.retry_after_ms {
            Some(wait) => {
                &&& airtime <= b.allowance->Some_0
                &&& 0 < wait <= 3_600_000
                &&& b.after_claim(now, airtime).claim_result(now + wait, airtime) is Ok
                &&& forall|t: int|
                    now <= t < now + wait ==> (#[trigger] b.after_claim(now, airtime).claim_result(
                        t,
                        airtime,
                    )) is Err
            },
            None => airtime > b.allowance->Some_0,
        },
{
    let limit = b.allowance->Some_0;
    if airtime <= limit {
        let moved = b.advanced(now);
        let minutes = moved.minutes;
        lemma_advanced(b, now);
        lemma_release(minutes, airtime, limit, 1);
        let k = release(minutes, airtime, limit, 1);
        assert(!has_left(minutes[k - 1], now));
        assert(minutes[k - 1].last <= now);
        let ready = minutes[k - 1].last + WINDOW_MS;
        assert forall|t: int| t < ready implies !moved.grants(t, airtime) by {
            let n = leavers(minutes, t, 0);
            lemma_leavers(minutes, t, 0);
            assert(n >= k ==> has_left(minutes[k - 1], t));
            lemma_airtime_monotone(minutes, n, k - 1);
            lemma_airtime_skip(minutes, n, 0);
        }
        let n = leavers(minutes, ready, 0);
        lemma_leavers(minutes, ready, 0);
        if n < k - 1 {
            assert(minutes[n].start + (k - 1 - n) * BUCKET_MS <= minutes[k - 1].start);
        }
        lemma_airtime_monotone(minutes, k, n);
        lemma_airtime_skip(minutes, n, 0);
    }
}

/// A frequency outside the EU bands is never limited.
pub proof fn unlimited_outside_eu_bands(
    freq_hz: u32,
    claims: Seq<(u64, u32)>,
    now: u64,
    airtime: u32,
)
    requires
        permille_at(freq_hz as int) is None,
    ensures
        budget_after(Budget::fresh(freq_hz as int), claims).claim_result(
            now as int,
            airtime as int,
        ) is Ok,
{
    lemma_unlimited_stays(freq_hz, claims);
}

/// A packet whose airtime exceeds the hourly allowance is refused at any time,
/// without a retry hint, and its claim leaves the budget as it was.
pub proof fn oversized_packet_is_never_sendable(b: Budget, now: int, airtime: int)
    requires
        b.allowance is Some,
        airtime > b.allowance->Some_0,
    ensures
        b.claim_result(now, airtime) == Err::<(), DutyCycleExceeded>(
            DutyCycleExceeded { retry_after_ms: None },
        ),
        b.after_claim(now, airtime) == b,
{
}

proof fn lemma_unlimited_stays(freq_hz: u32, claims: Seq<(u64, u32)>)
    requires
        permille_at(freq_hz as int) is None,
    ensures
        budget_after(Budget::fresh(freq_hz as int), claims).allowance is None,
    decreases claims.len(),
{
    if claims.len() > 0 {
        lemma_unlimited_stays(freq_hz, claims.drop_last());
    }
}


/// Spent airtime is airtime that was granted: that of a minute was granted since
/// it began.
spec fn backed(b: Budget, grants: Seq<Grant>) -> bool {
    forall|k: int|
        0 <= k < b.minutes.len() ==> #[trigger] airtime_from(b.minutes, k) <= granted_since(
            grants,
            b.minutes[k].start,
        )
}

proof fn lemma_backed_advanced(b: Budget, grants: Seq<Grant>, now: int)
    requires
        b.valid(),
        backed(b, grants),
    ensures
        backed(b.advanced(now), grants),
{
    let a = b.advanced(now);
    let n = leavers(b.minutes, now, 0);
    lemma_leavers(b.minutes, now, 0);
    assert forall|k: int| 0 <= k < a.minutes.len() implies #[trigger] airtime_from(a.minutes, k)
        <= granted_since(grants, a.minutes[k].start) by {
        lemma_airtime_skip(b.minutes, n, k);
        assert(a.minutes[k] == b.minutes[n + k]);
        assert(airtime_from(b.minutes, n + k) <= granted_since(grants, b.minutes[n + k].start));
    }
}

proof fn lemma_granted_nonnegative(grants: Seq<Grant>, since: int)
    requires
        forall|i: int| 0 <= i < grants.len() ==> (#[trigger] grants[i]).airtime >= 0,
    ensures
        granted_since(grants, since) >= 0,
    decreases grants.len(),
{
    if grants.len() > 0 {
        let shorter = grants.drop_last();
        assert forall|i: int| 0 <= i < shorter.len() implies (#[trigger] shorter[i]).airtime
            >= 0 by {
            assert(shorter[i] == grants[i]);
        }
        lemma_granted_nonnegative(shorter, since);
        assert(grants.last() == grants[grants.len() - 1]);
    }
}

proof fn lemma_backed_claim(b: Budget, grants: Seq<Grant>, now: int, airtime: int)
    requires
        b.valid(),
        b.up_to(now),
        b.allowance is Some,
        backed(b, grants),
        0 <= airtime,
        forall|i: int| 0 <= i < grants.len() ==> (#[trigger] grants[i]).airtime >= 0,
    ensures
        b.grants(now, airtime) ==> backed(
            b.after_claim(now, airtime),
            grants.push(Grant { at: now, airtime }),
        ),
        !b.grants(now, airtime) ==> backed(b.after_claim(now, airtime), grants),
{
    lemma_backed_advanced(b, grants, now);
    lemma_advanced(b, now);
    if b.grants(now, airtime) {
        let a = b.advanced(now);
        let c = a.charged(now, airtime);
        let longer = grants.push(Grant { at: now, airtime });
        assert(longer.drop_last() =~= grants);
        assert forall|k: int| 0 <= k < c.minutes.len() implies #[trigger] airtime_from(
            c.minutes,
            k,
        ) <= granted_since(longer, c.minutes[k].start) by {
            lemma_airtime_charged(a, now, airtime, k);
            if k < a.minutes.len() {
                assert(c.minutes[k].start == a.minutes[k].start);
                assert(a.minutes[k].start <= now);
                assert(airtime_from(a.minutes, k) <= granted_since(grants, a.minutes[k].start));
            } else {
                assert(airtime_from(a.minutes, k) == 0);
                lemma_granted_nonnegative(grants, c.minutes[k].start);
            }
        }
    }
}

proof fn lemma_run_backed(b: Budget, claims: Seq<(u64, u32)>)
    requires
        b.valid(),
        b.allowance is Some,
        b.minutes.len() == 0,
        b.head_start == 0,
        monotone(claims),
    ensures
        backed(budget_after(b, claims), grants_of(b, claims)),
    decreases claims.len(),
{
    if claims.len() > 0 {
        let shorter = claims.drop_last();
        lemma_run_backed(b, shorter);
        lemma_run(b, shorter);
        let (now, airtime) = claims.last();
        assert(shorter.len() > 0 ==> shorter.last() == claims[claims.len() - 2]);
        lemma_backed_claim(
            budget_after(b, shorter),
            grants_of(b, shorter),
            now as int,
            airtime as int,
        );
    }
}

/// A later start counts at most as much.
proof fn lemma_granted_later(grants: Seq<Grant>, since: int, later: int)
    requires
        since <= later,
        forall|i: int| 0 <= i < grants.len() ==> (#[trigger] grants[i]).airtime >= 0,
    ensures
        granted_since(grants, later) <= granted_since(grants, since),
    decreases grants.len(),
{
    if grants.len() > 0 {
        let shorter = grants.drop_last();
        assert forall|i: int| 0 <= i < shorter.len() implies (#[trigger] shorter[i]).airtime
            >= 0 by {
            assert(shorter[i] == grants[i]);
        }
        lemma_granted_later(shorter, since, later);
        assert(grants.last() == grants[grants.len() - 1]);
    }
}

/// Airtime binds for no longer than the hour and the granularity of a minute:
/// after any run of claims, a packet is granted if it fits the allowance
/// together with what was granted in the last 61 minutes.
pub proof fn old_airtime_does_not_bind(
    freq_hz: u32,
    claims: Seq<(u64, u32)>,
    now: u64,
    airtime: u32,
)
    requires
        permille_at(freq_hz as int) is Some,
        monotone(claims),
        claims.len() > 0 ==> claims.last().0 <= now,
        granted_since(grants_of(Budget::fresh(freq_hz as int), claims), now - 3_660_000) + airtime
            <= permille_at(freq_hz as int)->Some_0 * 3_600,
    ensures
        budget_after(Budget::fresh(freq_hz as int), claims).claim_result(
            now as int,
            airtime as int,
        ) is Ok,
{
    let fresh = Budget::fresh(freq_hz as int);
    let b = budget_after(fresh, claims);
    let grants = grants_of(fresh, claims);
    lemma_run(fresh, claims);
    lemma_run_backed(fresh, claims);
    lemma_backed_advanced(b, grants, now as int);
    lemma_advanced(b, now as int);
    let a = b.advanced(now as int);
    lemma_granted_nonnegative(grants, now - 3_660_000);
    if a.minutes.len() > 0 {
        assert(!has_left(a.minutes[0], now as int));
        lemma_granted_later(grants, now - 3_660_000, a.minutes[0].start);
        assert(airtime_from(a.minutes, 0) <= granted_since(grants, a.minutes[0].start));
    }
}

/// The ERC 70-03 sub-bands, with both ends of each, and their limits: 10% in
/// 433.05-434.79 and 869.4-869.65 MHz, 1% in 868.0-868.6 and 869.7-870.0 MHz,
/// 0.1% everywhere else from 863 MHz to 870 MHz, and none outside.
pub proof fn sub_bands_have_their_limits(freq_hz: int)
    ensures
        433_050_000 <= freq_hz <= 434_790_000 ==> permille_at(freq_hz) == Some(100u16),
        863_000_000 <= freq_hz < 868_000_000 ==> permille_at(freq_hz) == Some(1u16),
        868_000_000 <= freq_hz <= 868_600_000 ==> permille_at(freq_hz) == Some(10u16),
        868_600_000 < freq_hz < 869_400_000 ==> permille_at(freq_hz) == Some(1u16),
        869_400_000 <= freq_hz <= 869_650_000 ==> permille_at(freq_hz) == Some(100u16),
        869_650_000 < freq_hz < 869_700_000 ==> permille_at(freq_hz) == Some(1u16),
        869_700_000 <= freq_hz <= 870_000_000 ==> permille_at(freq_hz) == Some(10u16),
        freq_hz < 433_050_000 ==> permille_at(freq_hz) is None,
        434_790_000 < freq_hz < 863_000_000 ==> permille_at(freq_hz) is None,
        870_000_000 < freq_hz ==> permille_at(freq_hz) is None,
{
}

/// What a fresh limiter allows per hour, and no more: six minutes where the
/// limit is 10%, 36 s where it is 1%, and 3.6 s where it is 0.1%.
pub proof fn hourly_allowances(freq_hz: int, now: int, airtime: int)
    ensures
        433_050_000 <= freq_hz <= 434_790_000 || 869_400_000 <= freq_hz <= 869_650_000 ==> (
        Budget::fresh(freq_hz).claim_result(now, airtime) is Ok <==> airtime <= 360_000),
        868_000_000 <= freq_hz <= 868_600_000 || 869_700_000 <= freq_hz <= 870_000_000 ==> (
        Budget::fresh(freq_hz).claim_result(now, airtime) is Ok <==> airtime <= 36_000),
        863_000_000 <= freq_hz < 868_000_000 || 868_600_000 < freq_hz < 869_400_000 || 869_650_000
            < freq_hz < 869_700_000 ==> (Budget::fresh(freq_hz).claim_result(now, airtime) is Ok
            <==> airtime <= 3_600),
        freq_hz < 433_050_000 || 434_790_000 < freq_hz < 863_000_000 || 870_000_000 < freq_hz
            ==> Budget::fresh(freq_hz).claim_result(now, airtime) is Ok,
{
    lemma_advanced(Budget::fresh(freq_hz), now);
}

/// Two frequencies draw on one budget exactly if they lie in the same sub-band,
/// or both in the rest of 863-870 MHz, or both outside the EU bands.
pub proof fn budgets_follow_the_sub_bands(a: int, b: int)
    ensures
        band_of(a) == band_of(b) <==> {
            ||| 433_050_000 <= a <= 434_790_000 && 433_050_000 <= b <= 434_790_000
            ||| 868_000_000 <= a <= 868_600_000 && 868_000_000 <= b <= 868_600_000
            ||| 868_700_000 <= a <= 869_200_000 && 868_700_000 <= b <= 869_200_000
            ||| 869_400_000 <= a <= 869_650_000 && 869_400_000 <= b <= 869_650_000
            ||| 869_700_000 <= a <= 870_000_000 && 869_700_000 <= b <= 870_000_000
            ||| between_sub_bands(a) && between_sub_bands(b)
            ||| outside_eu_bands(a) && outside_eu_bands(b)
        },
{
}

/// Whether a frequency lies in 863-870 MHz, but in none of its sub-bands.
pub open spec fn between_sub_bands(f: int) -> bool {
    863_000_000 <= f < 868_000_000 || 868_600_000 < f < 868_700_000 || 869_200_000 < f
        < 869_400_000 || 869_650_000 < f < 869_700_000
}

/// Whether a frequency lies outside the EU bands.
pub open spec fn outside_eu_bands(f: int) -> bool {
    f < 433_050_000 || 434_790_000 < f < 863_000_000 || 870_000_000 < f
}

/// A frequency has the limit of its sub-band, in permille of the hour, and no limit
/// outside the EU bands; a limiter for it starts with nothing spent and that much of an
/// hour to spend.
pub proof fn limiters_hold_the_limit(freq_hz: u32, r: Option<u16>, limiter: DutyCycleLimiter)
    requires
        call_ensures(eu_duty_cycle_permille, (freq_hz,), r),
        call_ensures(DutyCycleLimiter::for_frequency, (freq_hz,), limiter),
    ensures
        433_050_000 <= freq_hz <= 434_790_000 || 869_400_000 <= freq_hz <= 869_650_000 ==> r
            == Some(100u16) && limiter@.allowance == Some(360_000int),
        868_000_000 <= freq_hz <= 868_600_000 || 869_700_000 <= freq_hz <= 870_000_000 ==> r
            == Some(10u16) && limiter@.allowance == Some(36_000int),
        863_000_000 <= freq_hz < 868_000_000 || 868_600_000 < freq_hz < 869_400_000 || 869_650_000
            < freq_hz < 869_700_000 ==> r == Some(1u16) && limiter@.allowance == Some(3_600int),
        outside_eu_bands(freq_hz as int) ==> r is None && limiter@.allowance is None,
        limiter@.spent() == 0,
{
}

} // verus!
