//! Exponential reconnect backoff, in whole seconds so it stays clock-free.
use vstd::prelude::*;

verus! {

/// The first delay.
pub const INITIAL_SECS: u32 = 1;

/// The longest delay.
pub const MAX_SECS: u32 = 60;

/// Delays that double from one failure to the next.
pub struct Backoff {
    next_secs: u32,
}

/// The delay after this one: twice as long, up to the cap.
pub open spec fn doubled(secs: int) -> int {
    if secs * 2 > MAX_SECS {
        MAX_SECS as int
    } else {
        secs * 2
    }
}

impl View for Backoff {
    type V = int;

    closed spec fn view(&self) -> int {
        self.next_secs as int
    }
}

impl Default for Backoff {
    fn default() -> (r: Self)
        ensures
            r@ == INITIAL_SECS,
    {
        Self::new()
    }
}

impl Backoff {
    #[verifier::type_invariant]
    spec fn within_cap(self) -> bool {
        INITIAL_SECS <= self.next_secs <= MAX_SECS
    }

    /// Starts with the first delay.
    pub fn new() -> (r: Self)
        ensures
            r@ == INITIAL_SECS,
    {
        Backoff { next_secs: INITIAL_SECS }
    }

    /// The delay to wait now; each call doubles the next one up to the cap.
    pub fn next_secs(&mut self) -> (r: u32)
        ensures
            r as int == old(self)@,
            INITIAL_SECS <= r <= MAX_SECS,
            final(self)@ == doubled(old(self)@),
    {
        proof {
            use_type_invariant(&*self);
        }
        let current: u32 = self.next_secs;
        let twice: u32 = current * 2;
        *self = Backoff {
            next_secs: if twice > MAX_SECS {
                MAX_SECS
            } else {
                twice
            },
        };
        current
    }

    /// Call after a successful connection so the next failure starts small.
    pub fn reset(&mut self)
        ensures
            final(self)@ == INITIAL_SECS,
    {
        *self = Backoff { next_secs: INITIAL_SECS };
    }
}

/// The delay of the `n`-th attempt after a reset, counted from 0.
pub open spec fn delay(n: nat) -> int
    decreases n,
{
    if n == 0 {
        INITIAL_SECS as int
    } else {
        doubled(delay((n - 1) as nat))
    }
}

/// Delays never shrink and never exceed the cap, which is reached with the
/// seventh and kept from then on.
pub proof fn delays_grow_to_the_cap(n: nat)
    ensures
        INITIAL_SECS <= delay(n) <= delay(n + 1) <= MAX_SECS,
        n >= 6 ==> delay(n) == MAX_SECS,
    decreases n,
{
    if n > 0 {
        delays_grow_to_the_cap((n - 1) as nat);
    }
    if n == 6 {
        reveal_with_fuel(delay, 8);
    }
}

/// The delays in seconds are the powers of two, up to a minute.
pub proof fn delays_are_powers_of_two(n: nat)
    ensures
        delay(n) == (if vstd::arithmetic::power2::pow2(n) < 60 {
            vstd::arithmetic::power2::pow2(n) as int
        } else {
            60
        }),
    decreases n,
{
    vstd::arithmetic::power2::lemma2_to64();
    if n > 0 {
        delays_are_powers_of_two((n - 1) as nat);
        vstd::arithmetic::power2::lemma_pow2_unfold(n);
    }
}

/// The first delay is a second; each delay that is given out doubles the next one, up to
/// a minute, and a reset takes it back to a second.
pub proof fn delays_double(fresh: Backoff, backoff: &mut Backoff, r: u32, again: &mut Backoff)
    requires
        call_ensures(Backoff::new, (), fresh),
        call_ensures(Backoff::next_secs, (backoff,), r),
        call_ensures(Backoff::reset, (again,), ()),
    ensures
        fresh@ == 1,
        r == old(backoff)@,
        1 <= r <= 60,
        r <= 30 ==> final(backoff)@ == 2 * r,
        r > 30 ==> final(backoff)@ == 60,
        final(again)@ == 1,
{
}

} // verus!
