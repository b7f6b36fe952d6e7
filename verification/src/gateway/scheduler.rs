//! Downlink timing decisions over the wrapping 32-bit microsecond counter.
//!
//! `tmst` wraps every 2^32 us (~71.6 minutes); all arithmetic is wrapping,
//! giving a +/-35.8 minute comparison horizon - far beyond the 30 second
//! acceptance window.
use vstd::prelude::*;

verus! {

/// Time needed ahead of the target to reconfigure the radio and stage the
/// payload (~3 ms of SPI at 1 MHz plus executor jitter headroom).
pub const SETUP_LEAD_US: u32 = 20_000;

/// Compensation for the SetTx command, standby-to-TX transition and PA ramp;
/// the radio is told to fire this early so RF starts on the target.
pub const TX_START_COMP_US: u32 = 450;

/// Downlinks further out than this are refused as TOO_EARLY.
pub const MAX_AHEAD_US: i32 = 30_000_000;

/// The range of the counter.
pub open spec fn wrap() -> int {
    0x1_0000_0000
}

/// Microseconds from `now` to `target` by the shorter way round the counter,
/// negative when the target lies in the past.
pub open spec fn delta(now: int, target: int) -> int {
    let ahead = (target - now) % wrap();
    if ahead < 0x8000_0000 {
        ahead
    } else {
        ahead - wrap()
    }
}

/// Signed microseconds from `now` to `target` in wrapping u32 space.
pub fn tmst_delta_us(now: u32, target: u32) -> (r: i32)
    ensures
        r as int == delta(now as int, target as int),
{
    let ahead: u32 = target.wrapping_sub(now);
    assert(ahead as int == (target - now) % wrap());
    if ahead < 0x8000_0000 {
        ahead as i32
    } else {
        (ahead as i64 - 0x1_0000_0000) as i32
    }
}

/// How to schedule a downlink.
#[derive(Debug, Clone, Copy, PartialEq, Eq, Structural)]
pub enum Classify {
    /// Transmit now (Class C immediate).
    Immediate,
    /// Sleep until roughly `delta_us - SETUP_LEAD_US` from now, then stage
    /// and fire on the target.
    At {
        /// Microseconds to the target.
        delta_us: u32,
    },
    /// The target is past or too close to be reached.
    TooLate,
    /// The target is too far out.
    TooEarly,
}

/// How to schedule a downlink: immediately where that is asked for, else at
/// its target when that lies between the setup lead and the acceptance window
/// ahead. Without a target there is nothing to schedule.
pub open spec fn classified(now: int, immediate: bool, target_tmst: Option<u32>) -> Classify {
    if immediate {
        Classify::Immediate
    } else {
        match target_tmst {
            None => Classify::TooLate,
            Some(target) => {
                let d = delta(now, target as int);
                if d < SETUP_LEAD_US {
                    Classify::TooLate
                } else if d > MAX_AHEAD_US {
                    Classify::TooEarly
                } else {
                    Classify::At { delta_us: d as u32 }
                }
            },
        }
    }
}

/// Decide how to schedule a downlink given the current counter value.
pub fn classify(now: u32, immediate: bool, target_tmst: Option<u32>) -> (r: Classify)
    ensures
        r == classified(now as int, immediate, target_tmst),
{
    if immediate {
        return Classify::Immediate;
    }
    let target: u32 = match target_tmst {
        Some(target) => target,
        // Neither immediate nor a target time: nothing to schedule.
        None => {
            return Classify::TooLate;
        },
    };
    let delta: i32 = tmst_delta_us(now, target);
    if delta < SETUP_LEAD_US as i32 {
        return Classify::TooLate;
    }
    if delta > MAX_AHEAD_US {
        return Classify::TooEarly;
    }
    Classify::At { delta_us: delta as u32 }
}

/// Scheduling does not depend on where the counter stands, also across its
/// wrap: moving both times by the same amount changes nothing.
pub proof fn delta_ignores_the_wrap(now: int, ahead: int)
    requires
        0 <= now < wrap(),
        -0x8000_0000 <= ahead < 0x8000_0000,
    ensures
        delta(now, (now + ahead) % wrap()) == ahead,
{
}

/// A downlink that is scheduled lies within the acceptance window ahead.
pub proof fn scheduled_downlinks_are_reachable(now: int, immediate: bool, target: Option<u32>)
    ensures
        classified(now, immediate, target) matches Classify::At { delta_us } ==> SETUP_LEAD_US
            <= delta_us <= MAX_AHEAD_US && target is Some,
{
}

/// When a downlink goes out: at once if that is asked for, whatever its target;
/// else on its target, if that lies from 20 ms to 30 s ahead on the wrapping
/// 32-bit counter; else it is too late or too early.
pub proof fn downlink_windows(now: u32, ahead: int, target: u32)
    requires
        -0x8000_0000 <= ahead < 0x8000_0000,
        target == (now + ahead) % 4_294_967_296,
    ensures
        delta(now as int, target as int) == ahead,
        classified(now as int, true, Some(target)) is Immediate,
        classified(now as int, true, None) is Immediate,
        classified(now as int, false, None) is TooLate,
        ahead < 20_000 <==> classified(now as int, false, Some(target)) is TooLate,
        20_000 <= ahead <= 30_000_000 <==> classified(now as int, false, Some(target)) is At,
        30_000_000 < ahead <==> classified(now as int, false, Some(target)) is TooEarly,
        classified(now as int, false, Some(target)) matches Classify::At { delta_us } ==> delta_us
            == ahead,
{
}

/// Whatever the counters, a downlink is sent at once if it says so, and otherwise only
/// with a target that lies 20 ms to 30 s ahead on the wrapping counter.
pub proof fn downlinks_are_classified(
    now: u32,
    ahead: i32,
    target: u32,
    d: i32,
    at_once: Classify,
    timed: Classify,
    untimed: Classify,
)
    requires
        target == (now + ahead) % 4_294_967_296,
        call_ensures(tmst_delta_us, (now, target), d),
        call_ensures(classify, (now, true, Some(target)), at_once),
        call_ensures(classify, (now, false, Some(target)), timed),
        call_ensures(classify, (now, false, None::<u32>), untimed),
    ensures
        d == ahead,
        at_once is Immediate,
        untimed is TooLate,
        ahead < 20_000 <==> timed is TooLate,
        20_000 <= ahead <= 30_000_000 <==> timed is At,
        30_000_000 < ahead <==> timed is TooEarly,
        timed matches Classify::At { delta_us } ==> delta_us == ahead,
{
    downlink_windows(now, ahead as int, target);
}

} // verus!
