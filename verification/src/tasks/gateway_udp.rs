//! Gateway UDP task decisions: when to send keepalives and reports, and how a
//! queued downlink is acknowledged.
use crate::gateway::forwarder::{ForwarderSpec, GatewayForwarder};
use crate::gateway::udp_protocol;
use crate::gateway::udp_protocol::{StatCounters, TxAckError};
use crate::hub_config::HubConfig;
use crate::hub_protocol::types::StatusSpec;
use crate::net::stats;
use crate::net::stats::HubStats;
use vstd::prelude::*;

verus! {

/// Seconds between PULL_DATA keepalives, which hold the NAT pinhole open for
/// downlinks.
pub const PULL_DATA_INTERVAL_SECS: u32 = 10;

/// Seconds between stat reports.
pub const STAT_INTERVAL_SECS: u32 = 30;

/// Local UDP port; also the conventional Semtech forwarder port.
pub const LOCAL_PORT: u16 = 1700;

/// Bytes of a datagram that are looked at.
pub const DATAGRAM_MAX: usize = 1024;

/// Whether there is a network server to forward to.
pub fn server_configured(config: &HubConfig) -> (r: bool)
    ensures
        r == (config@.gateway.host.len() > 0),
{
    !config.gateway.host.is_empty()
}

/// The one-second tick that drives keepalives and reports.
pub struct ForwarderTimer {
    pull_elapsed: u32,
    stat_elapsed: u32,
}

/// Seconds since the last keepalive and the last report.
pub struct TimerSpec {
    /// Seconds since the last keepalive.
    pub pull: int,
    /// Seconds since the last report.
    pub stat: int,
}

impl View for ForwarderTimer {
    type V = TimerSpec;

    closed spec fn view(&self) -> TimerSpec {
        TimerSpec { pull: self.pull_elapsed as int, stat: self.stat_elapsed as int }
    }
}

/// What is due at a tick.
#[derive(Debug, Clone, Copy, PartialEq, Eq, Structural)]
pub struct Due {
    /// Send the PULL_DATA keepalive.
    pub keepalive: bool,
    /// Send the stat report.
    pub stat: bool,
}

impl TimerSpec {
    /// A timer whose first tick sends a keepalive.
    pub open spec fn fresh() -> TimerSpec {
        TimerSpec { pull: PULL_DATA_INTERVAL_SECS as int, stat: 0 }
    }

    /// What is due at the next tick.
    pub open spec fn due(self) -> Due {
        Due {
            keepalive: self.pull + 1 >= PULL_DATA_INTERVAL_SECS,
            stat: self.stat + 1 >= STAT_INTERVAL_SECS,
        }
    }

    /// The timer after the next tick.
    pub open spec fn ticked(self) -> TimerSpec {
        TimerSpec {
            pull: if self.due().keepalive {
                0
            } else {
                self.pull + 1
            },
            stat: if self.due().stat {
                0
            } else {
                self.stat + 1
            },
        }
    }
}

impl Default for ForwarderTimer {
    fn default() -> (r: Self)
        ensures
            r@ == TimerSpec::fresh(),
    {
        Self::new()
    }
}

impl ForwarderTimer {
    #[verifier::type_invariant]
    spec fn within_intervals(self) -> bool {
        self.pull_elapsed <= PULL_DATA_INTERVAL_SECS && self.stat_elapsed < STAT_INTERVAL_SECS
    }

    /// A timer whose first tick sends a keepalive.
    pub fn new() -> (r: Self)
        ensures
            r@ == TimerSpec::fresh(),
    {
        ForwarderTimer { pull_elapsed: PULL_DATA_INTERVAL_SECS, stat_elapsed: 0 }
    }

    /// A second passed: what is due now.
    pub fn tick(&mut self) -> (r: Due)
        ensures
            r == old(self)@.due(),
            final(self)@ == old(self)@.ticked(),
    {
        proof {
            use_type_invariant(&*self);
        }
        let pull: u32 = self.pull_elapsed + 1;
        let stat: u32 = self.stat_elapsed + 1;
        let due: Due = Due {
            keepalive: pull >= PULL_DATA_INTERVAL_SECS,
            stat: stat >= STAT_INTERVAL_SECS,
        };
        *self = ForwarderTimer {
            pull_elapsed: if due.keepalive {
                0
            } else {
                pull
            },
            stat_elapsed: if due.stat {
                0
            } else {
                stat
            },
        };
        due
    }
}

/// The timer after `n` ticks.
pub open spec fn after_ticks(n: nat) -> TimerSpec
    decreases n,
{
    if n == 0 {
        TimerSpec::fresh()
    } else {
        after_ticks((n - 1) as nat).ticked()
    }
}

/// A keepalive goes out at the first tick and every ten seconds from then on,
/// a report every thirty seconds.
pub proof fn tick_schedule(n: nat)
    ensures
        after_ticks(n).due() == (Due { keepalive: n % 10 == 0, stat: (n + 1) % 30 == 0 }),
        after_ticks(n).stat == n % 30,
        n > 0 ==> after_ticks(n).pull == (n - 1) % 10,
    decreases n,
{
    if n > 0 {
        tick_schedule((n - 1) as nat);
    }
}

/// How a downlink that passed policy is acknowledged.
pub open spec fn queue_error(queued: bool) -> TxAckError {
    if queued {
        TxAckError::NoError
    } else {
        TxAckError::CollisionPacket
    }
}

/// Write the TX_ACK of a downlink that passed policy: without an error when the
/// radio task took it, as a collision when its queue was full. A downlink that
/// was not taken counts as dropped, one that was taken as transmitted.
pub fn acknowledge(
    forwarder: &mut GatewayForwarder,
    stats: &mut HubStats,
    ack: &mut [u8],
    token: u16,
    queued: bool,
) -> (r: usize)
    requires
        old(forwarder).valid(),
        queued ==> old(forwarder)@.stats.txnb < u32::MAX,
    ensures
        final(forwarder).valid(),
        final(forwarder)@ == (if queued {
            ForwarderSpec {
                stats: StatCounters {
                    txnb: (old(forwarder)@.stats.txnb + 1) as u32,
                    ..old(forwarder)@.stats
                },
                ..old(forwarder)@
            }
        } else {
            old(forwarder)@
        }),
        final(stats)@ == (if queued {
            old(stats)@
        } else {
            StatusSpec {
                dropped_count: stats::counted(old(stats)@.dropped_count, 1),
                ..old(stats)@
            }
        }),
        udp_protocol::built(
            udp_protocol::ack_datagram(token, old(forwarder)@.eui, queue_error(queued)),
            old(ack)@,
            final(ack)@,
            r as int,
        ),
{
    let error: TxAckError = if queued {
        TxAckError::NoError
    } else {
        stats.count_dropped(1);
        TxAckError::CollisionPacket
    };
    forwarder.tx_ack(ack, token, error)
}

/// A downlink that the radio took is acknowledged without an error and counted as
/// transmitted; one that it did not take is acknowledged as a collision and counted as
/// dropped. Neither touches the other's counter.
pub proof fn downlinks_are_acknowledged(
    forwarder: &mut GatewayForwarder,
    stats: &mut HubStats,
    ack: &mut [u8],
    token: u16,
    queued: bool,
    r: usize,
)
    requires
        call_ensures(acknowledge, (forwarder, stats, ack, token, queued), r),
        old(stats)@.dropped_count < 4_294_967_295,
        old(forwarder)@.stats.txnb < 4_294_967_295,
    ensures
        final(forwarder)@.stats.txnb == old(forwarder)@.stats.txnb + (if queued {
            1int
        } else {
            0int
        }),
        final(forwarder)@.stats.dwnb == old(forwarder)@.stats.dwnb,
        final(forwarder)@.stats.rxnb == old(forwarder)@.stats.rxnb,
        final(forwarder)@.eui == old(forwarder)@.eui,
        final(stats)@.dropped_count == old(stats)@.dropped_count + (if queued {
            0int
        } else {
            1int
        }),
        final(stats)@.downlink_count == old(stats)@.downlink_count,
        final(stats)@.uplink_count == old(stats)@.uplink_count,
        queued ==> udp_protocol::built(
            udp_protocol::ack_datagram(token, old(forwarder)@.eui, TxAckError::NoError),
            old(ack)@,
            final(ack)@,
            r as int,
        ),
        !queued ==> udp_protocol::built(
            udp_protocol::ack_datagram(token, old(forwarder)@.eui, TxAckError::CollisionPacket),
            old(ack)@,
            final(ack)@,
            r as int,
        ),
{
}

/// Packets are forwarded exactly when there is a host to forward them to.
pub proof fn forwarding_needs_a_host(config: &HubConfig, r: bool)
    requires
        call_ensures(server_configured, (config,), r),
    ensures
        r <==> config@.gateway.host.len() > 0,
{
}

} // verus!
