//! Gateway radio task decisions: single-channel LoRaWAN uplink reception and
//! timed downlink transmission.
use crate::gateway::scheduler;
use crate::gateway::scheduler::{tmst_delta_us, SETUP_LEAD_US, TX_START_COMP_US};
use crate::gateway::udp_protocol::RxMeta;
use crate::gateway::{DownlinkJob, JobSpec};
use crate::hub_config::{ConfigSpec, HubConfig};
use crate::hub_protocol::types::StatusSpec;
use crate::lora::traits::{LoraConfig, RxPacket, SyncWord};
use crate::net::stats;
use crate::net::stats::HubStats;
use vstd::prelude::*;

verus! {

/// Idle poll interval for the cancel-safe RX wait.
pub const RX_POLL_INTERVAL_MS: u32 = 500;

/// Pause after the radio could not be armed.
pub const ARM_RETRY_MS: u32 = 500;

/// The uplink listen configuration for the gateway channel: the public sync
/// word, no inverted IQ, CRC on.
pub open spec fn uplink_of(config: ConfigSpec) -> LoraConfig {
    LoraConfig {
        frequency_hz: config.gateway.frequency_hz,
        spreading_factor: config.gateway.spreading_factor,
        bandwidth_khz: config.gateway.bandwidth_khz,
        coding_rate: config.gateway.coding_rate,
        sync_word: SyncWord::Public,
        iq_inverted: false,
        crc_on: true,
        preamble_len: 8,
        ..LoraConfig::standard()
    }
}

/// The uplink listen configuration for the gateway channel.
pub fn uplink_config(config: &HubConfig) -> (r: LoraConfig)
    ensures
        r == uplink_of(config@),
{
    let standard: LoraConfig = LoraConfig::default();
    LoraConfig {
        frequency_hz: config.gateway.frequency_hz,
        spreading_factor: config.gateway.spreading_factor,
        bandwidth_khz: config.gateway.bandwidth_khz,
        coding_rate: config.gateway.coding_rate,
        tx_power_dbm: standard.tx_power_dbm,
        sync_word: SyncWord::Public,
        iq_inverted: false,
        crc_on: true,
        preamble_len: 8,
    }
}

/// A time since boot on the wrapping 32-bit microsecond counter.
pub open spec fn counter_at(micros: int) -> u32 {
    (micros % 0x1_0000_0000) as u32
}

/// A time since boot on the wrapping 32-bit microsecond counter.
pub fn counter(micros: u64) -> (r: u32)
    ensures
        r == counter_at(micros as int),
{
    (micros % 0x1_0000_0000) as u32
}

/// The metadata of a packet that was heard on a channel at a time since boot.
pub open spec fn meta_of(uplink: LoraConfig, micros: int, rssi: i16, snr: i8) -> RxMeta {
    RxMeta {
        tmst: counter_at(micros),
        freq_hz: uplink.frequency_hz,
        spreading_factor: uplink.spreading_factor,
        bandwidth_khz: uplink.bandwidth_khz,
        coding_rate: uplink.coding_rate,
        rssi,
        snr,
    }
}

/// The metadata of a packet that was heard at a time since boot.
pub fn rx_meta(uplink: &LoraConfig, micros: u64, packet: &RxPacket) -> (r: RxMeta)
    ensures
        r == meta_of(*uplink, micros as int, packet.rssi, packet.snr),
{
    RxMeta {
        tmst: counter(micros),
        freq_hz: uplink.frequency_hz,
        spreading_factor: uplink.spreading_factor,
        bandwidth_khz: uplink.bandwidth_khz,
        coding_rate: uplink.coding_rate,
        rssi: packet.rssi,
        snr: packet.snr,
    }
}

/// What the radio task does next.
pub enum GatewayStep {
    /// Pause this many milliseconds, then arm the radio again.
    Pause(u32),
    /// Transmit this downlink, then listen on the uplink channel again.
    Transmit(DownlinkJob),
    /// Wait for a packet or a downlink, whichever comes first, polling at this
    /// interval in milliseconds.
    Listen(u32),
}

/// The loop of the radio task: a downlink that arrived while listening is
/// transmitted as soon as the radio is armed again.
pub struct GatewayLoop {
    pending: Option<DownlinkJob>,
}

impl View for GatewayLoop {
    type V = Option<JobSpec>;

    /// The downlink to transmit next.
    closed spec fn view(&self) -> Option<JobSpec> {
        match self.pending {
            Some(job) => Some(job@),
            None => None,
        }
    }
}

impl Default for GatewayLoop {
    fn default() -> (r: Self)
        ensures
            r@ is None,
    {
        Self::new()
    }
}

impl GatewayLoop {
    /// Nothing to transmit.
    pub fn new() -> (r: Self)
        ensures
            r@ is None,
    {
        GatewayLoop { pending: None }
    }

    /// What to do, now that arming the radio for reception succeeded or not. A
    /// downlink waits until it did, and is handed out once.
    pub fn next(&mut self, armed: bool) -> (r: GatewayStep)
        ensures
            if !armed {
                r == GatewayStep::Pause(ARM_RETRY_MS) && final(self)@ == old(self)@
            } else {
                match old(self)@ {
                    Some(job) => r is Transmit && r->Transmit_0@ == job && final(self)@ is None,
                    None => r == GatewayStep::Listen(RX_POLL_INTERVAL_MS) && final(self)@ is None,
                }
            },
    {
        if !armed {
            return GatewayStep::Pause(ARM_RETRY_MS);
        }
        match self.pending.take() {
            Some(job) => GatewayStep::Transmit(job),
            None => GatewayStep::Listen(RX_POLL_INTERVAL_MS),
        }
    }

    /// A downlink arrived while listening.
    pub fn on_downlink(&mut self, job: DownlinkJob)
        ensures
            final(self)@ == Some(job@),
    {
        self.pending = Some(job);
    }
}

/// A packet was read: it counts as an uplink, and as dropped too when the queue
/// of the UDP task did not take it.
pub fn on_uplink(stats: &mut HubStats, queued: bool)
    ensures
        final(stats)@ == (StatusSpec {
            uplink_count: stats::counted(old(stats)@.uplink_count, 1),
            dropped_count: if queued {
                old(stats)@.dropped_count
            } else {
                stats::counted(old(stats)@.dropped_count, 1)
            },
            ..old(stats)@
        }),
{
    stats.count_uplink();
    if !queued {
        stats.count_dropped(1);
    }
}

/// When to start setting up a downlink.
#[derive(Debug, Clone, Copy, PartialEq, Eq, Structural)]
pub enum SetupStep {
    /// The window has already passed: drop the downlink.
    Drop,
    /// Wait this many microseconds, then configure the radio and stage the
    /// payload.
    After(u64),
}

/// When to start setting up a downlink: at once where it has no target, else
/// the setup lead before it. One that is closer than the lead is dropped.
pub open spec fn setup_at(target: Option<u32>, micros: int) -> SetupStep {
    match target {
        None => SetupStep::After(0),
        Some(target) => {
            let d = scheduler::delta(counter_at(micros) as int, target as int);
            if d < SETUP_LEAD_US {
                SetupStep::Drop
            } else {
                SetupStep::After((d - SETUP_LEAD_US) as u64)
            }
        },
    }
}

/// When to start setting up a downlink, given the time since boot.
pub fn setup_step(target: Option<u32>, micros: u64) -> (r: SetupStep)
    ensures
        r == setup_at(target, micros as int),
{
    match target {
        None => SetupStep::After(0),
        Some(target) => {
            let delta: i32 = tmst_delta_us(counter(micros), target);
            if delta < SETUP_LEAD_US as i32 {
                return SetupStep::Drop;
            }
            SetupStep::After((delta as u32 - SETUP_LEAD_US) as u64)
        },
    }
}

/// How long to wait, once everything is staged, before telling the radio to
/// fire: just early enough to compensate the latency of the command and the
/// ramp of the amplifier, and not at all where that has passed.
pub open spec fn fire_after(target: Option<u32>, micros: int) -> u64 {
    match target {
        None => 0,
        Some(target) => {
            let d = scheduler::delta(counter_at(micros) as int, target as int);
            if d > TX_START_COMP_US {
                (d - TX_START_COMP_US) as u64
            } else {
                0
            }
        },
    }
}

/// How long to wait in microseconds before telling the radio to fire, given the
/// time since boot.
pub fn fire_delay(target: Option<u32>, micros: u64) -> (r: u64)
    ensures
        r == fire_after(target, micros as int),
{
    match target {
        None => 0,
        Some(target) => {
            let remaining: i32 = tmst_delta_us(counter(micros), target);
            if remaining > TX_START_COMP_US as i32 {
                (remaining as u32 - TX_START_COMP_US) as u64
            } else {
                0
            }
        },
    }
}

/// A transmission ended; one that succeeded counts as a downlink.
pub fn on_transmitted(stats: &mut HubStats, succeeded: bool)
    ensures
        final(stats)@ == (if succeeded {
            StatusSpec {
                downlink_count: stats::counted(old(stats)@.downlink_count, 1),
                ..old(stats)@
            }
        } else {
            old(stats)@
        }),
{
    if succeeded {
        stats.count_downlink();
    }
}

/// A downlink that was accepted for a target is set up in time when the radio
/// task sees it without delay, and one that is set up early enough fires on its
/// target: the command is issued exactly the compensation ahead of it, also
/// across the wrap of the counter.
pub proof fn downlinks_fire_on_target(target: u32, accepted: int, staged: int)
    requires
        0 <= accepted,
        0 <= staged,
        scheduler::classified(counter_at(accepted) as int, false, Some(target)) is At,
    ensures
        setup_at(Some(target), accepted) matches SetupStep::After(wait) && counter_at(
            accepted + wait + SETUP_LEAD_US,
        ) == target,
        scheduler::delta(counter_at(staged) as int, target as int) > TX_START_COMP_US
            ==> counter_at(staged + fire_after(Some(target), staged) + TX_START_COMP_US) == target,
{
}

/// The gateway listens on the configured channel as LoRaWAN devices send: on the
/// public network, with standard polarity, a checksum and a preamble of eight
/// symbols.
pub proof fn gateway_listens_on_its_channel(config: ConfigSpec)
    ensures
        uplink_of(config).frequency_hz == config.gateway.frequency_hz,
        uplink_of(config).spreading_factor == config.gateway.spreading_factor,
        uplink_of(config).bandwidth_khz == config.gateway.bandwidth_khz,
        uplink_of(config).coding_rate == config.gateway.coding_rate,
        uplink_of(config).sync_word == SyncWord::Public,
        !uplink_of(config).iq_inverted,
        uplink_of(config).crc_on,
        uplink_of(config).preamble_len == 8,
        uplink_of(config).tx_power_dbm == 22,
{
}

/// An uplink is reported with the channel that it was heard on, its own signal
/// readings, and the low 32 bits of the time in microseconds.
pub proof fn uplinks_are_reported_as_heard(uplink: LoraConfig, micros: u64, rssi: i16, snr: i8)
    ensures
        ({
            let meta = meta_of(uplink, micros as int, rssi, snr);
            &&& meta.tmst == micros % 4_294_967_296
            &&& meta.freq_hz == uplink.frequency_hz
            &&& meta.spreading_factor == uplink.spreading_factor
            &&& meta.bandwidth_khz == uplink.bandwidth_khz
            &&& meta.coding_rate == uplink.coding_rate
            &&& meta.rssi == rssi
            &&& meta.snr == snr
        }),
{
}

/// A downlink with a target is set up 20 ms before it, and dropped when less is
/// left; the radio is told to fire 450 us before it, or at once when less is
/// left. One without a target does not wait.
pub proof fn downlinks_leave_on_time(target: u32, micros: u64, ahead: int)
    requires
        -0x8000_0000 <= ahead < 0x8000_0000,
        target == (micros + ahead) % 4_294_967_296,
    ensures
        ahead < 20_000 <==> setup_at(Some(target), micros as int) is Drop,
        ahead >= 20_000 ==> setup_at(Some(target), micros as int) == SetupStep::After(
            (ahead - 20_000) as u64,
        ),
        setup_at(None, micros as int) == SetupStep::After(0),
        ahead >= 450 ==> fire_after(Some(target), micros as int) == ahead - 450,
        ahead <= 450 ==> fire_after(Some(target), micros as int) == 0,
        fire_after(None, micros as int) == 0,
{
}

/// An uplink counts, and as a drop too if the queue did not take it; a downlink counts
/// exactly if it went out. Nothing else of the status changes.
pub proof fn traffic_is_counted(
    heard: &mut HubStats,
    queued: bool,
    sent: &mut HubStats,
    succeeded: bool,
)
    requires
        call_ensures(on_uplink, (heard, queued), ()),
        call_ensures(on_transmitted, (sent, succeeded), ()),
        old(heard)@.uplink_count < 4_294_967_295,
        old(heard)@.dropped_count < 4_294_967_295,
        old(sent)@.downlink_count < 4_294_967_295,
    ensures
        final(heard)@.uplink_count == old(heard)@.uplink_count + 1,
        queued ==> final(heard)@.dropped_count == old(heard)@.dropped_count,
        !queued ==> final(heard)@.dropped_count == old(heard)@.dropped_count + 1,
        final(heard)@.downlink_count == old(heard)@.downlink_count,
        final(heard)@.wifi_state == old(heard)@.wifi_state,
        final(heard)@.mqtt_state == old(heard)@.mqtt_state,
        succeeded ==> final(sent)@.downlink_count == old(sent)@.downlink_count + 1,
        !succeeded ==> final(sent)@ == old(sent)@,
        final(sent)@.uplink_count == old(sent)@.uplink_count,
        final(sent)@.dropped_count == old(sent)@.dropped_count,
{
}

/// A downlink that came in is what is transmitted next, once; without one the gateway
/// listens for half a second at a time, and a radio that cannot be armed is tried again
/// after half a second, with the downlink still waiting.
pub proof fn downlinks_come_first(
    waiting: &mut GatewayLoop,
    job: DownlinkJob,
    task: &mut GatewayLoop,
    armed: bool,
    r: GatewayStep,
)
    requires
        call_ensures(GatewayLoop::on_downlink, (waiting, job), ()),
        call_ensures(GatewayLoop::next, (task, armed), r),
    ensures
        final(waiting)@ == Some(job@),
        !armed ==> r == GatewayStep::Pause(500) && final(task)@ == old(task)@,
        armed && old(task)@ is None ==> r == GatewayStep::Listen(500) && final(task)@ is None,
        armed && old(task)@ is Some ==> (r matches GatewayStep::Transmit(next) && Some(next@)
            == old(task)@) && final(task)@ is None,
{
}

/// The counter is the low 32 bits of the microseconds.
pub proof fn counters_run_with_the_clock(micros: u64, r: u32)
    requires
        call_ensures(counter, (micros,), r),
    ensures
        micros < 4_294_967_296 ==> r == micros,
        (micros - r) % 4_294_967_296 == 0,
{
}

} // verus!
