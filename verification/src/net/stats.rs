//! Live hub statistics.
//!
//! The WiFi/MQTT tasks write their side; the hub control task snapshots
//! everything for `GetHubStatus`. Counters wrap.
use crate::hub_protocol::types::{HubStatus, LinkState, StatusSpec};
use vstd::prelude::*;

verus! {

/// Link states and counters.
pub struct HubStats {
    wifi_state: LinkState,
    mqtt_state: LinkState,
    ip: [u8; 4],
    uplink: u32,
    downlink: u32,
    dropped: u32,
}

/// A counter after `n` more events.
pub open spec fn counted(count: u32, n: u32) -> u32 {
    ((count + n) % 0x1_0000_0000) as u32
}

impl View for HubStats {
    type V = StatusSpec;

    /// The status at uptime zero.
    closed spec fn view(&self) -> StatusSpec {
        StatusSpec {
            wifi_state: self.wifi_state,
            ip: self.ip@,
            mqtt_state: self.mqtt_state,
            uplink_count: self.uplink,
            downlink_count: self.downlink,
            dropped_count: self.dropped,
            uptime_secs: 0,
        }
    }
}

impl StatusSpec {
    /// No link, nothing counted.
    pub open spec fn fresh() -> StatusSpec {
        StatusSpec {
            wifi_state: LinkState::Unprovisioned,
            ip: seq![0u8, 0, 0, 0],
            mqtt_state: LinkState::Unprovisioned,
            uplink_count: 0,
            downlink_count: 0,
            dropped_count: 0,
            uptime_secs: 0,
        }
    }
}

impl Default for HubStats {
    fn default() -> (r: Self)
        ensures
            r@ == StatusSpec::fresh(),
    {
        Self::new()
    }
}

impl HubStats {
    /// No link, nothing counted.
    pub fn new() -> (r: Self)
        ensures
            r@ == StatusSpec::fresh(),
    {
        let ip: [u8; 4] = [0, 0, 0, 0];
        assert(ip@ =~= seq![0u8, 0, 0, 0]);
        HubStats {
            wifi_state: LinkState::Unprovisioned,
            mqtt_state: LinkState::Unprovisioned,
            ip,
            uplink: 0,
            downlink: 0,
            dropped: 0,
        }
    }

    /// The WiFi link changed.
    pub fn set_wifi_state(&mut self, state: LinkState)
        ensures
            final(self)@ == (StatusSpec { wifi_state: state, ..old(self)@ }),
    {
        self.wifi_state = state;
    }

    /// The MQTT session changed.
    pub fn set_mqtt_state(&mut self, state: LinkState)
        ensures
            final(self)@ == (StatusSpec { mqtt_state: state, ..old(self)@ }),
    {
        self.mqtt_state = state;
    }

    /// The station got an address.
    pub fn set_ip(&mut self, octets: [u8; 4])
        ensures
            final(self)@ == (StatusSpec { ip: octets@, ..old(self)@ }),
    {
        self.ip = octets;
    }

    /// The station lost its address.
    pub fn clear_ip(&mut self)
        ensures
            final(self)@ == (StatusSpec { ip: seq![0u8, 0, 0, 0], ..old(self)@ }),
    {
        let ip: [u8; 4] = [0, 0, 0, 0];
        assert(ip@ =~= seq![0u8, 0, 0, 0]);
        self.ip = ip;
    }

    /// A LoRa packet went upstream.
    pub fn count_uplink(&mut self)
        ensures
            final(self)@ == (StatusSpec {
                uplink_count: counted(old(self)@.uplink_count, 1),
                ..old(self)@
            }),
    {
        self.uplink = self.uplink.wrapping_add(1);
    }

    /// A LoRa packet was transmitted on request.
    pub fn count_downlink(&mut self)
        ensures
            final(self)@ == (StatusSpec {
                downlink_count: counted(old(self)@.downlink_count, 1),
                ..old(self)@
            }),
    {
        self.downlink = self.downlink.wrapping_add(1);
    }

    /// Messages were dropped.
    pub fn count_dropped(&mut self, n: u32)
        ensures
            final(self)@ == (StatusSpec {
                dropped_count: counted(old(self)@.dropped_count, n),
                ..old(self)@
            }),
    {
        self.dropped = self.dropped.wrapping_add(n);
    }

    /// Snapshot for the wire; the caller supplies uptime so this stays free
    /// of any clock dependency.
    pub fn snapshot(&self, uptime_secs: u32) -> (r: HubStatus)
        ensures
            r@ == (StatusSpec { uptime_secs, ..self@ }),
    {
        HubStatus {
            wifi_state: self.wifi_state,
            ip: self.ip,
            mqtt_state: self.mqtt_state,
            uplink_count: self.uplink,
            downlink_count: self.downlink,
            dropped_count: self.dropped,
            uptime_secs,
        }
    }
}

/// A counter goes up by what happened and starts over behind 4294967295.
pub proof fn counters_wrap(count: u32, n: u32)
    ensures
        count + n <= 4_294_967_295 ==> counted(count, n) == count + n,
        count + n > 4_294_967_295 ==> counted(count, n) == count + n - 4_294_967_296,
{
}

/// Each event changes its own counter by one, or by the number of drops, and nothing
/// else.
pub proof fn events_change_their_own_counter(
    up: &mut HubStats,
    down: &mut HubStats,
    drop: &mut HubStats,
    n: u32,
)
    requires
        call_ensures(HubStats::count_uplink, (up,), ()),
        call_ensures(HubStats::count_downlink, (down,), ()),
        call_ensures(HubStats::count_dropped, (drop, n), ()),
        old(up)@.uplink_count < 4_294_967_295,
        old(down)@.downlink_count < 4_294_967_295,
        old(drop)@.dropped_count + n <= 4_294_967_295,
    ensures
        final(up)@.uplink_count == old(up)@.uplink_count + 1,
        final(up)@.downlink_count == old(up)@.downlink_count,
        final(up)@.dropped_count == old(up)@.dropped_count,
        final(up)@.wifi_state == old(up)@.wifi_state,
        final(up)@.mqtt_state == old(up)@.mqtt_state,
        final(up)@.ip == old(up)@.ip,
        final(down)@.downlink_count == old(down)@.downlink_count + 1,
        final(down)@.uplink_count == old(down)@.uplink_count,
        final(down)@.dropped_count == old(down)@.dropped_count,
        final(down)@.wifi_state == old(down)@.wifi_state,
        final(down)@.mqtt_state == old(down)@.mqtt_state,
        final(down)@.ip == old(down)@.ip,
        final(drop)@.dropped_count == old(drop)@.dropped_count + n,
        final(drop)@.uplink_count == old(drop)@.uplink_count,
        final(drop)@.downlink_count == old(drop)@.downlink_count,
        final(drop)@.wifi_state == old(drop)@.wifi_state,
        final(drop)@.mqtt_state == old(drop)@.mqtt_state,
        final(drop)@.ip == old(drop)@.ip,
{
}

/// A snapshot tells every link state, the address and every counter as they are, with
/// the uptime that it was given.
pub proof fn snapshots_tell_the_state(stats: HubStats, uptime_secs: u32, r: HubStatus)
    requires
        call_ensures(HubStats::snapshot, (&stats, uptime_secs), r),
    ensures
        r.wifi_state == stats@.wifi_state,
        r.ip@ == stats@.ip,
        r.mqtt_state == stats@.mqtt_state,
        r.uplink_count == stats@.uplink_count,
        r.downlink_count == stats@.downlink_count,
        r.dropped_count == stats@.dropped_count,
        r.uptime_secs == uptime_secs,
{
}

/// A hub starts without links, without an address and with nothing counted, and a lost
/// address is all zeros.
pub proof fn hubs_start_from_nothing(r: HubStats, stats: &mut HubStats)
    requires
        call_ensures(HubStats::new, (), r),
        call_ensures(HubStats::clear_ip, (stats,), ()),
    ensures
        r@.wifi_state == LinkState::Unprovisioned,
        r@.mqtt_state == LinkState::Unprovisioned,
        r@.ip == seq![0u8, 0, 0, 0],
        r@.uplink_count == 0,
        r@.downlink_count == 0,
        r@.dropped_count == 0,
        final(stats)@.ip == seq![0u8, 0, 0, 0],
        final(stats)@.wifi_state == old(stats)@.wifi_state,
        final(stats)@.mqtt_state == old(stats)@.mqtt_state,
{
}

} // verus!
