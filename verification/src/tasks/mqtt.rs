//! MQTT task decisions: the broker connection with its backoff, the order of a
//! session, and what becomes of incoming publications.
use crate::bounded::{Bytes, Text};
use crate::bridge::codec;
use crate::bridge::codec::{status_json, MAX_JSON};
use crate::config;
use crate::decimal;
use crate::hex;
use crate::hub_config::{ConfigSpec, HubConfig};
use crate::hub_protocol::types::{LinkState, StatusSpec};
use crate::json;
use crate::net::backoff;
use crate::net::backoff::Backoff;
use crate::net::stats;
use crate::net::stats::HubStats;
use crate::net::traits::TopicSet;
use crate::octets;
use vstd::prelude::*;

verus! {

/// Keepalive of the broker connection.
pub const KEEPALIVE_SECS: u16 = 30;

/// Ping at half the keepalive so one lost ping never expires the session.
pub const PING_INTERVAL_SECS: u64 = 15;

/// Inactivity after which the socket is given up.
pub const SOCKET_TIMEOUT_SECS: u64 = 90;

/// Start of the client id of a hub that was not told another one.
pub const CLIENT_ID_PREFIX: &'static str = "wt-hub-";

/// The client id: the configured one, else one derived from the device id.
pub open spec fn client_id_of(config: ConfigSpec, device_id: Seq<u8>) -> Seq<char> {
    if config.mqtt.client_id.len() > 0 {
        config.mqtt.client_id
    } else {
        CLIENT_ID_PREFIX@ + hex::device_chars(device_id)
    }
}

/// The client id: the configured one, else `wt-hub-XXXXXX` with the device id in
/// upper case hex.
pub fn resolve_client_id(config: &HubConfig, device_id: [u8; 3]) -> (r: Text<32>)
    ensures
        r@ == client_id_of(config@, device_id@),
{
    if !config.mqtt.client_id.is_empty() {
        return config.mqtt.client_id.clone();
    }
    proof {
        reveal_strlit("wt-hub-");
        reveal_strlit("");
        vstd::utf8::is_ascii_chars_encode_utf8("wt-hub-"@);
        vstd::utf8::is_ascii_chars_encode_utf8(""@);
    }
    let id: Text<32> = hex::device_name(CLIENT_ID_PREFIX, device_id, "");
    assert(id@ =~= CLIENT_ID_PREFIX@ + hex::device_chars(device_id@));
    id
}

/// The firmware version as it is announced: three numbers with dots between
/// them.
pub open spec fn version_text() -> Seq<u8> {
    decimal::digits(config::VERSION_MAJOR as nat) + seq![46u8] + decimal::digits(
        config::VERSION_MINOR as nat,
    ) + seq![46u8] + decimal::digits(config::VERSION_PATCH as nat)
}

/// The firmware version as it is announced.
pub fn firmware_version() -> (r: Text<16>)
    ensures
        octets::utf8(r@) == version_text(),
{
    let mut out: Vec<u8> = Vec::new();
    decimal::append(&mut out, config::VERSION_MAJOR as u64);
    assert(out@ =~= decimal::digits(config::VERSION_MAJOR as nat));
    let ghost one = out@;
    out.push(46);
    assert(out@ =~= one + seq![46u8]);
    decimal::append(&mut out, config::VERSION_MINOR as u64);
    let ghost two = out@;
    out.push(46);
    assert(out@ =~= two + seq![46u8]);
    decimal::append(&mut out, config::VERSION_PATCH as u64);
    proof {
        decimal::lemma_digits_parsed(config::VERSION_MAJOR as nat);
        decimal::lemma_digits_parsed(config::VERSION_MINOR as nat);
        decimal::lemma_digits_parsed(config::VERSION_PATCH as nat);
        decimal::lemma_digits_len_u32(config::VERSION_MAJOR as u32);
        decimal::lemma_digits_len_u32(config::VERSION_MINOR as u32);
        decimal::lemma_digits_len_u32(config::VERSION_PATCH as u32);
        assert forall|i: int| 0 <= i < out@.len() implies #[trigger] out@[i] < 128 by {
            let a = decimal::digits(config::VERSION_MAJOR as nat);
            let b = decimal::digits(config::VERSION_MINOR as nat);
            let c = decimal::digits(config::VERSION_PATCH as nat);
            if i < a.len() {
                assert(decimal::is_digit(a[i]));
            } else if i == a.len() {
            } else if i < a.len() + 1 + b.len() {
                assert(decimal::is_digit(b[i - a.len() - 1]));
            } else if i == a.len() + 1 + b.len() {
            } else {
                assert(decimal::is_digit(c[i - a.len() - b.len() - 2]));
            }
        }
        octets::lemma_ascii(out@);
    }
    match Text::try_from(octets::ascii_text(out.as_slice())) {
        Ok(version) => version,
        Err(_) => Text::new(),
    }
}

/// A message on the status topic.
pub struct Announcement<'a> {
    /// Full topic name.
    pub topic: &'a str,
    /// What to publish.
    pub payload: Bytes<640>,
    /// Whether the broker keeps it.
    pub retain: bool,
}

/// The last will: a retained offline status.
pub fn last_will(topics: &TopicSet) -> (r: Announcement<'_>)
    ensures
        r.topic@ == topics@.status,
        r.payload@ == json::capped(codec::status_object(false, None), MAX_JSON as int),
        r.retain,
{
    Announcement { topic: topics.status(), payload: status_json(false, None), retain: true }
}

/// The announcement of a fresh session: a retained online status with the
/// firmware version.
pub fn online_announcement<'a>(topics: &'a TopicSet, fw: &str) -> (r: Announcement<'a>)
    ensures
        r.topic@ == topics@.status,
        r.payload@ == json::capped(codec::status_object(true, Some(fw)), MAX_JSON as int),
        r.retain,
{
    Announcement { topic: topics.status(), payload: status_json(true, Some(fw)), retain: true }
}

/// What a session does next.
#[derive(Debug, Clone, Copy, PartialEq, Eq, Structural)]
pub enum SessionStep {
    /// Connect, with the last will.
    Connect,
    /// Publish the online status.
    Announce,
    /// Subscribe to the downlink topic.
    Subscribe,
    /// Pump incoming packets, queued publications and the keepalive ping.
    Pump,
    /// Tear the session down.
    Failed,
}

impl SessionStep {
    /// The next step: the order is fixed, and any failure ends the session.
    pub fn next(self, succeeded: bool) -> (r: SessionStep)
        ensures
            r == (if !succeeded {
                SessionStep::Failed
            } else {
                match self {
                    SessionStep::Connect => SessionStep::Announce,
                    SessionStep::Announce => SessionStep::Subscribe,
                    SessionStep::Subscribe => SessionStep::Pump,
                    SessionStep::Pump => SessionStep::Pump,
                    SessionStep::Failed => SessionStep::Failed,
                }
            }),
    {
        if !succeeded {
            return SessionStep::Failed;
        }
        match self {
            SessionStep::Connect => SessionStep::Announce,
            SessionStep::Announce => SessionStep::Subscribe,
            SessionStep::Subscribe => SessionStep::Pump,
            SessionStep::Pump => SessionStep::Pump,
            SessionStep::Failed => SessionStep::Failed,
        }
    }
}

/// A status with another MQTT state.
pub open spec fn with_mqtt(status: StatusSpec, mqtt_state: LinkState) -> StatusSpec {
    StatusSpec { mqtt_state, ..status }
}

/// Whether there is a broker to connect to. Without one the link is reported as
/// unprovisioned.
pub fn broker_configured(config: &HubConfig, stats: &mut HubStats) -> (r: bool)
    ensures
        r == (config@.mqtt.host.len() > 0),
        final(stats)@ == (if r {
            old(stats)@
        } else {
            with_mqtt(old(stats)@, LinkState::Unprovisioned)
        }),
{
    if config.mqtt.host.is_empty() {
        stats.set_mqtt_state(LinkState::Unprovisioned);
        return false;
    }
    true
}

/// The connection to the broker across sessions.
pub struct BrokerLink {
    backoff: Backoff,
}

impl View for BrokerLink {
    type V = int;

    /// Seconds to wait after the next failure.
    closed spec fn view(&self) -> int {
        self.backoff@
    }
}

impl Default for BrokerLink {
    fn default() -> (r: Self)
        ensures
            r@ == backoff::INITIAL_SECS,
    {
        Self::new()
    }
}

impl BrokerLink {
    /// Nothing tried yet.
    pub fn new() -> (r: Self)
        ensures
            r@ == backoff::INITIAL_SECS,
    {
        BrokerLink { backoff: Backoff::new() }
    }

    /// The network is up and an attempt begins.
    pub fn on_attempt(&self, stats: &mut HubStats)
        ensures
            final(stats)@ == with_mqtt(old(stats)@, LinkState::Connecting),
    {
        stats.set_mqtt_state(LinkState::Connecting);
    }

    /// The broker accepted the session: the next failure starts small.
    pub fn on_connected(&mut self, stats: &mut HubStats)
        ensures
            final(self)@ == backoff::INITIAL_SECS,
            final(stats)@ == with_mqtt(old(stats)@, LinkState::Connected),
    {
        stats.set_mqtt_state(LinkState::Connected);
        self.backoff.reset();
    }

    /// The host was not found, the socket did not connect or the session ended:
    /// seconds to wait before the next attempt.
    pub fn on_failed(&mut self, stats: &mut HubStats) -> (r: u32)
        ensures
            r as int == old(self)@,
            backoff::INITIAL_SECS <= r <= backoff::MAX_SECS,
            final(self)@ == backoff::doubled(old(self)@),
            final(stats)@ == with_mqtt(old(stats)@, LinkState::Disconnected),
    {
        stats.set_mqtt_state(LinkState::Disconnected);
        self.backoff.next_secs()
    }
}

/// A publication came in: the downlink request to hand to the bridge, if it is
/// one. A request that is too long is dropped and counted; other topics are
/// ignored.
pub fn on_publish(topics: &TopicSet, stats: &mut HubStats, topic: &str, message: &[u8]) -> (r:
    Option<Bytes<640>>)
    ensures
        match r {
            Some(payload) => topic@ == topics@.tx && message@.len() <= MAX_JSON && payload@
                == message@,
            None => topic@ != topics@.tx || message@.len() > MAX_JSON,
        },
        final(stats)@ == (if topic@ == topics@.tx && message@.len() > MAX_JSON {
            StatusSpec {
                dropped_count: stats::counted(old(stats)@.dropped_count, 1),
                ..old(stats)@
            }
        } else {
            old(stats)@
        }),
{
    if !octets::same_text(topic, topics.tx()) {
        return None;
    }
    match Bytes::from_slice(message) {
        Ok(payload) => Some(payload),
        Err(_) => {
            stats.count_dropped(1);
            None
        },
    }
}

/// The queue of the bridge took a downlink request or was full; a full queue
/// drops it.
pub fn on_forwarded(stats: &mut HubStats, accepted: bool)
    ensures
        final(stats)@ == (if accepted {
            old(stats)@
        } else {
            StatusSpec {
                dropped_count: stats::counted(old(stats)@.dropped_count, 1),
                ..old(stats)@
            }
        }),
{
    if !accepted {
        stats.count_dropped(1);
    }
}

/// A hub that was told a client id uses it; another one is `wt-hub-` and its three
/// bytes in upper case hex.
pub proof fn client_ids_are_told_or_derived(config: &HubConfig, device_id: [u8; 3], r: Text<32>)
    requires
        call_ensures(resolve_client_id, (config, device_id), r),
    ensures
        config@.mqtt.client_id.len() > 0 ==> r@ == config@.mqtt.client_id,
        config@.mqtt.client_id.len() == 0 ==> r@ == "wt-hub-"@ + octets::ascii_chars(
            hex::upper(device_id@),
        ),
{
}

/// The version is announced as `0.1.0`.
pub proof fn version_is_announced(r: Text<16>)
    requires
        call_ensures(firmware_version, (), r),
    ensures
        octets::utf8(r@) == seq![48u8, 46, 49, 46, 48],
{
    assert(version_text() =~= seq![48u8, 46, 49, 46, 48]);
}

/// The will that the broker holds says offline and the announcement says online, both
/// retained on the status topic, so that whoever subscribes later learns which it is.
pub proof fn status_is_retained(
    topics: &TopicSet,
    fw: &str,
    will: Announcement,
    online: Announcement,
)
    requires
        call_ensures(last_will, (topics,), will),
        call_ensures(online_announcement, (topics, fw), online),
        json::plain(fw@),
        octets::utf8(fw@).len() <= 16,
    ensures
        will.topic@ == topics@.status,
        will.retain,
        will.payload@ == octets::utf8("{\"online\":false}"@),
        online.topic@ == topics@.status,
        online.retain,
        online.payload@ == octets::utf8(
            "{\"online\":true,\"fw\":"@ + "\""@ + fw@ + "\""@ + "}"@,
        ),
{
    codec::status_says_online_or_not(fw);
    reveal_strlit("{\"online\":false}");
    reveal_strlit("{\"online\":true,\"fw\":");
    reveal_strlit("\"");
    reveal_strlit("}");
    vstd::utf8::is_ascii_chars_encode_utf8("{\"online\":false}"@);
    vstd::utf8::is_ascii_chars_encode_utf8("{\"online\":true,\"fw\":"@);
    vstd::utf8::is_ascii_chars_encode_utf8("\""@);
    vstd::utf8::is_ascii_chars_encode_utf8("}"@);
    let start = "{\"online\":true,\"fw\":"@;
    octets::lemma_utf8_concat(start, "\""@);
    octets::lemma_utf8_concat(start + "\""@, fw@);
    octets::lemma_utf8_concat(start + "\""@ + fw@, "\""@);
    octets::lemma_utf8_concat(start + "\""@ + fw@ + "\""@, "}"@);
}

/// A session that never fails connects, announces itself, subscribes and then pumps;
/// after a failure it is over.
pub proof fn sessions_run_in_order(
    connect: SessionStep,
    announce: SessionStep,
    subscribe: SessionStep,
    pump: SessionStep,
    step: SessionStep,
    failed: SessionStep,
    after: SessionStep,
    ok: bool,
)
    requires
        call_ensures(SessionStep::next, (SessionStep::Connect, true), announce),
        call_ensures(SessionStep::next, (announce, true), subscribe),
        call_ensures(SessionStep::next, (subscribe, true), pump),
        call_ensures(SessionStep::next, (pump, true), connect),
        call_ensures(SessionStep::next, (step, false), failed),
        call_ensures(SessionStep::next, (failed, ok), after),
    ensures
        announce == SessionStep::Announce,
        subscribe == SessionStep::Subscribe,
        pump == SessionStep::Pump,
        connect == SessionStep::Pump,
        failed == SessionStep::Failed,
        after == SessionStep::Failed,
{
}

/// The link is reported as it is: unprovisioned without a broker, connecting at an
/// attempt, connected in a session and disconnected after it. Nothing else of the
/// status changes.
pub proof fn broker_state_is_reported(
    config: &HubConfig,
    idle: &mut HubStats,
    configured: bool,
    link: &mut BrokerLink,
    trying: &mut HubStats,
    up: &mut HubStats,
    down: &mut HubStats,
    wait: u32,
    lost: &mut BrokerLink,
)
    requires
        call_ensures(broker_configured, (config, idle), configured),
        call_ensures(BrokerLink::on_attempt, (&*link, trying), ()),
        call_ensures(BrokerLink::on_connected, (link, up), ()),
        call_ensures(BrokerLink::on_failed, (lost, down), wait),
    ensures
        configured <==> config@.mqtt.host.len() > 0,
        !configured ==> final(idle)@.mqtt_state == LinkState::Unprovisioned,
        configured ==> final(idle)@.mqtt_state == old(idle)@.mqtt_state,
        final(idle)@.wifi_state == old(idle)@.wifi_state,
        final(trying)@.mqtt_state == LinkState::Connecting,
        final(trying)@.wifi_state == old(trying)@.wifi_state,
        final(trying)@.dropped_count == old(trying)@.dropped_count,
        final(up)@.mqtt_state == LinkState::Connected,
        final(up)@.wifi_state == old(up)@.wifi_state,
        final(up)@.dropped_count == old(up)@.dropped_count,
        final(down)@.mqtt_state == LinkState::Disconnected,
        final(down)@.wifi_state == old(down)@.wifi_state,
        final(down)@.dropped_count == old(down)@.dropped_count,
        final(link)@ == 1,
        1 <= wait <= 60,
        wait == old(lost)@,
        final(lost)@ == (if 2 * wait <= 60 {
            2 * wait
        } else {
            60
        }),
{
}

/// A message on the downlink topic goes to the bridge unchanged if it has at most 640
/// bytes, and is a drop otherwise; one on any other topic is neither. A request that
/// the bridge's queue does not take is a drop too.
pub proof fn downlink_requests_are_forwarded(
    topics: &TopicSet,
    stats: &mut HubStats,
    topic: &str,
    message: &[u8],
    r: Option<Bytes<640>>,
    after: &mut HubStats,
    accepted: bool,
)
    requires
        call_ensures(on_publish, (topics, stats, topic, message), r),
        call_ensures(on_forwarded, (after, accepted), ()),
        old(stats)@.dropped_count < 4_294_967_295,
        old(after)@.dropped_count < 4_294_967_295,
    ensures
        topic@ == topics@.tx && message@.len() <= 640 ==> (r matches Some(payload) && payload@
            == message@) && final(stats)@.dropped_count == old(stats)@.dropped_count,
        topic@ == topics@.tx && message@.len() > 640 ==> r is None && final(stats)@.dropped_count
            == old(stats)@.dropped_count + 1,
        topic@ != topics@.tx ==> r is None && final(stats)@.dropped_count
            == old(stats)@.dropped_count,
        final(stats)@.uplink_count == old(stats)@.uplink_count,
        final(stats)@.downlink_count == old(stats)@.downlink_count,
        final(after)@.dropped_count == old(after)@.dropped_count + (if accepted {
            0int
        } else {
            1int
        }),
        final(after)@.uplink_count == old(after)@.uplink_count,
        final(after)@.downlink_count == old(after)@.downlink_count,
{
}

/// Before the first failure the wait is a second. The broker drops a hub that was silent
/// for one and a half keepalives, so pings go out at half of one, and the socket outlives
/// three.
pub proof fn links_start_fresh(r: BrokerLink)
    requires
        call_ensures(BrokerLink::new, (), r),
    ensures
        r@ == 1,
        2 * PING_INTERVAL_SECS == KEEPALIVE_SECS,
        SOCKET_TIMEOUT_SECS == 3 * KEEPALIVE_SECS,
{
}

} // verus!
