//! The provisioning checks: what a hub is told over its USB port for either mode,
//! when it counts as online, and what it must not give away.
use crate::acceptance;
use crate::acceptance::contains;
use crate::host_protocol;
use crate::host_protocol::{
    gateway_config_payload, mqtt_config_payload, wifi_config_payload, HubCommandId, HubStatus,
    CONNECTED,
};
use crate::octets;
use vstd::prelude::*;

verus! {

/// Uplink frequency that the gateway check provisions.
pub const GATEWAY_FREQ_HZ: u32 = 868_100_000;

/// Uplink spreading factor that the gateway check provisions.
pub const GATEWAY_SF: u8 = 7;

/// Uplink bandwidth that the gateway check provisions.
pub const GATEWAY_BW_KHZ: u32 = 125;

/// Uplink coding rate that the gateway check provisions.
pub const GATEWAY_CR: u8 = 5;

/// A command with its payload.
pub struct Setting {
    /// The command.
    pub id: HubCommandId,
    /// Its payload.
    pub payload: Vec<u8>,
}

/// What a [`Setting`] says.
pub struct SettingSpec {
    /// The command.
    pub id: HubCommandId,
    /// Its payload.
    pub payload: Seq<u8>,
}

impl View for Setting {
    type V = SettingSpec;

    open spec fn view(&self) -> SettingSpec {
        SettingSpec { id: self.id, payload: self.payload@ }
    }
}

/// What settings say.
pub open spec fn said(settings: Seq<Setting>) -> Seq<SettingSpec> {
    settings.map_values(|setting: Setting| setting@)
}

/// The settings of a hub in bridge mode.
pub open spec fn bridge_commands(
    ssid: Seq<char>,
    password: Seq<char>,
    host: Seq<char>,
    port: u16,
) -> Seq<SettingSpec> {
    seq![
        SettingSpec {
            id: HubCommandId::SetWifiConfig,
            payload: host_protocol::string_field(ssid) + host_protocol::string_field(password),
        },
        SettingSpec {
            id: HubCommandId::SetMqttConfig,
            payload: octets::le16(port) + host_protocol::string_field(host)
                + host_protocol::string_field(Seq::empty()),
        },
        SettingSpec { id: HubCommandId::SetMode, payload: seq![0u8] },
    ]
}

/// The settings of a hub in bridge mode, in the order in which they are sent: the
/// network, the broker, the mode.
pub fn bridge_settings(ssid: &str, password: &str, host: &str, port: u16) -> (r: Vec<Setting>)
    ensures
        said(r@) == bridge_commands(ssid@, password@, host@, port),
{
    let mut settings: Vec<Setting> = Vec::new();
    settings.push(
        Setting { id: HubCommandId::SetWifiConfig, payload: wifi_config_payload(ssid, password) },
    );
    proof {
        reveal_strlit("");
        assert(""@ =~= Seq::<char>::empty());
    }
    settings.push(
        Setting {
            id: HubCommandId::SetMqttConfig,
            payload: mqtt_config_payload(host, port, ""),
        },
    );
    let mode: Vec<u8> = vec![0u8];
    assert(mode@ =~= seq![0u8]);
    settings.push(Setting { id: HubCommandId::SetMode, payload: mode });
    assert(said(settings@) =~= bridge_commands(ssid@, password@, host@, port));
    settings
}

/// The settings of a hub in gateway mode. The network is set only where one is
/// named.
pub open spec fn gateway_commands(
    ssid: Seq<char>,
    password: Seq<char>,
    host: Seq<char>,
    port: u16,
) -> Seq<SettingSpec> {
    (if ssid.len() > 0 {
        seq![
            SettingSpec {
                id: HubCommandId::SetWifiConfig,
                payload: host_protocol::string_field(ssid) + host_protocol::string_field(password),
            },
        ]
    } else {
        Seq::empty()
    }) + seq![
        SettingSpec {
            id: HubCommandId::SetGatewayConfig,
            payload: octets::le32(GATEWAY_FREQ_HZ) + seq![GATEWAY_SF] + octets::le32(
                GATEWAY_BW_KHZ,
            ) + seq![GATEWAY_CR] + octets::le16(port) + host_protocol::string_field(host),
        },
        SettingSpec { id: HubCommandId::SetMode, payload: seq![1u8] },
    ]
}

/// The settings of a hub in gateway mode, in the order in which they are sent.
pub fn gateway_settings(ssid: &str, password: &str, host: &str, port: u16) -> (r: Vec<Setting>)
    ensures
        said(r@) == gateway_commands(ssid@, password@, host@, port),
{
    let mut settings: Vec<Setting> = Vec::new();
    proof {
        octets::lemma_utf8_empty(ssid@);
    }
    if ssid.as_bytes().len() > 0 {
        settings.push(
            Setting {
                id: HubCommandId::SetWifiConfig,
                payload: wifi_config_payload(ssid, password),
            },
        );
    }
    settings.push(
        Setting {
            id: HubCommandId::SetGatewayConfig,
            payload: gateway_config_payload(
                GATEWAY_FREQ_HZ,
                GATEWAY_SF,
                GATEWAY_BW_KHZ,
                GATEWAY_CR,
                host,
                port,
            ),
        },
    );
    let mode: Vec<u8> = vec![1u8];
    assert(mode@ =~= seq![1u8]);
    settings.push(Setting { id: HubCommandId::SetMode, payload: mode });
    assert(said(settings@) =~= gateway_commands(ssid@, password@, host@, port));
    settings
}

/// The payload of SetMode for a mode by name; `None` for any other name.
pub fn mode_byte(mode: &str) -> (r: Option<u8>)
    ensures
        r == (if mode@ == "bridge"@ {
            Some(0u8)
        } else if mode@ == "gateway"@ {
            Some(1u8)
        } else {
            None
        }),
{
    if octets::same_text(mode, "bridge") {
        Some(0)
    } else if octets::same_text(mode, "gateway") {
        Some(1)
    } else {
        None
    }
}

/// Whether a hub is online: both links are up.
pub fn is_online(status: &HubStatus) -> (r: bool)
    ensures
        r == (status.wifi_state == CONNECTED && status.mqtt_state == CONNECTED),
{
    status.wifi_state == CONNECTED && status.mqtt_state == CONNECTED
}

/// Whether a payload gives away a password. An empty one cannot be given away.
pub fn gives_away(payload: &[u8], password: &str) -> (r: bool)
    ensures
        r == (password@.len() > 0 && acceptance::occurs(octets::utf8(password@), payload@)),
{
    proof {
        octets::lemma_utf8_empty(password@);
    }
    password.as_bytes().len() > 0 && contains(payload, password.as_bytes())
}

/// The last segment of a path.
pub open spec fn last_segment(path: Seq<u8>) -> Seq<u8>
    decreases path.len(),
{
    if path.len() == 0 || path.last() == 47 {
        Seq::empty()
    } else {
        last_segment(path.drop_last()).push(path.last())
    }
}

/// The hub id in a topic with this suffix: the last segment before it.
pub open spec fn id_in_topic(topic: Seq<u8>, suffix: Seq<u8>) -> Option<Seq<u8>> {
    if topic.len() >= suffix.len() && topic.skip(topic.len() - suffix.len()) == suffix {
        Some(last_segment(topic.take(topic.len() - suffix.len())))
    } else {
        None
    }
}

/// The hub id in a topic with this suffix; `None` for a topic without it.
pub fn hub_of_topic(topic: &str, suffix: &str) -> (r: Option<Vec<u8>>)
    ensures
        match r {
            Some(id) => id_in_topic(octets::utf8(topic@), octets::utf8(suffix@)) == Some(id@),
            None => id_in_topic(octets::utf8(topic@), octets::utf8(suffix@)) is None,
        },
{
    let bytes: &[u8] = topic.as_bytes();
    let tail: &[u8] = suffix.as_bytes();
    let total: usize = bytes.len();
    let n: usize = tail.len();
    if total < n {
        return None;
    }
    let end: usize = total - n;
    assert(bytes@.subrange(end as int, total as int) =~= bytes@.skip(end as int));
    if !octets::equal(&bytes[end..total], tail) {
        return None;
    }
    let mut from: usize = end;
    proof {
        assert(bytes@.take(end as int).take(end as int) =~= bytes@.take(end as int));
        assert(last_segment(bytes@.take(from as int)) + bytes@.subrange(from as int, end as int)
            =~= last_segment(bytes@.take(end as int)));
    }
    while from > 0 && bytes[from - 1] != 47
        invariant
            from <= end <= bytes@.len(),
            last_segment(bytes@.take(from as int)) + bytes@.subrange(from as int, end as int)
                == last_segment(bytes@.take(end as int)),
        decreases from,
    {
        proof {
            let path = bytes@.take(from as int);
            assert(path.drop_last() =~= bytes@.take(from - 1));
            assert(last_segment(path.drop_last()).push(path.last()) + bytes@.subrange(
                from as int,
                end as int,
            ) =~= last_segment(bytes@.take(from - 1)) + bytes@.subrange(from - 1, end as int));
        }
        from = from - 1;
    }
    let id: Vec<u8> = octets::part(bytes, from, end);
    proof {
        assert(last_segment(bytes@.take(from as int)) =~= Seq::<u8>::empty());
        assert(id@ =~= last_segment(bytes@.take(end as int)));
    }
    Some(id)
}

/// What the bridge check does next. Every step succeeds or fails.
#[derive(Debug, Clone, Copy, PartialEq, Eq, Structural)]
pub enum BridgeCheck {
    /// Send the settings.
    Provision,
    /// Restart the hub into them.
    Reboot,
    /// Wait until the hub is online.
    AwaitOnline,
    /// See the retained online status at the broker.
    AwaitStatus,
    /// Transmit an uplink from the node.
    SendUplink,
    /// See the uplink at the broker.
    AwaitUplink,
    /// Publish a downlink.
    SendDownlink,
    /// Hear the downlink at the node.
    HearDownlink,
    /// See the result at the broker.
    AwaitResult,
    /// Read the configuration back and see that it hides the password.
    ReadConfig,
    /// Everything worked.
    Passed,
    /// The check failed.
    Failed,
}

impl BridgeCheck {
    /// Where the check starts: a hub that is configured already is not
    /// provisioned again.
    pub fn start(skip_provision: bool) -> (r: Self)
        ensures
            r == (if skip_provision {
                BridgeCheck::AwaitOnline
            } else {
                BridgeCheck::Provision
            }),
    {
        if skip_provision {
            BridgeCheck::AwaitOnline
        } else {
            BridgeCheck::Provision
        }
    }

    /// The step after one that succeeded.
    pub open spec fn onwards(self) -> BridgeCheck {
        match self {
            BridgeCheck::Provision => BridgeCheck::Reboot,
            BridgeCheck::Reboot => BridgeCheck::AwaitOnline,
            BridgeCheck::AwaitOnline => BridgeCheck::AwaitStatus,
            BridgeCheck::AwaitStatus => BridgeCheck::SendUplink,
            BridgeCheck::SendUplink => BridgeCheck::AwaitUplink,
            BridgeCheck::AwaitUplink => BridgeCheck::SendDownlink,
            BridgeCheck::SendDownlink => BridgeCheck::HearDownlink,
            BridgeCheck::HearDownlink => BridgeCheck::AwaitResult,
            BridgeCheck::AwaitResult => BridgeCheck::ReadConfig,
            BridgeCheck::ReadConfig => BridgeCheck::Passed,
            BridgeCheck::Passed => BridgeCheck::Passed,
            BridgeCheck::Failed => BridgeCheck::Failed,
        }
    }

    /// The next step: the order is fixed, and any failure ends the check.
    pub fn next(self, succeeded: bool) -> (r: Self)
        ensures
            r == (if succeeded || self == BridgeCheck::Passed {
                self.onwards()
            } else {
                BridgeCheck::Failed
            }),
    {
        if !succeeded && self != BridgeCheck::Passed {
            return BridgeCheck::Failed;
        }
        match self {
            BridgeCheck::Provision => BridgeCheck::Reboot,
            BridgeCheck::Reboot => BridgeCheck::AwaitOnline,
            BridgeCheck::AwaitOnline => BridgeCheck::AwaitStatus,
            BridgeCheck::AwaitStatus => BridgeCheck::SendUplink,
            BridgeCheck::SendUplink => BridgeCheck::AwaitUplink,
            BridgeCheck::AwaitUplink => BridgeCheck::SendDownlink,
            BridgeCheck::SendDownlink => BridgeCheck::HearDownlink,
            BridgeCheck::HearDownlink => BridgeCheck::AwaitResult,
            BridgeCheck::AwaitResult => BridgeCheck::ReadConfig,
            BridgeCheck::ReadConfig => BridgeCheck::Passed,
            BridgeCheck::Passed => BridgeCheck::Passed,
            BridgeCheck::Failed => BridgeCheck::Failed,
        }
    }
}

/// What the gateway check does next. Every step succeeds or fails.
#[derive(Debug, Clone, Copy, PartialEq, Eq, Structural)]
pub enum GatewayCheck {
    /// Send the settings and restart the hub into them.
    Provision,
    /// Wait for a keepalive with a proper EUI.
    AwaitKeepalive,
    /// Wait for a stat report.
    AwaitReport,
    /// Send an immediate downlink and see it accepted.
    SendImmediate,
    /// Send a downlink for a time long past and see it refused.
    SendStale,
    /// Everything worked.
    Passed,
    /// The check failed.
    Failed,
}

impl GatewayCheck {
    /// Where the check starts: a hub that is configured already is not
    /// provisioned again.
    pub fn start(skip_provision: bool) -> (r: Self)
        ensures
            r == (if skip_provision {
                GatewayCheck::AwaitKeepalive
            } else {
                GatewayCheck::Provision
            }),
    {
        if skip_provision {
            GatewayCheck::AwaitKeepalive
        } else {
            GatewayCheck::Provision
        }
    }

    /// The step after one that succeeded.
    pub open spec fn onwards(self) -> GatewayCheck {
        match self {
            GatewayCheck::Provision => GatewayCheck::AwaitKeepalive,
            GatewayCheck::AwaitKeepalive => GatewayCheck::AwaitReport,
            GatewayCheck::AwaitReport => GatewayCheck::SendImmediate,
            GatewayCheck::SendImmediate => GatewayCheck::SendStale,
            GatewayCheck::SendStale => GatewayCheck::Passed,
            GatewayCheck::Passed => GatewayCheck::Passed,
            GatewayCheck::Failed => GatewayCheck::Failed,
        }
    }

    /// The next step: the order is fixed, and any failure ends the check.
    pub fn next(self, succeeded: bool) -> (r: Self)
        ensures
            r == (if succeeded || self == GatewayCheck::Passed {
                self.onwards()
            } else {
                GatewayCheck::Failed
            }),
    {
        if !succeeded && self != GatewayCheck::Passed {
            return GatewayCheck::Failed;
        }
        match self {
            GatewayCheck::Provision => GatewayCheck::AwaitKeepalive,
            GatewayCheck::AwaitKeepalive => GatewayCheck::AwaitReport,
            GatewayCheck::AwaitReport => GatewayCheck::SendImmediate,
            GatewayCheck::SendImmediate => GatewayCheck::SendStale,
            GatewayCheck::SendStale => GatewayCheck::Passed,
            GatewayCheck::Passed => GatewayCheck::Passed,
            GatewayCheck::Failed => GatewayCheck::Failed,
        }
    }
}

/// The hub id in a status topic is the one that the hub's topics are made of.
pub proof fn topics_lead_to_the_hub(base: Seq<u8>, id: Seq<u8>, suffix: Seq<u8>)
    requires
        base.len() > 0,
        base.last() == 47,
        forall|i: int| 0 <= i < id.len() ==> #[trigger] id[i] != 47,
    ensures
        id_in_topic(base + id + suffix, suffix) == Some(id),
{
    let topic = base + id + suffix;
    assert(topic.skip(topic.len() - suffix.len()) =~= suffix);
    assert(topic.take(topic.len() - suffix.len()) =~= base + id);
    lemma_last_segment(base, id);
}

proof fn lemma_last_segment(base: Seq<u8>, id: Seq<u8>)
    requires
        base.len() > 0,
        base.last() == 47,
        forall|i: int| 0 <= i < id.len() ==> #[trigger] id[i] != 47,
    ensures
        last_segment(base + id) == id,
    decreases id.len(),
{
    let path = base + id;
    if id.len() == 0 {
        assert(path =~= base);
        assert(last_segment(path) =~= id);
    } else {
        assert(path.drop_last() =~= base + id.drop_last());
        lemma_last_segment(base, id.drop_last());
        assert(path.last() == id.last());
        assert(id.drop_last().push(id.last()) =~= id);
    }
}

/// A hub in bridge mode is told the network and its password, the broker with its port
/// and no client id, and mode 0, in that order.
pub proof fn bridges_are_told_everything(
    ssid: &str,
    password: &str,
    host: &str,
    port: u16,
    r: Vec<Setting>,
)
    requires
        call_ensures(bridge_settings, (ssid, password, host, port), r),
        octets::utf8(ssid@).len() <= 32,
        octets::utf8(password@).len() <= 64,
        octets::utf8(host@).len() <= 64,
    ensures
        r@.len() == 3,
        ({
            let p = r@[0].payload@;
            let n = octets::utf8(ssid@).len() as int;
            let m = octets::utf8(password@).len() as int;
            &&& r@[0].id.byte() == 0x20
            &&& p.len() == 2 + n + m
            &&& p[0] == n
            &&& p.subrange(1, 1 + n) == octets::utf8(ssid@)
            &&& p[1 + n] == m
            &&& p.skip(2 + n) == octets::utf8(password@)
        }),
        ({
            let p = r@[1].payload@;
            let n = octets::utf8(host@).len() as int;
            &&& r@[1].id.byte() == 0x21
            &&& p.len() == 4 + n
            &&& p[0] + 256 * p[1] == port
            &&& p[2] == n
            &&& p.subrange(3, 3 + n) == octets::utf8(host@)
            &&& p[3 + n] == 0
        }),
        r@[2].id.byte() == 0x24,
        r@[2].payload@ == seq![0u8],
{
    octets::lemma_utf8_empty(Seq::empty());
    let told = bridge_commands(ssid@, password@, host@, port);
    assert(said(r@) == told);
    assert(said(r@).len() == r@.len());
    assert(told.len() == 3);
    assert(told[0] == r@[0]@ && told[1] == r@[1]@ && told[2] == r@[2]@);
}

/// A hub in gateway mode is told the network where one is named, then 868.1 MHz, SF7,
/// 125 kHz, 4/5 and the server with its port, and then mode 1.
pub proof fn gateways_are_told_everything(
    ssid: &str,
    password: &str,
    host: &str,
    port: u16,
    r: Vec<Setting>,
)
    requires
        call_ensures(gateway_settings, (ssid, password, host, port), r),
        octets::utf8(host@).len() <= 64,
    ensures
        ssid@.len() == 0 ==> r@.len() == 2,
        ssid@.len() > 0 ==> r@.len() == 3 && r@[0].id.byte() == 0x20 && r@[0].payload@
            == host_protocol::string_field(ssid@) + host_protocol::string_field(password@),
        ({
            let p = r@[r@.len() - 2].payload@;
            &&& r@[r@.len() - 2].id.byte() == 0x26
            &&& p.len() == 13 + octets::utf8(host@).len()
            &&& p[0] + 256 * p[1] + 65_536 * p[2] + 16_777_216 * p[3] == 868_100_000
            &&& p[4] == 7
            &&& p[5] + 256 * p[6] + 65_536 * p[7] + 16_777_216 * p[8] == 125
            &&& p[9] == 5
            &&& p[10] + 256 * p[11] == port
            &&& p[12] == octets::utf8(host@).len()
            &&& p.skip(13) == octets::utf8(host@)
        }),
        r@[r@.len() - 1].id.byte() == 0x24,
        r@[r@.len() - 1].payload@ == seq![1u8],
{
    let told = gateway_commands(ssid@, password@, host@, port);
    assert(said(r@) == told);
    assert(said(r@).len() == r@.len());
    assert(told[0] == r@[0]@ && told[1] == r@[1]@);
    if ssid@.len() > 0 {
        assert(told[2] == r@[2]@);
    }
}

/// `bridge` is mode 0, `gateway` mode 1, and no other name is a mode. A hub is online
/// with both links in state 2. A password is given away where its bytes occur.
pub proof fn answers_are_judged(
    mode: &str,
    byte: Option<u8>,
    status: &HubStatus,
    online: bool,
    payload: &[u8],
    password: &str,
    leaked: bool,
)
    requires
        call_ensures(mode_byte, (mode,), byte),
        call_ensures(is_online, (status,), online),
        call_ensures(gives_away, (payload, password), leaked),
    ensures
        mode@ == "bridge"@ ==> byte == Some(0u8),
        mode@ == "gateway"@ ==> byte == Some(1u8),
        mode@ != "bridge"@ && mode@ != "gateway"@ ==> byte is None,
        online <==> status.wifi_state == 2 && status.mqtt_state == 2,
        leaked <==> password@.len() > 0 && octets::has(payload@, octets::utf8(password@)),
{
    reveal_strlit("bridge");
    reveal_strlit("gateway");
    assert("bridge"@.len() == 6 && "gateway"@.len() == 7);
}

/// The steps of a bridge check that goes well, in order; after a failure nothing follows.
pub proof fn bridge_checks_run_in_order(step: BridgeCheck, ok: BridgeCheck, failed: BridgeCheck)
    requires
        call_ensures(BridgeCheck::next, (step, true), ok),
        call_ensures(BridgeCheck::next, (step, false), failed),
    ensures
        step == BridgeCheck::Provision ==> ok == BridgeCheck::Reboot,
        step == BridgeCheck::Reboot ==> ok == BridgeCheck::AwaitOnline,
        step == BridgeCheck::AwaitOnline ==> ok == BridgeCheck::AwaitStatus,
        step == BridgeCheck::AwaitStatus ==> ok == BridgeCheck::SendUplink,
        step == BridgeCheck::SendUplink ==> ok == BridgeCheck::AwaitUplink,
        step == BridgeCheck::AwaitUplink ==> ok == BridgeCheck::SendDownlink,
        step == BridgeCheck::SendDownlink ==> ok == BridgeCheck::HearDownlink,
        step == BridgeCheck::HearDownlink ==> ok == BridgeCheck::AwaitResult,
        step == BridgeCheck::AwaitResult ==> ok == BridgeCheck::ReadConfig,
        step == BridgeCheck::ReadConfig ==> ok == BridgeCheck::Passed,
        step == BridgeCheck::Failed ==> ok == BridgeCheck::Failed,
        step != BridgeCheck::Passed ==> failed == BridgeCheck::Failed,
        step == BridgeCheck::Passed ==> ok == BridgeCheck::Passed && failed == BridgeCheck::Passed,
{
}

/// The steps of a gateway check that goes well, in order; after a failure nothing follows.
pub proof fn gateway_checks_run_in_order(
    step: GatewayCheck,
    ok: GatewayCheck,
    failed: GatewayCheck,
)
    requires
        call_ensures(GatewayCheck::next, (step, true), ok),
        call_ensures(GatewayCheck::next, (step, false), failed),
    ensures
        step == GatewayCheck::Provision ==> ok == GatewayCheck::AwaitKeepalive,
        step == GatewayCheck::AwaitKeepalive ==> ok == GatewayCheck::AwaitReport,
        step == GatewayCheck::AwaitReport ==> ok == GatewayCheck::SendImmediate,
        step == GatewayCheck::SendImmediate ==> ok == GatewayCheck::SendStale,
        step == GatewayCheck::SendStale ==> ok == GatewayCheck::Passed,
        step == GatewayCheck::Failed ==> ok == GatewayCheck::Failed,
        step != GatewayCheck::Passed ==> failed == GatewayCheck::Failed,
        step == GatewayCheck::Passed ==> ok == GatewayCheck::Passed && failed
            == GatewayCheck::Passed,
{
}

/// A check of a configured hub skips the provisioning.
pub proof fn checks_may_skip_the_provisioning(
    skip: bool,
    bridge: BridgeCheck,
    gateway: GatewayCheck,
)
    requires
        call_ensures(BridgeCheck::start, (skip,), bridge),
        call_ensures(GatewayCheck::start, (skip,), gateway),
    ensures
        skip ==> bridge == BridgeCheck::AwaitOnline && gateway == GatewayCheck::AwaitKeepalive,
        !skip ==> bridge == BridgeCheck::Provision && gateway == GatewayCheck::Provision,
{
}

} // verus!
