//! Hub provisioning API client.
//!
//! All network access sits behind [`HubApi`], so that the engine works on any
//! hub, among them [`FakeHub`], which needs no hardware.
use crate::configurator::models::{
    ApplyOutcome, ConfigUpdate, ConfigViewSpec, HubConfigView, HubStatusView, StatusViewSpec,
    UpdateSpec,
};
use crate::decimal;
use crate::octets;
use vstd::prelude::*;

verus! {

/// Why a call failed.
#[derive(Debug, PartialEq, Eq)]
pub enum ApiError {
    /// The hub did not answer (wrong network, wrong address, asleep).
    Unreachable(String),
    /// The hub answered but rejected the request.
    Rejected(String),
}

/// What an [`ApiError`] says.
pub enum ErrorSpec {
    /// The hub did not answer.
    Unreachable(Seq<char>),
    /// The hub rejected the request.
    Rejected(Seq<char>),
}

impl View for ApiError {
    type V = ErrorSpec;

    open spec fn view(&self) -> ErrorSpec {
        match self {
            ApiError::Unreachable(detail) => ErrorSpec::Unreachable(detail@),
            ApiError::Rejected(detail) => ErrorSpec::Rejected(detail@),
        }
    }
}

impl Clone for ApiError {
    fn clone(&self) -> (r: Self)
        ensures
            r@ == self@,
    {
        match self {
            ApiError::Unreachable(detail) => ApiError::Unreachable(detail.clone()),
            ApiError::Rejected(detail) => ApiError::Rejected(detail.clone()),
        }
    }
}

impl ErrorSpec {
    /// The error in words.
    pub open spec fn message(self) -> Seq<char> {
        match self {
            ErrorSpec::Unreachable(detail) => "hub unreachable: "@ + detail,
            ErrorSpec::Rejected(detail) => "hub rejected the request: "@ + detail,
        }
    }
}

impl ApiError {
    /// The error in words.
    pub fn message(&self) -> (r: String)
        ensures
            r@ == self@.message(),
    {
        match self {
            ApiError::Unreachable(detail) => "hub unreachable: ".to_owned().concat(
                detail.as_str(),
            ),
            ApiError::Rejected(detail) => "hub rejected the request: ".to_owned().concat(
                detail.as_str(),
            ),
        }
    }

    /// The error of an HTTP status that says no: the hub spoke, so it is
    /// reachable.
    pub fn from_status(code: u16) -> (r: Self)
        ensures
            r@ == ErrorSpec::Rejected(
                "HTTP "@ + octets::ascii_chars(decimal::digits(code as nat)),
            ),
    {
        ApiError::Rejected("HTTP ".to_owned().concat(number_text(code as u64).as_str()))
    }
}

/// A number in decimal.
pub fn number_text(n: u64) -> (r: String)
    ensures
        r@ == octets::ascii_chars(decimal::digits(n as nat)),
{
    let mut out: Vec<u8> = Vec::new();
    decimal::append(&mut out, n);
    assert(out@ =~= decimal::digits(n as nat));
    proof {
        decimal::lemma_digits_parsed(n as nat);
        assert forall|i: int| 0 <= i < out@.len() implies #[trigger] out@[i] < 128 by {
            assert(decimal::is_digit(out@[i]));
        }
    }
    octets::ascii_text(out.as_slice()).to_owned()
}

/// What a configuration call came to.
pub open spec fn config_result(r: Result<HubConfigView, ApiError>) -> Result<
    ConfigViewSpec,
    ErrorSpec,
> {
    match r {
        Ok(config) => Ok(config@),
        Err(error) => Err(error@),
    }
}

/// What a status call came to.
pub open spec fn status_result(r: Result<HubStatusView, ApiError>) -> Result<
    StatusViewSpec,
    ErrorSpec,
> {
    match r {
        Ok(status) => Ok(status@),
        Err(error) => Err(error@),
    }
}

/// What an update came to.
pub open spec fn apply_result(r: Result<ApplyOutcome, ApiError>) -> Result<
    ApplyOutcome,
    ErrorSpec,
> {
    match r {
        Ok(outcome) => Ok(outcome),
        Err(error) => Err(error@),
    }
}

/// A hub behind its provisioning API. The relations say what a hub may answer:
/// anything, unless an implementation says more.
pub trait HubApi {
    /// Whether the hub may answer a request for its configuration with this.
    open spec fn serves_config(&self, result: Result<ConfigViewSpec, ErrorSpec>) -> bool {
        true
    }

    /// Whether the hub may answer a request for its status with this.
    open spec fn serves_status(&self, result: Result<StatusViewSpec, ErrorSpec>) -> bool {
        true
    }

    /// Whether the hub may answer an update with this and be like `after` then.
    open spec fn takes_update(
        &self,
        update: UpdateSpec,
        result: Result<ApplyOutcome, ErrorSpec>,
        after: &Self,
    ) -> bool {
        true
    }

    /// Fetch the configuration.
    fn fetch_config(&self) -> (r: Result<HubConfigView, ApiError>)
        ensures
            self.serves_config(config_result(r)),
    ;

    /// Fetch the live status.
    fn fetch_status(&self) -> (r: Result<HubStatusView, ApiError>)
        ensures
            self.serves_status(status_result(r)),
    ;

    /// Apply an update.
    fn apply_config(&mut self, update: ConfigUpdate) -> (r: Result<ApplyOutcome, ApiError>)
        ensures
            old(self).takes_update(update@, apply_result(r), final(self)),
    ;
}

/// In-memory hub for the app's dev/mock mode: behaves like a freshly booted,
/// unprovisioned hub and remembers what is saved to it.
pub struct FakeHub {
    state: HubConfigView,
}

impl View for FakeHub {
    type V = ConfigViewSpec;

    closed spec fn view(&self) -> ConfigViewSpec {
        self.state@
    }
}

impl ConfigViewSpec {
    /// The configuration of a freshly booted, unprovisioned hub.
    pub open spec fn unprovisioned() -> ConfigViewSpec {
        ConfigViewSpec {
            mode: "bridge"@,
            wifi_ssid: Seq::empty(),
            mqtt_host: Seq::empty(),
            mqtt_port: 1883,
            client_id: Seq::empty(),
            gw_freq_hz: 868_100_000,
            gw_sf: 7,
            gw_bw_khz: 125,
            gw_cr: 5,
            gw_host: Seq::empty(),
            gw_port: 1700,
        }
    }

    /// The configuration after an update: only the present fields change.
    pub open spec fn updated(self, update: UpdateSpec) -> ConfigViewSpec {
        ConfigViewSpec {
            mode: given_or(update.mode, self.mode),
            wifi_ssid: given_or(update.wifi_ssid, self.wifi_ssid),
            mqtt_host: given_or(update.mqtt_host, self.mqtt_host),
            mqtt_port: given_or(update.mqtt_port, self.mqtt_port),
            client_id: given_or(update.client_id, self.client_id),
            gw_freq_hz: given_or(update.gw_freq_hz, self.gw_freq_hz),
            gw_sf: given_or(update.gw_sf, self.gw_sf),
            gw_bw_khz: given_or(update.gw_bw_khz, self.gw_bw_khz),
            gw_cr: given_or(update.gw_cr, self.gw_cr),
            gw_host: given_or(update.gw_host, self.gw_host),
            gw_port: given_or(update.gw_port, self.gw_port),
        }
    }
}

/// What is given, or what was there.
pub open spec fn given_or<T>(given: Option<T>, current: T) -> T {
    match given {
        Some(value) => value,
        None => current,
    }
}

/// The status of the in-memory hub: connected once it has a network name.
pub open spec fn fake_status(config: ConfigViewSpec) -> StatusViewSpec {
    let provisioned = config.wifi_ssid.len() > 0;
    StatusViewSpec {
        wifi_state: if provisioned {
            2
        } else {
            0
        },
        mqtt_state: if provisioned {
            2
        } else {
            0
        },
        ip: if provisioned {
            "192.168.1.50"@
        } else {
            "0.0.0.0"@
        },
        uplink: 12,
        downlink: 3,
        dropped: 0,
        uptime_secs: 4200,
    }
}

impl FakeHub {
    /// A freshly booted, unprovisioned hub.
    pub fn new() -> (r: Self)
        ensures
            r@ == ConfigViewSpec::unprovisioned(),
    {
        let hub: FakeHub = FakeHub {
            state: HubConfigView {
                mode: "bridge".to_owned(),
                wifi_ssid: String::new(),
                mqtt_host: String::new(),
                mqtt_port: 1883,
                client_id: String::new(),
                gw_freq_hz: 868_100_000,
                gw_sf: 7,
                gw_bw_khz: 125,
                gw_cr: 5,
                gw_host: String::new(),
                gw_port: 1700,
            },
        };
        assert(hub@ =~= ConfigViewSpec::unprovisioned());
        hub
    }
}

impl Default for FakeHub {
    fn default() -> (r: Self)
        ensures
            r@ == ConfigViewSpec::unprovisioned(),
    {
        Self::new()
    }
}

impl HubApi for FakeHub {
    open spec fn serves_config(&self, result: Result<ConfigViewSpec, ErrorSpec>) -> bool {
        result == Ok::<ConfigViewSpec, ErrorSpec>(self@)
    }

    open spec fn serves_status(&self, result: Result<StatusViewSpec, ErrorSpec>) -> bool {
        result == Ok::<StatusViewSpec, ErrorSpec>(fake_status(self@))
    }

    open spec fn takes_update(
        &self,
        update: UpdateSpec,
        result: Result<ApplyOutcome, ErrorSpec>,
        after: &Self,
    ) -> bool {
        result == Ok::<ApplyOutcome, ErrorSpec>(ApplyOutcome { ok: true, rebooting: true })
            && after@ == self@.updated(update)
    }

    fn fetch_config(&self) -> (r: Result<HubConfigView, ApiError>) {
        Ok(self.state.clone())
    }

    fn fetch_status(&self) -> (r: Result<HubStatusView, ApiError>) {
        proof {
            octets::lemma_utf8_empty(self.state.wifi_ssid@);
        }
        let provisioned: bool = self.state.wifi_ssid.as_str().as_bytes().len() > 0;
        let state: u8 = if provisioned {
            2
        } else {
            0
        };
        let ip: String = if provisioned {
            "192.168.1.50".to_owned()
        } else {
            "0.0.0.0".to_owned()
        };
        Ok(
            HubStatusView {
                wifi_state: state,
                mqtt_state: state,
                ip,
                uplink: 12,
                downlink: 3,
                dropped: 0,
                uptime_secs: 4200,
            },
        )
    }

    fn apply_config(&mut self, update: ConfigUpdate) -> (r: Result<ApplyOutcome, ApiError>) {
        let ghost before = self@;
        let ghost asked = update@;
        if let Some(ssid) = update.wifi_ssid {
            self.state.wifi_ssid = ssid;
        }
        if let Some(host) = update.mqtt_host {
            self.state.mqtt_host = host;
        }
        if let Some(port) = update.mqtt_port {
            self.state.mqtt_port = port;
        }
        if let Some(id) = update.client_id {
            self.state.client_id = id;
        }
        if let Some(mode) = update.mode {
            self.state.mode = mode;
        }
        if let Some(freq) = update.gw_freq_hz {
            self.state.gw_freq_hz = freq;
        }
        if let Some(sf) = update.gw_sf {
            self.state.gw_sf = sf;
        }
        if let Some(bw) = update.gw_bw_khz {
            self.state.gw_bw_khz = bw;
        }
        if let Some(cr) = update.gw_cr {
            self.state.gw_cr = cr;
        }
        if let Some(host) = update.gw_host {
            self.state.gw_host = host;
        }
        if let Some(port) = update.gw_port {
            self.state.gw_port = port;
        }
        assert(self@ =~= before.updated(asked));
        Ok(ApplyOutcome { ok: true, rebooting: true })
    }
}

/// What is saved to the in-memory hub is what it has afterwards: a second save of
/// the same changes nothing, and a field that is not given stays.
pub proof fn saves_are_remembered(config: ConfigViewSpec, update: UpdateSpec)
    ensures
        config.updated(update).updated(update) == config.updated(update),
        update.wifi_ssid is None ==> config.updated(update).wifi_ssid == config.wifi_ssid,
        update.wifi_ssid is Some ==> config.updated(update).wifi_ssid
            == update.wifi_ssid->Some_0,
{
}

/// Every field that an update gives is taken over, and every other one stays.
pub proof fn updates_set_what_they_give(config: ConfigViewSpec, update: UpdateSpec)
    ensures
        ({
            let after = config.updated(update);
            &&& after.mode == (if update.mode is Some { update.mode->Some_0 } else { config.mode })
            &&& after.wifi_ssid == (if update.wifi_ssid is Some {
                update.wifi_ssid->Some_0
            } else {
                config.wifi_ssid
            })
            &&& after.mqtt_host == (if update.mqtt_host is Some {
                update.mqtt_host->Some_0
            } else {
                config.mqtt_host
            })
            &&& after.mqtt_port == (if update.mqtt_port is Some {
                update.mqtt_port->Some_0
            } else {
                config.mqtt_port
            })
            &&& after.client_id == (if update.client_id is Some {
                update.client_id->Some_0
            } else {
                config.client_id
            })
            &&& after.gw_freq_hz == (if update.gw_freq_hz is Some {
                update.gw_freq_hz->Some_0
            } else {
                config.gw_freq_hz
            })
            &&& after.gw_sf == (if update.gw_sf is Some {
                update.gw_sf->Some_0
            } else {
                config.gw_sf
            })
            &&& after.gw_bw_khz == (if update.gw_bw_khz is Some {
                update.gw_bw_khz->Some_0
            } else {
                config.gw_bw_khz
            })
            &&& after.gw_cr == (if update.gw_cr is Some {
                update.gw_cr->Some_0
            } else {
                config.gw_cr
            })
            &&& after.gw_host == (if update.gw_host is Some {
                update.gw_host->Some_0
            } else {
                config.gw_host
            })
            &&& after.gw_port == (if update.gw_port is Some {
                update.gw_port->Some_0
            } else {
                config.gw_port
            })
        }),
{
}

/// The in-memory hub takes every update and says that it restarts, serves what it has,
/// and is connected exactly when it has a network name.
pub proof fn the_fake_hub_is_a_hub(
    hub: &mut FakeHub,
    update: ConfigUpdate,
    r: Result<ApplyOutcome, ApiError>,
    asked: &FakeHub,
    config: Result<HubConfigView, ApiError>,
    status: Result<HubStatusView, ApiError>,
)
    requires
        old(hub).takes_update(update@, apply_result(r), final(hub)),
        asked.serves_config(config_result(config)),
        asked.serves_status(status_result(status)),
    ensures
        r matches Ok(outcome) && outcome.ok && outcome.rebooting,
        final(hub)@ == old(hub)@.updated(update@),
        config is Ok && config->Ok_0@ == asked@,
        status is Ok,
        asked@.wifi_ssid.len() > 0 ==> status->Ok_0@.wifi_state == 2 && status->Ok_0@.mqtt_state
            == 2 && status->Ok_0@.ip == "192.168.1.50"@,
        asked@.wifi_ssid.len() == 0 ==> status->Ok_0@.wifi_state == 0 && status->Ok_0@.mqtt_state
            == 0 && status->Ok_0@.ip == "0.0.0.0"@,
        status->Ok_0@.uplink == 12 && status->Ok_0@.downlink == 3 && status->Ok_0@.dropped == 0,
        status->Ok_0@.uptime_secs == 4200,
{
}

/// The in-memory hub starts as a bridge without a network, with broker port 1883 and the
/// standard gateway channel.
pub proof fn the_fake_hub_starts_unprovisioned(r: FakeHub)
    requires
        call_ensures(FakeHub::new, (), r),
    ensures
        r@.mode == "bridge"@,
        r@.wifi_ssid.len() == 0 && r@.mqtt_host.len() == 0 && r@.client_id.len() == 0,
        r@.mqtt_port == 1883,
        r@.gw_freq_hz == 868_100_000 && r@.gw_sf == 7 && r@.gw_bw_khz == 125 && r@.gw_cr == 5,
        r@.gw_host.len() == 0 && r@.gw_port == 1700,
{
}

/// An error says whether the hub could not be reached or said no, and the detail; a
/// status that says no names its code.
pub proof fn errors_are_put_into_words(
    detail: String,
    unreachable_text: String,
    rejected_text: String,
    code: u16,
    status: ApiError,
)
    requires
        call_ensures(ApiError::message, (&ApiError::Unreachable(detail),), unreachable_text),
        call_ensures(ApiError::message, (&ApiError::Rejected(detail),), rejected_text),
        call_ensures(ApiError::from_status, (code,), status),
    ensures
        unreachable_text@ == "hub unreachable: "@ + detail@,
        rejected_text@ == "hub rejected the request: "@ + detail@,
        status@ == ErrorSpec::Rejected("HTTP "@ + octets::ascii_chars(decimal::digits(code as nat))),
{
}

} // verus!
