//! Orchestration over the hub API: validation before writes, combined reads.
use crate::configurator::client;
use crate::configurator::client::{number_text, ApiError, ErrorSpec, HubApi};
use crate::configurator::models::{
    ApplyOutcome, ConfigUpdate, ConfigViewSpec, HubConfigView, HubSnapshot, HubStatusView,
    StatusViewSpec, UpdateSpec,
};
use crate::decimal;
use crate::hub_config;
use crate::hub_config::ConfigSpec;
use crate::hub_protocol::types::{
    MAX_CLIENT_ID_LEN, MAX_HOST_LEN, MAX_PASSWORD_LEN, MAX_SSID_LEN,
};
use crate::octets;
use crate::portal::http;
use vstd::prelude::*;

verus! {

/// What is wrong with the length of a text, if anything: it counts in bytes.
pub open spec fn length_complaint(
    value: Option<Seq<char>>,
    max: usize,
    what: Seq<char>,
) -> Option<Seq<char>> {
    match value {
        Some(text) => if octets::utf8(text).len() > max {
            Some(
                what + " is longer than "@ + octets::ascii_chars(decimal::digits(max as nat))
                    + " bytes"@,
            )
        } else {
            None
        },
        None => None,
    }
}

/// What is wrong with the lengths of an update, if anything: the first that is.
pub open spec fn lengths_complaint(update: UpdateSpec) -> Option<Seq<char>> {
    let ssid = length_complaint(update.wifi_ssid, MAX_SSID_LEN, "WiFi name"@);
    let password = length_complaint(update.wifi_password, MAX_PASSWORD_LEN, "WiFi password"@);
    let host = length_complaint(update.mqtt_host, MAX_HOST_LEN, "broker host"@);
    let client_id = length_complaint(update.client_id, MAX_CLIENT_ID_LEN, "client id"@);
    if ssid is Some {
        ssid
    } else if password is Some {
        password
    } else if host is Some {
        host
    } else if client_id is Some {
        client_id
    } else {
        length_complaint(update.gw_host, MAX_HOST_LEN, "network server host"@)
    }
}

/// What is wrong with the values of an update, if anything: the first that is.
pub open spec fn values_complaint(update: UpdateSpec) -> Option<Seq<char>> {
    if update.mqtt_port == Some(0u16) || update.gw_port == Some(0u16) {
        Some("port cannot be 0"@)
    } else if update.mode is Some && update.mode->Some_0 != "bridge"@ && update.mode->Some_0
        != "gateway"@ {
        Some("mode must be bridge or gateway"@)
    } else if update.gw_sf is Some && !(7 <= update.gw_sf->Some_0 <= 12) {
        Some("spreading factor must be 7 to 12"@)
    } else if update.gw_bw_khz is Some && update.gw_bw_khz->Some_0 != 125
        && update.gw_bw_khz->Some_0 != 250 && update.gw_bw_khz->Some_0 != 500 {
        Some("bandwidth must be 125, 250 or 500 kHz"@)
    } else if update.gw_freq_hz is Some && !(150_000_000 <= update.gw_freq_hz->Some_0
        <= 960_000_000) {
        Some("frequency out of the radio's range"@)
    } else if update.gw_cr is Some && !(5 <= update.gw_cr->Some_0 <= 8) {
        Some("coding rate must be 5 to 8"@)
    } else {
        None
    }
}

/// What is wrong with an update, if anything.
pub open spec fn complaint(update: UpdateSpec) -> Option<Seq<char>> {
    match lengths_complaint(update) {
        Some(message) => Some(message),
        None => values_complaint(update),
    }
}

/// What a result says is wrong, if anything.
pub open spec fn complaint_of(r: Result<(), String>) -> Option<Seq<char>> {
    match r {
        Ok(_) => None,
        Err(message) => Some(message@),
    }
}

fn check_len(value: &Option<String>, max: usize, what: &str) -> (r: Result<(), String>)
    ensures
        complaint_of(r) == length_complaint(
            match value {
                Some(text) => Some(text@),
                None => None,
            },
            max,
            what@,
        ),
{
    match value {
        Some(text) => if text.as_str().as_bytes().len() > max {
            let mut message: String = what.to_owned();
            message.append(" is longer than ");
            message.append(number_text(max as u64).as_str());
            message.append(" bytes");
            Err(message)
        } else {
            Ok(())
        },
        None => Ok(()),
    }
}

/// Validate an update against the same limits the firmware enforces, so bad
/// values fail in the app with a readable message instead of a 400.
pub fn validate_update(update: &ConfigUpdate) -> (r: Result<(), String>)
    ensures
        complaint_of(r) == complaint(update@),
{
    check_len(&update.wifi_ssid, MAX_SSID_LEN, "WiFi name")?;
    check_len(&update.wifi_password, MAX_PASSWORD_LEN, "WiFi password")?;
    check_len(&update.mqtt_host, MAX_HOST_LEN, "broker host")?;
    check_len(&update.client_id, MAX_CLIENT_ID_LEN, "client id")?;
    check_len(&update.gw_host, MAX_HOST_LEN, "network server host")?;
    check_values(update)
}

fn check_values(update: &ConfigUpdate) -> (r: Result<(), String>)
    ensures
        complaint_of(r) == values_complaint(update@),
{
    let mqtt_port_zero: bool = match update.mqtt_port {
        Some(port) => port == 0,
        None => false,
    };
    let gw_port_zero: bool = match update.gw_port {
        Some(port) => port == 0,
        None => false,
    };
    if mqtt_port_zero || gw_port_zero {
        return Err("port cannot be 0".to_owned());
    }
    if let Some(mode) = &update.mode {
        if !octets::same_text(mode.as_str(), "bridge") && !octets::same_text(
            mode.as_str(),
            "gateway",
        ) {
            return Err("mode must be bridge or gateway".to_owned());
        }
    }
    if let Some(sf) = update.gw_sf {
        if sf < 7 || sf > 12 {
            return Err("spreading factor must be 7 to 12".to_owned());
        }
    }
    if let Some(bw) = update.gw_bw_khz {
        if bw != 125 && bw != 250 && bw != 500 {
            return Err("bandwidth must be 125, 250 or 500 kHz".to_owned());
        }
    }
    if let Some(freq) = update.gw_freq_hz {
        if freq < 150_000_000 || freq > 960_000_000 {
            return Err("frequency out of the radio's range".to_owned());
        }
    }
    if let Some(cr) = update.gw_cr {
        if cr < 5 || cr > 8 {
            return Err("coding rate must be 5 to 8".to_owned());
        }
    }
    Ok(())
}

/// What a snapshot comes to, from its two halves: the first error, in words.
pub open spec fn snapshot_of(
    config: Result<ConfigViewSpec, ErrorSpec>,
    status: Result<StatusViewSpec, ErrorSpec>,
) -> Result<(ConfigViewSpec, StatusViewSpec), Seq<char>> {
    match config {
        Err(error) => Err(error.message()),
        Ok(config) => match status {
            Err(error) => Err(error.message()),
            Ok(status) => Ok((config, status)),
        },
    }
}

/// What a snapshot says.
pub open spec fn snapshot_result(r: Result<HubSnapshot, String>) -> Result<
    (ConfigViewSpec, StatusViewSpec),
    Seq<char>,
> {
    match r {
        Ok(snapshot) => Ok((snapshot.config@, snapshot.status@)),
        Err(message) => Err(message@),
    }
}

/// A snapshot from its two halves.
pub fn snapshot(
    config: Result<HubConfigView, ApiError>,
    status: Result<HubStatusView, ApiError>,
) -> (r: Result<HubSnapshot, String>)
    ensures
        snapshot_result(r) == snapshot_of(
            client::config_result(config),
            client::status_result(status),
        ),
{
    match config {
        Err(error) => Err(error.message()),
        Ok(config) => match status {
            Err(error) => Err(error.message()),
            Ok(status) => Ok(HubSnapshot { config, status }),
        },
    }
}

/// One round trip for the connect screen: config plus live status. The status is
/// asked for only when the configuration came.
pub fn load_snapshot<A: HubApi>(api: &A) -> (r: Result<HubSnapshot, String>)
    ensures
        exists|config: Result<ConfigViewSpec, ErrorSpec>|
            #![trigger api.serves_config(config)]
            api.serves_config(config) && (match config {
                Err(error) => snapshot_result(r) == Err::<
                    (ConfigViewSpec, StatusViewSpec),
                    Seq<char>,
                >(error.message()),
                Ok(_) => exists|status: Result<StatusViewSpec, ErrorSpec>| #[trigger]
                    api.serves_status(status) && snapshot_result(r) == snapshot_of(config, status),
            }),
{
    let config: Result<HubConfigView, ApiError> = api.fetch_config();
    let ghost config_seen = client::config_result(config);
    assert(api.serves_config(config_seen));
    if let Err(error) = &config {
        return Err(error.message());
    }
    let status: Result<HubStatusView, ApiError> = api.fetch_status();
    assert(api.serves_status(client::status_result(status)));
    snapshot(config, status)
}

/// What saving an update comes to, from the hub's answer: its outcome, or the
/// error in words.
pub open spec fn saved_of(result: Result<ApplyOutcome, ErrorSpec>) -> Result<
    ApplyOutcome,
    Seq<char>,
> {
    match result {
        Ok(outcome) => Ok(outcome),
        Err(error) => Err(error.message()),
    }
}

/// What a save says.
pub open spec fn saved_result(r: Result<ApplyOutcome, String>) -> Result<ApplyOutcome, Seq<char>> {
    match r {
        Ok(outcome) => Ok(outcome),
        Err(message) => Err(message@),
    }
}

/// What saving an update comes to, from the hub's answer.
pub fn saved(result: Result<ApplyOutcome, ApiError>) -> (r: Result<ApplyOutcome, String>)
    ensures
        saved_result(r) == saved_of(client::apply_result(result)),
{
    match result {
        Ok(outcome) => Ok(outcome),
        Err(error) => Err(error.message()),
    }
}

/// Validate, then apply. The hub reboots itself on success. An update that does
/// not pass validation never reaches the hub.
pub fn save_config<A: HubApi>(api: &mut A, update: ConfigUpdate) -> (r: Result<
    ApplyOutcome,
    String,
>)
    ensures
        match complaint(update@) {
            Some(message) => saved_result(r) == Err::<ApplyOutcome, Seq<char>>(message)
                && *final(api) == *old(api),
            None => exists|result: Result<ApplyOutcome, ErrorSpec>| #[trigger]
                old(api).takes_update(update@, result, final(api)) && saved_result(r) == saved_of(
                    result,
                ),
        },
{
    validate_update(&update)?;
    let ghost asked = update@;
    let result: Result<ApplyOutcome, ApiError> = api.apply_config(update);
    assert(old(api).takes_update(asked, client::apply_result(result), api));
    saved(result)
}

/// Whether the hub reads an update as it was written.
pub open spec fn read_as(update: UpdateSpec, body: http::ConfigUpdate) -> bool {
    &&& same_text(update.wifi_ssid, body.wifi_ssid)
    &&& same_text(update.wifi_password, body.wifi_password)
    &&& same_text(update.mqtt_host, body.mqtt_host)
    &&& update.mqtt_port == body.mqtt_port
    &&& same_text(update.client_id, body.client_id)
    &&& same_text(update.mode, body.mode)
    &&& update.gw_freq_hz == body.gw_freq_hz
    &&& update.gw_sf == body.gw_sf
    &&& update.gw_bw_khz == body.gw_bw_khz
    &&& update.gw_cr == body.gw_cr
    &&& same_text(update.gw_host, body.gw_host)
    &&& update.gw_port == body.gw_port
}

/// Whether an optional text is the same on both sides.
pub open spec fn same_text(written: Option<Seq<char>>, read: Option<&str>) -> bool {
    match (written, read) {
        (Some(written), Some(read)) => written == read@,
        (None, None) => true,
        _ => false,
    }
}

/// The app validates by the limits that the firmware enforces: an update that
/// passes fits the hub's fields, and none of its commands is refused as invalid.
pub proof fn validated_updates_are_accepted(
    update: UpdateSpec,
    body: http::ConfigUpdate,
    current: ConfigSpec,
    pending: ConfigSpec,
    defaults: ConfigSpec,
    k: int,
)
    requires
        complaint(update) is None,
        read_as(update, body),
        hub_config::gateway_valid(current.gateway),
        current.mqtt.port != 0,
        0 <= k < body.commands(current).len(),
    ensures
        body.fits(),
        hub_config::applied(pending, body.commands(current)[k], defaults).1 is Ok,
{
}

/// An update passes exactly when every given text and number is within its limit: 32
/// bytes for the network's name, 64 for its password, 64 for each host and 32 for the
/// client id, ports other than 0, one of the two modes, spreading factor 7 to 12,
/// bandwidth 125, 250 or 500 kHz, 150 to 960 MHz and coding rate 5 to 8.
pub proof fn updates_are_checked(update: &ConfigUpdate, r: Result<(), String>)
    requires
        call_ensures(validate_update, (update,), r),
    ensures
        r is Ok <==> {
            let u = update@;
            &&& u.wifi_ssid matches Some(text) ==> octets::utf8(text).len() <= 32
            &&& u.wifi_password matches Some(text) ==> octets::utf8(text).len() <= 64
            &&& u.mqtt_host matches Some(text) ==> octets::utf8(text).len() <= 64
            &&& u.client_id matches Some(text) ==> octets::utf8(text).len() <= 32
            &&& u.gw_host matches Some(text) ==> octets::utf8(text).len() <= 64
            &&& u.mqtt_port != Some(0u16)
            &&& u.gw_port != Some(0u16)
            &&& u.mode matches Some(mode) ==> mode == "bridge"@ || mode == "gateway"@
            &&& u.gw_sf matches Some(sf) ==> 7 <= sf <= 12
            &&& u.gw_bw_khz matches Some(bw) ==> bw == 125 || bw == 250 || bw == 500
            &&& u.gw_freq_hz matches Some(freq) ==> 150_000_000 <= freq <= 960_000_000
            &&& u.gw_cr matches Some(cr) ==> 5 <= cr <= 8
        },
{
}

/// A text that is too long is named with its limit, the network's name, its password, the
/// broker's host, the client id and the network server's host being looked at in that
/// order and before any number.
pub proof fn complaints_name_the_long_text(update: UpdateSpec)
    ensures
        ({
            let over = " is longer than "@;
            let short = octets::ascii_chars(decimal::digits(32)) + " bytes"@;
            let long = octets::ascii_chars(decimal::digits(64)) + " bytes"@;
            let ssid = update.wifi_ssid is Some && octets::utf8(update.wifi_ssid->Some_0).len()
                > 32;
            let password = update.wifi_password is Some && octets::utf8(
                update.wifi_password->Some_0,
            ).len() > 64;
            let host = update.mqtt_host is Some && octets::utf8(update.mqtt_host->Some_0).len()
                > 64;
            let client = update.client_id is Some && octets::utf8(update.client_id->Some_0).len()
                > 32;
            let server = update.gw_host is Some && octets::utf8(update.gw_host->Some_0).len() > 64;
            let said = complaint(update)->Some_0;
            &&& ssid ==> said =~= "WiFi name"@ + over + short
            &&& !ssid && password ==> said =~= "WiFi password"@ + over + long
            &&& !ssid && !password && host ==> said =~= "broker host"@ + over + long
            &&& !ssid && !password && !host && client ==> said =~= "client id"@ + over + short
            &&& !ssid && !password && !host && !client && server ==> said
                =~= "network server host"@ + over + long
            &&& ssid || password || host || client || server ==> complaint(update) is Some
        }),
{
}

/// With every text within its limit, the complaint names the first number or name that is
/// out of its range: the ports, the mode, the spreading factor, the bandwidth, the
/// frequency and the coding rate, in that order.
pub proof fn complaints_name_the_bad_value(update: UpdateSpec)
    requires
        lengths_complaint(update) is None,
    ensures
        ({
            let port = update.mqtt_port == Some(0u16) || update.gw_port == Some(0u16);
            let mode = update.mode is Some && update.mode->Some_0 != "bridge"@
                && update.mode->Some_0 != "gateway"@;
            let sf = update.gw_sf is Some && !(7 <= update.gw_sf->Some_0 <= 12);
            let bw = update.gw_bw_khz is Some && update.gw_bw_khz->Some_0 != 125
                && update.gw_bw_khz->Some_0 != 250 && update.gw_bw_khz->Some_0 != 500;
            let freq = update.gw_freq_hz is Some && !(150_000_000 <= update.gw_freq_hz->Some_0
                <= 960_000_000);
            let cr = update.gw_cr is Some && !(5 <= update.gw_cr->Some_0 <= 8);
            let said = complaint(update);
            &&& port ==> said == Some("port cannot be 0"@)
            &&& !port && mode ==> said == Some("mode must be bridge or gateway"@)
            &&& !port && !mode && sf ==> said == Some("spreading factor must be 7 to 12"@)
            &&& !port && !mode && !sf && bw ==> said == Some(
                "bandwidth must be 125, 250 or 500 kHz"@,
            )
            &&& !port && !mode && !sf && !bw && freq ==> said == Some(
                "frequency out of the radio's range"@,
            )
            &&& !port && !mode && !sf && !bw && !freq && cr ==> said == Some(
                "coding rate must be 5 to 8"@,
            )
        }),
{
}

/// A snapshot holds both halves as they came; without the configuration the complaint is
/// about the configuration, and without the status about the status.
pub proof fn snapshots_need_both_halves(
    config: Result<HubConfigView, ApiError>,
    status: Result<HubStatusView, ApiError>,
    r: Result<HubSnapshot, String>,
)
    requires
        call_ensures(snapshot, (config, status), r),
    ensures
        r is Ok <==> config is Ok && status is Ok,
        r matches Ok(both) ==> both.config@ == config->Ok_0@ && both.status@ == status->Ok_0@,
        config is Err ==> r is Err && r->Err_0@ == config->Err_0@.message(),
        config is Ok && status is Err ==> r is Err && r->Err_0@ == status->Err_0@.message(),
{
}

/// What the hub answered to an update is handed on, an error in words.
pub proof fn answers_are_handed_on(
    result: Result<ApplyOutcome, ApiError>,
    r: Result<ApplyOutcome, String>,
)
    requires
        call_ensures(saved, (result,), r),
    ensures
        result matches Ok(outcome) ==> r == Ok::<ApplyOutcome, String>(outcome),
        result matches Err(error) ==> r is Err && r->Err_0@ == error@.message(),
{
}

} // verus!
