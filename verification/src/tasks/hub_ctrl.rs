//! Hub control task decisions: provisioning and status over the host link.
//!
//! Commands apply to a pending copy of the configuration, changes are
//! persisted, and settings take effect on the next boot.
use crate::bounded::Bytes;
use crate::dispatcher::{CommandSource, MessageSpec, ResponseMessage};
use crate::hub_config;
use crate::hub_config::{
    apply_command, network_config_response, ConfigAction, ConfigSpec, HubConfig, StoreError,
};
use crate::hub_protocol::codec;
use crate::hub_protocol::types::{AckStatus, CommandSpec, HubCommand, HubResponse, ResponseSpec,
    StatusSpec};
use crate::net::stats::HubStats;
use crate::wire;
use vstd::prelude::*;

verus! {

/// What the store has to do before a command is answered.
#[derive(Debug, Clone, Copy, PartialEq, Eq, Structural)]
pub enum StoreCall {
    /// Save the pending configuration.
    Save,
    /// Erase the stored configuration.
    Clear,
}

/// What a command leads to.
pub enum ControlStep {
    /// Answer it at once.
    Respond(HubResponse),
    /// Run this on the store, then answer with [`stored`].
    Store(StoreCall),
}

/// What a [`ControlStep`] says.
pub enum ControlSpec {
    /// Answer at once.
    Respond(ResponseSpec),
    /// Run this on the store first.
    Store(StoreCall),
}

impl View for ControlStep {
    type V = ControlSpec;

    open spec fn view(&self) -> ControlSpec {
        match self {
            ControlStep::Respond(response) => ControlSpec::Respond(response@),
            ControlStep::Store(call) => ControlSpec::Store(*call),
        }
    }
}

/// The acknowledgement of a command.
pub open spec fn ack(status: AckStatus) -> ResponseSpec {
    ResponseSpec::ConfigAck(status)
}

/// What a command leads to: reads are answered at once, and so is a command
/// that is refused or that there is no store for. Other commands go through the
/// store.
pub open spec fn control(
    pending: ConfigSpec,
    defaults: ConfigSpec,
    command: CommandSpec,
    status: StatusSpec,
    has_store: bool,
) -> ControlSpec {
    match command {
        CommandSpec::GetNetworkConfig => ControlSpec::Respond(hub_config::network_config(pending)),
        CommandSpec::GetHubStatus => ControlSpec::Respond(ResponseSpec::HubStatus(status)),
        _ => match hub_config::applied(pending, command, defaults).1 {
            Err(refused) => ControlSpec::Respond(ack(refused)),
            Ok(action) => if !has_store {
                ControlSpec::Respond(ack(AckStatus::StorageError))
            } else {
                match action {
                    ConfigAction::Save => ControlSpec::Store(StoreCall::Save),
                    ConfigAction::Clear => ControlSpec::Store(StoreCall::Clear),
                    ConfigAction::Nothing => ControlSpec::Respond(ack(AckStatus::Success)),
                }
            },
        },
    }
}

/// The working copy of the configuration: starts as the active one and tracks
/// sets before the reboot.
pub struct HubControl {
    pending: HubConfig,
    defaults: HubConfig,
}

impl View for HubControl {
    type V = (ConfigSpec, ConfigSpec);

    /// The pending configuration and the defaults that clearing goes back to.
    closed spec fn view(&self) -> (ConfigSpec, ConfigSpec) {
        (self.pending@, self.defaults@)
    }
}

impl HubControl {
    /// A working copy of the active configuration.
    pub fn new(active: &HubConfig, defaults: &HubConfig) -> (r: Self)
        ensures
            r@ == (active@, defaults@),
    {
        HubControl { pending: active.clone(), defaults: defaults.clone() }
    }

    /// The pending configuration, as it is saved.
    pub fn pending(&self) -> (r: &HubConfig)
        ensures
            r@ == self@.0,
    {
        &self.pending
    }

    /// Handle a command. A refused command leaves the pending configuration as
    /// it is; one that the store then fails on stays pending.
    pub fn handle(
        &mut self,
        command: &HubCommand,
        stats: &HubStats,
        uptime_secs: u64,
        has_store: bool,
    ) -> (r: ControlStep)
        ensures
            r@ == control(
                old(self)@.0,
                old(self)@.1,
                command@,
                (StatusSpec {
                    uptime_secs: (uptime_secs % 0x1_0000_0000) as u32,
                    ..stats@
                }),
                has_store,
            ),
            final(self)@ == (
                hub_config::applied(old(self)@.0, command@, old(self)@.1).0,
                old(self)@.1,
            ),
    {
        match command {
            HubCommand::GetNetworkConfig => {
                return ControlStep::Respond(network_config_response(&self.pending));
            },
            HubCommand::GetHubStatus => {
                let uptime: u32 = (uptime_secs % 0x1_0000_0000) as u32;
                return ControlStep::Respond(HubResponse::HubStatus(stats.snapshot(uptime)));
            },
            _ => {},
        }
        let action: ConfigAction = match apply_command(
            &mut self.pending,
            command,
            &self.defaults,
        ) {
            Ok(action) => action,
            Err(status) => {
                return ControlStep::Respond(HubResponse::ConfigAck { status });
            },
        };
        if !has_store {
            return ControlStep::Respond(
                HubResponse::ConfigAck { status: AckStatus::StorageError },
            );
        }
        match action {
            ConfigAction::Save => ControlStep::Store(StoreCall::Save),
            ConfigAction::Clear => ControlStep::Store(StoreCall::Clear),
            ConfigAction::Nothing => ControlStep::Respond(
                HubResponse::ConfigAck { status: AckStatus::Success },
            ),
        }
    }
}

/// The acknowledgement, now that the store is done.
pub fn stored(result: Result<(), StoreError>) -> (r: HubResponse)
    ensures
        r@ == ack(
            if result is Ok {
                AckStatus::Success
            } else {
                AckStatus::StorageError
            },
        ),
{
    let status: AckStatus = match result {
        Ok(_) => AckStatus::Success,
        Err(_) => AckStatus::StorageError,
    };
    HubResponse::ConfigAck { status }
}

/// The message that carries a response back to where its command came from.
pub fn reply(source: CommandSource, response: &HubResponse) -> (r: ResponseMessage)
    ensures
        r@ == MessageSpec::HubRaw(
            source,
            wire::cobs_encoded(
                wire::raw_frame(response@.id().byte(), codec::response_payload(response@)),
            ),
        ),
{
    let frame: Bytes<300> = codec::encode_response(response);
    ResponseMessage::HubRaw { source, frame }
}

/// A command is acknowledged as a success only after the store took what the
/// next boot reads.
pub proof fn success_means_stored(
    pending: ConfigSpec,
    defaults: ConfigSpec,
    command: CommandSpec,
    status: StatusSpec,
    has_store: bool,
)
    ensures
        control(pending, defaults, command, status, has_store) != ControlSpec::Respond(
            ack(AckStatus::Success),
        ),
        control(pending, defaults, command, status, has_store) is Store ==> has_store,
        control(pending, defaults, command, status, has_store) == ControlSpec::Store(
            StoreCall::Save,
        ) && pending.version == hub_config::CONFIG_SCHEMA_VERSION ==> hub_config::selected(
            Some(hub_config::applied(pending, command, defaults).0),
            defaults,
        ) == hub_config::applied(pending, command, defaults).0,
        control(pending, defaults, command, status, has_store) == ControlSpec::Store(
            StoreCall::Clear,
        ) ==> hub_config::selected(None, defaults) == hub_config::applied(
            pending,
            command,
            defaults,
        ).0,
{
}

/// Reading the configuration or the status changes nothing.
pub proof fn reads_change_nothing(pending: ConfigSpec, defaults: ConfigSpec, command: CommandSpec)
    requires
        command == CommandSpec::GetNetworkConfig || command == CommandSpec::GetHubStatus,
    ensures
        hub_config::applied(pending, command, defaults).0 == pending,
{
}

/// The configuration and the status are answered at once, as they are; the uptime is
/// told in whole seconds.
pub proof fn questions_are_answered(
    control: &mut HubControl,
    stats: &HubStats,
    uptime_secs: u64,
    has_store: bool,
    config_step: ControlStep,
    asked: &mut HubControl,
    status_step: ControlStep,
)
    requires
        call_ensures(
            HubControl::handle,
            (control, &HubCommand::GetNetworkConfig, stats, uptime_secs, has_store),
            config_step,
        ),
        call_ensures(
            HubControl::handle,
            (asked, &HubCommand::GetHubStatus, stats, uptime_secs, has_store),
            status_step,
        ),
        uptime_secs <= 4_294_967_295,
    ensures
        config_step@ matches ControlSpec::Respond(
            ResponseSpec::NetworkConfig(mode, ssid, mqtt, gateway),
        ) && mode == old(control)@.0.mode && ssid == old(control)@.0.wifi.ssid && mqtt
            == old(control)@.0.mqtt && gateway == old(control)@.0.gateway,
        final(control)@ == old(control)@,
        status_step@ matches ControlSpec::Respond(ResponseSpec::HubStatus(status))
            && status.uptime_secs == uptime_secs && status.wifi_state == stats@.wifi_state
            && status.mqtt_state == stats@.mqtt_state && status.ip == stats@.ip
            && status.uplink_count == stats@.uplink_count && status.downlink_count
            == stats@.downlink_count && status.dropped_count == stats@.dropped_count,
        final(asked)@ == old(asked)@,
{
}

/// Settings are taken over and saved, and clearing goes back to the defaults and erases
/// what is stored; without a store either is a storage error. A broker without a port and
/// gateway settings out of range are refused as invalid and change nothing.
pub proof fn settings_are_saved(
    control: &mut HubControl,
    command: &HubCommand,
    stats: &HubStats,
    uptime_secs: u64,
    has_store: bool,
    r: ControlStep,
)
    requires
        call_ensures(HubControl::handle, (control, command, stats, uptime_secs, has_store), r),
    ensures
        command@ matches CommandSpec::SetWifiConfig(wifi) ==> final(control)@.0.wifi == wifi
            && final(control)@.0.mqtt == old(control)@.0.mqtt && final(control)@.0.mode
            == old(control)@.0.mode,
        command@ matches CommandSpec::SetMqttConfig(mqtt) ==> (if mqtt.port == 0 {
            final(control)@ == old(control)@
        } else {
            final(control)@.0.mqtt == mqtt && final(control)@.0.wifi == old(control)@.0.wifi
                && final(control)@.0.mode == old(control)@.0.mode
        }),
        command@ matches CommandSpec::SetGatewayConfig(gw) ==> (if hub_config::gateway_valid(gw) {
            final(control)@.0.gateway == gw && final(control)@.0.wifi == old(control)@.0.wifi
                && final(control)@.0.mqtt == old(control)@.0.mqtt
        } else {
            final(control)@ == old(control)@
        }),
        command@ matches CommandSpec::SetMode(mode) ==> final(control)@.0.mode == mode
            && final(control)@.0.wifi == old(control)@.0.wifi && final(control)@.0.mqtt
            == old(control)@.0.mqtt,
        command@ is ClearNetworkConfig ==> final(control)@.0 == old(control)@.1,
        ({
            ||| command@ matches CommandSpec::SetMqttConfig(mqtt) && mqtt.port == 0
            ||| command@ matches CommandSpec::SetGatewayConfig(gw) && !hub_config::gateway_valid(gw)
        }) ==> r@ == ControlSpec::Respond(ResponseSpec::ConfigAck(AckStatus::InvalidValue)),
        ({
            ||| command@ is SetWifiConfig
            ||| command@ is SetMode
            ||| command@ matches CommandSpec::SetMqttConfig(mqtt) && mqtt.port != 0
            ||| command@ matches CommandSpec::SetGatewayConfig(gw) && hub_config::gateway_valid(gw)
        }) ==> r@ == (if has_store {
            ControlSpec::Store(StoreCall::Save)
        } else {
            ControlSpec::Respond(ResponseSpec::ConfigAck(AckStatus::StorageError))
        }),
        command@ is ClearNetworkConfig ==> r@ == (if has_store {
            ControlSpec::Store(StoreCall::Clear)
        } else {
            ControlSpec::Respond(ResponseSpec::ConfigAck(AckStatus::StorageError))
        }),
        final(control)@.1 == old(control)@.1,
{
}

/// A store that did its work is a success, one that failed a storage error.
pub proof fn storing_is_acknowledged(result: Result<(), StoreError>, r: HubResponse)
    requires
        call_ensures(stored, (result,), r),
    ensures
        result is Ok ==> r@ == ResponseSpec::ConfigAck(AckStatus::Success),
        result is Err ==> r@ == ResponseSpec::ConfigAck(AckStatus::StorageError),
{
}

/// A reply goes back to where the command came from, and what is decoded there is read
/// as the response.
pub proof fn replies_go_back(source: CommandSource, response: &HubResponse, r: ResponseMessage)
    requires
        call_ensures(reply, (source, response), r),
        response@.fits(),
    ensures
        r matches ResponseMessage::HubRaw { source: to, frame } && to == source && (
        wire::cobs_decoded(frame@) matches Some(raw) && codec::parsed_response(raw) == Ok::<
            ResponseSpec,
            wire::ParseError,
        >(response@)),
{
    wire::cobs_round_trip(
        wire::raw_frame(response@.id().byte(), codec::response_payload(response@)),
    );
    codec::responses_round_trip(response@);
}

/// Control begins with the active configuration as the pending one, and hands out the
/// pending one to be saved.
pub proof fn control_begins_with_the_active(
    active: &HubConfig,
    defaults: &HubConfig,
    r: HubControl,
    control: HubControl,
    pending: &HubConfig,
)
    requires
        call_ensures(HubControl::new, (active, defaults), r),
        call_ensures(HubControl::pending, (&control,), pending),
    ensures
        r@.0 == active@,
        r@.1 == defaults@,
        pending@ == control@.0,
{
}

} // verus!
