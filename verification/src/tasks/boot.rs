//! What a hub runs after boot.
use crate::hub_config;
use crate::hub_config::{select_config, ConfigSpec, HubConfig};
use crate::hub_protocol::types::HubMode;
use vstd::prelude::*;

verus! {

/// What a hub runs after boot. The radio belongs to one of the two modes; USB,
/// WiFi, the portal and hub control run in both.
pub struct BootPlan {
    /// The active configuration.
    pub config: HubConfig,
    /// Run the LoRa to MQTT bridge.
    pub bridge: bool,
    /// Run the LoRaWAN gateway.
    pub gateway: bool,
}

/// The plan for what is stored, if anything, and the defaults: a stored
/// configuration overrides them, and its mode decides.
pub fn boot_plan(stored: Option<HubConfig>, defaults: HubConfig) -> (r: BootPlan)
    ensures
        r.config@ == hub_config::selected(
            match stored {
                Some(config) => Some(config@),
                None => None,
            },
            defaults@,
        ),
        r.bridge == (r.config@.mode == HubMode::Bridge),
        r.gateway == (r.config@.mode == HubMode::LorawanGateway),
{
    let config: HubConfig = select_config(stored, defaults);
    match config.mode {
        HubMode::Bridge => BootPlan { config, bridge: true, gateway: false },
        HubMode::LorawanGateway => BootPlan { config, bridge: false, gateway: true },
    }
}

/// A mode that was set and saved is the one that the next boot runs in.
pub proof fn saved_mode_is_booted(config: ConfigSpec, mode: HubMode, defaults: ConfigSpec)
    requires
        config.version == hub_config::CONFIG_SCHEMA_VERSION,
    ensures
        hub_config::selected(
            Some(
                hub_config::applied(
                    config,
                    crate::hub_protocol::types::CommandSpec::SetMode(mode),
                    defaults,
                ).0,
            ),
            defaults,
        ).mode == mode,
{
}

/// A hub runs the one or the other, as the mode of its configuration says: the stored
/// one if it has version 1, else the defaults.
pub proof fn one_mode_is_run(stored: Option<HubConfig>, defaults: HubConfig, r: BootPlan)
    requires
        call_ensures(boot_plan, (stored, defaults), r),
    ensures
        r.bridge != r.gateway,
        r.gateway <==> r.config@.mode == HubMode::LorawanGateway,
        stored is Some && stored->Some_0@.version == 1 ==> r.config@ == stored->Some_0@,
        stored is None ==> r.config@ == defaults@,
        stored is Some && stored->Some_0@.version != 1 ==> r.config@ == defaults@,
{
}

} // verus!
