//! Command dispatcher and the messages around it.
//!
//! Commands from several sources reach one dispatcher, which decides what the
//! radio does for them. The radio itself is driven by the caller: the
//! dispatcher says what to do, and is told how it went.
use crate::bounded::Bytes;
use crate::config;
use crate::hub_protocol::types::HubCommand;
use crate::lora::airtime;
use crate::lora::airtime::{time_on_air_ms, PREAMBLE_SYMBOLS};
use crate::lora::duty_cycle::{Budget, DutyCycleExceeded, DutyCycleLimiter};
use crate::lora::traits::{LoraConfig, LoraError};
use crate::wt::{Command, CommandId, Response, ResponseStatus, StockCommand, StockResponse};
use vstd::prelude::*;

verus! {

/// Identifies the source of a command for routing responses.
#[derive(Debug, Clone, Copy, PartialEq, Eq, Structural)]
pub enum CommandSource {
    /// Command received via serial/UART.
    Serial,
    /// Command received via WiFi (MQTT downlink).
    WiFi,
    /// Command received via Bluetooth.
    Ble,
}

/// Envelope wrapping a command with metadata.
pub struct CommandEnvelope {
    /// The actual command.
    pub command: Command,
    /// Source of the command (for routing response).
    pub source: CommandSource,
    /// Sequence ID for matching responses to requests.
    pub sequence_id: u16,
}

/// Envelope wrapping a hub command with its source.
pub struct HubCommandEnvelope {
    /// The actual command.
    pub command: HubCommand,
    /// Source of the command (for routing response).
    pub source: CommandSource,
}

/// Message type for all outgoing responses.
///
/// Subscribers filter based on message type:
/// - Command responses: filtered by source (only the originating interface receives it)
/// - Unsolicited: delivered to all connected interfaces
pub enum ResponseMessage {
    /// Command response - should be filtered by source.
    Command {
        /// Where the command came from.
        source: CommandSource,
        /// Sequence ID of the command.
        sequence_id: u16,
        /// The response.
        response: Response,
    },
    /// Unsolicited packet (RxPacket) - delivered to all connected interfaces.
    Unsolicited(Response),
    /// Hub response as a frame ready for the wire - filtered by source.
    HubRaw {
        /// Where the command came from.
        source: CommandSource,
        /// The frame.
        frame: Bytes<300>,
    },
}

/// What a [`ResponseMessage`] says.
pub enum MessageSpec {
    /// Command response: source, sequence ID and response.
    Command(CommandSource, u16, StockResponse),
    /// Unsolicited packet.
    Unsolicited(StockResponse),
    /// Hub response: source and frame.
    HubRaw(CommandSource, Seq<u8>),
}

impl View for ResponseMessage {
    type V = MessageSpec;

    open spec fn view(&self) -> MessageSpec {
        match self {
            ResponseMessage::Command { source, sequence_id, response } => MessageSpec::Command(
                *source,
                *sequence_id,
                response@,
            ),
            ResponseMessage::Unsolicited(response) => MessageSpec::Unsolicited(response@),
            ResponseMessage::HubRaw { source, frame } => MessageSpec::HubRaw(*source, frame@),
        }
    }
}

impl Clone for ResponseMessage {
    fn clone(&self) -> (r: Self)
        ensures
            r@ == self@,
    {
        match self {
            ResponseMessage::Command { source, sequence_id, response } => ResponseMessage::Command {
                source: *source,
                sequence_id: *sequence_id,
                response: response.clone(),
            },
            ResponseMessage::Unsolicited(response) => ResponseMessage::Unsolicited(
                response.clone(),
            ),
            ResponseMessage::HubRaw { source, frame } => ResponseMessage::HubRaw {
                source: *source,
                frame: frame.clone(),
            },
        }
    }
}

/// Command dispatcher.
///
/// Decides commands and owns the active radio configuration and the
/// regulatory duty cycle budget.
pub struct CommandDispatcher {
    config: LoraConfig,
    duty_cycle: DutyCycleLimiter,
}

/// The dispatcher as a mathematical value.
pub struct DispatcherSpec {
    /// The active radio configuration.
    pub config: LoraConfig,
    /// The duty cycle budget.
    pub budget: Budget,
}

impl View for CommandDispatcher {
    type V = DispatcherSpec;

    closed spec fn view(&self) -> DispatcherSpec {
        DispatcherSpec { config: self.config, budget: self.duty_cycle@ }
    }
}

/// What a command leads to.
pub enum DispatchStep {
    /// Answer it at once.
    Respond(Response),
    /// Transmit this packet, then call
    /// [`CommandDispatcher::finish_transmit`].
    Transmit(Bytes<256>),
    /// Apply this configuration, then call
    /// [`CommandDispatcher::finish_configure`].
    Configure(LoraConfig),
}

/// What a [`DispatchStep`] says.
pub enum StepSpec {
    /// Answer at once.
    Respond(StockResponse),
    /// Transmit a packet.
    Transmit(Seq<u8>),
    /// Apply a configuration.
    Configure(LoraConfig),
}

impl View for DispatchStep {
    type V = StepSpec;

    open spec fn view(&self) -> StepSpec {
        match self {
            DispatchStep::Respond(response) => StepSpec::Respond(response@),
            DispatchStep::Transmit(data) => StepSpec::Transmit(data@),
            DispatchStep::Configure(config) => StepSpec::Configure(*config),
        }
    }
}

/// A configuration as a RadioConfig response.
pub open spec fn radio_config(c: LoraConfig) -> StockResponse {
    StockResponse::RadioConfig(
        c.frequency_hz,
        c.spreading_factor,
        c.bandwidth_khz,
        c.coding_rate,
        c.tx_power_dbm,
    )
}

/// A radio error as a response to a command. A rejected payload (empty or
/// beyond the modem's 255-byte limit) is a matter of length.
pub open spec fn error_response(error: LoraError, command_id: CommandId) -> StockResponse {
    StockResponse::Error(
        match error {
            LoraError::Timeout => ResponseStatus::Timeout,
            LoraError::InvalidConfig => ResponseStatus::InvalidLength,
            _ => ResponseStatus::LoraError,
        },
        command_id.byte(),
    )
}

/// The seconds after which a refused packet can be sent: whole seconds,
/// rounded up; `u32::MAX` when it never can.
pub open spec fn retry_secs(exceeded: DutyCycleExceeded) -> u32 {
    match exceeded.retry_after_ms {
        Some(ms) => {
            let secs = (ms + 999) / 1000;
            if secs > u32::MAX - 1 {
                (u32::MAX - 1) as u32
            } else {
                secs as u32
            }
        },
        None => u32::MAX,
    }
}

impl DispatcherSpec {
    /// A dispatcher with the default radio configuration.
    pub open spec fn fresh() -> DispatcherSpec {
        DispatcherSpec {
            config: LoraConfig::standard(),
            budget: Budget::fresh(config::FREQUENCY_HZ as int),
        }
    }

    /// The airtime of a packet in the active configuration.
    pub open spec fn airtime(self, len: nat) -> int {
        airtime::airtime_ms(
            self.config.spreading_factor as int,
            self.config.bandwidth_khz as int,
            self.config.coding_rate as int,
            len as int,
            PREAMBLE_SYMBOLS as int,
            true,
        )
    }

    /// What a command leads to.
    pub open spec fn step(self, command: StockCommand, now_ms: int) -> StepSpec {
        match command {
            StockCommand::GetVersion => StepSpec::Respond(
                StockResponse::Version(
                    config::VERSION_MAJOR,
                    config::VERSION_MINOR,
                    config::VERSION_PATCH,
                ),
            ),
            StockCommand::Reboot => StepSpec::Respond(
                StockResponse::Error(ResponseStatus::InvalidCommand, command.id().byte()),
            ),
            StockCommand::LoraTx(data) => match self.budget.claim_result(
                now_ms,
                self.airtime(data.len()),
            ) {
                Ok(_) => StepSpec::Transmit(data),
                Err(exceeded) => StepSpec::Respond(StockResponse::TxRefused(retry_secs(exceeded))),
            },
            StockCommand::SetSpreadingFactor(sf) => if 7 <= sf <= 12 {
                StepSpec::Configure(LoraConfig { spreading_factor: sf, ..self.config })
            } else {
                StepSpec::Respond(
                    StockResponse::Error(ResponseStatus::InvalidParameter, command.id().byte()),
                )
            },
            StockCommand::GetRadioConfig => StepSpec::Respond(radio_config(self.config)),
        }
    }

    /// The dispatcher after it decided a command: only a transmission draws on
    /// the budget. The claim is made before transmitting; a failed transmit
    /// stays charged, which errs on the compliant side.
    pub open spec fn decided(self, command: StockCommand, now_ms: int) -> DispatcherSpec {
        match command {
            StockCommand::LoraTx(data) => DispatcherSpec {
                budget: self.budget.after_claim(now_ms, self.airtime(data.len())),
                ..self
            },
            _ => self,
        }
    }
}

impl Default for CommandDispatcher {
    fn default() -> (r: Self)
        ensures
            r@ == DispatcherSpec::fresh(),
    {
        Self::new()
    }
}

impl CommandDispatcher {
    /// Create a new command dispatcher with the default radio configuration.
    pub fn new() -> (r: Self)
        ensures
            r@ == DispatcherSpec::fresh(),
    {
        let config: LoraConfig = LoraConfig::default();
        let duty_cycle: DutyCycleLimiter = DutyCycleLimiter::for_frequency(config.frequency_hz);
        CommandDispatcher { config, duty_cycle }
    }

    /// Dispatch a command: what it leads to.
    ///
    /// `now_ms` is a monotonic timestamp (ms since boot) used for duty cycle
    /// accounting; injecting it keeps the dispatcher clock-free.
    pub fn dispatch(&mut self, command: Command, now_ms: u64) -> (r: DispatchStep)
        ensures
            r@ == old(self)@.step(command@, now_ms as int),
            final(self)@ == old(self)@.decided(command@, now_ms as int),
    {
        match command {
            Command::GetVersion => DispatchStep::Respond(
                Response::Version {
                    major: config::VERSION_MAJOR,
                    minor: config::VERSION_MINOR,
                    patch: config::VERSION_PATCH,
                },
            ),
            // Admin commands are handled before they reach the dispatcher.
            Command::Reboot => DispatchStep::Respond(
                Response::error(ResponseStatus::InvalidCommand, CommandId::Reboot),
            ),
            Command::LoraTx { data } => self.handle_lora_tx(data, now_ms),
            Command::SetSpreadingFactor { spreading_factor } => {
                if spreading_factor < 7 || spreading_factor > 12 {
                    return DispatchStep::Respond(
                        Response::error(
                            ResponseStatus::InvalidParameter,
                            CommandId::SetSpreadingFactor,
                        ),
                    );
                }
                let mut config: LoraConfig = self.config;
                config.spreading_factor = spreading_factor;
                DispatchStep::Configure(config)
            },
            Command::GetRadioConfig => DispatchStep::Respond(self.radio_config_response()),
        }
    }

    fn handle_lora_tx(&mut self, data: Bytes<256>, now_ms: u64) -> (r: DispatchStep)
        ensures
            r@ == old(self)@.step(StockCommand::LoraTx(data@), now_ms as int),
            final(self)@ == old(self)@.decided(StockCommand::LoraTx(data@), now_ms as int),
    {
        let len: usize = data.len();
        let airtime_ms: u32 = time_on_air_ms(
            self.config.spreading_factor,
            self.config.bandwidth_khz,
            self.config.coding_rate,
            len,
        );
        match self.duty_cycle.try_claim(now_ms, airtime_ms) {
            Ok(_) => DispatchStep::Transmit(data),
            Err(exceeded) => {
                let retry_after_secs: u32 = match exceeded.retry_after_ms {
                    Some(ms) => {
                        let secs: u64 = ms / 1000 + (if ms % 1000 > 0 {
                            1
                        } else {
                            0
                        });
                        if secs > u32::MAX as u64 - 1 {
                            u32::MAX - 1
                        } else {
                            secs as u32
                        }
                    },
                    // The packet exceeds the entire hourly budget.
                    None => u32::MAX,
                };
                DispatchStep::Respond(Response::TxRefused { retry_after_secs })
            },
        }
    }

    /// The answer to a LoraTx command, from what came of the transmission.
    pub fn finish_transmit(&self, result: Result<(), LoraError>) -> (r: Response)
        ensures
            match result {
                Ok(_) => r@ == StockResponse::TxComplete,
                Err(error) => r@ == error_response(error, CommandId::LoraTx),
            },
    {
        match result {
            Ok(_) => Response::TxComplete,
            Err(error) => lora_error_to_response(error, CommandId::LoraTx),
        }
    }

    /// The answer to a SetSpreadingFactor command, from what came of applying
    /// the configuration. Only a configuration that the radio took becomes the
    /// active one.
    pub fn finish_configure(&mut self, config: LoraConfig, result: Result<(), LoraError>) -> (r:
        Response)
        ensures
            match result {
                Ok(_) => r@ == radio_config(config) && final(self)@ == (DispatcherSpec {
                    config,
                    ..old(self)@
                }),
                Err(error) => r@ == error_response(error, CommandId::SetSpreadingFactor)
                    && final(self)@ == old(self)@,
            },
    {
        match result {
            Ok(_) => {
                self.config = config;
                self.radio_config_response()
            },
            Err(error) => lora_error_to_response(error, CommandId::SetSpreadingFactor),
        }
    }

    /// The active configuration as a RadioConfig response.
    fn radio_config_response(&self) -> (r: Response)
        ensures
            r@ == radio_config(self@.config),
    {
        Response::RadioConfig {
            frequency_hz: self.config.frequency_hz,
            spreading_factor: self.config.spreading_factor,
            bandwidth_khz: self.config.bandwidth_khz,
            coding_rate: self.config.coding_rate,
            tx_power_dbm: self.config.tx_power_dbm,
        }
    }
}

/// Convert a LoRa error to a response.
fn lora_error_to_response(error: LoraError, command_id: CommandId) -> (r: Response)
    ensures
        r@ == error_response(error, command_id),
{
    let status: ResponseStatus = match error {
        LoraError::Timeout => ResponseStatus::Timeout,
        LoraError::InvalidConfig => ResponseStatus::InvalidLength,
        _ => ResponseStatus::LoraError,
    };
    Response::error(status, command_id)
}

/// The radio is touched only for a packet that the duty cycle budget grants
/// and for a spreading factor in the permitted range.
pub proof fn radio_is_touched_only_when_allowed(
    state: DispatcherSpec,
    command: StockCommand,
    now_ms: int,
)
    ensures
        state.step(command, now_ms) is Transmit ==> (command matches StockCommand::LoraTx(data)
            && state.step(command, now_ms) == StepSpec::Transmit(data) && state.budget.grants(
            now_ms,
            state.airtime(data.len()),
        )),
        state.step(command, now_ms) matches StepSpec::Configure(c) ==> 7 <= c.spreading_factor
            <= 12 && c == (LoraConfig { spreading_factor: c.spreading_factor, ..state.config }),
{
}

/// A refused packet is answered with a retry hint: ahead and within the hour when it
/// fits the allowance at all, and never otherwise.
pub proof fn refusals_carry_a_hint(state: DispatcherSpec, data: Seq<u8>, now_ms: int)
    requires
        state.budget.valid(),
        state.budget.up_to(now_ms),
        data.len() <= 256,
        state.step(StockCommand::LoraTx(data), now_ms) is Respond,
    ensures
        state.step(StockCommand::LoraTx(data), now_ms) matches StepSpec::Respond(
            StockResponse::TxRefused(secs),
        ) && (if state.airtime(data.len()) <= state.budget.allowance->Some_0 {
            0 < secs <= 3_600
        } else {
            secs == u32::MAX
        }),
{
    airtime::lora_packets_fit(
        state.config.spreading_factor as int,
        state.config.bandwidth_khz as int,
        state.config.coding_rate as int,
        data.len() as int,
        PREAMBLE_SYMBOLS as int,
        true,
    );
    crate::lora::duty_cycle::retry_hint_is_the_earliest(
        state.budget,
        now_ms,
        state.airtime(data.len()),
    );
}

/// Version 0.1.0 is reported, a reboot is not for the dispatcher, and the radio
/// configuration is reported as it is, field by field.
pub proof fn questions_are_answered(
    dispatcher: &mut CommandDispatcher,
    command: Command,
    now_ms: u64,
    r: DispatchStep,
)
    requires
        call_ensures(CommandDispatcher::dispatch, (dispatcher, command, now_ms), r),
    ensures
        command is GetVersion ==> r@ == StepSpec::Respond(StockResponse::Version(0, 1, 0)),
        command is Reboot ==> r@ == StepSpec::Respond(
            StockResponse::Error(ResponseStatus::InvalidCommand, 0x03),
        ),
        command is GetRadioConfig ==> (r@ matches StepSpec::Respond(
            StockResponse::RadioConfig(freq, sf, bw, cr, power),
        ) && freq == old(dispatcher)@.config.frequency_hz && sf
            == old(dispatcher)@.config.spreading_factor && bw
            == old(dispatcher)@.config.bandwidth_khz && cr == old(dispatcher)@.config.coding_rate
            && power == old(dispatcher)@.config.tx_power_dbm),
        !(command is LoraTx) ==> final(dispatcher)@ == old(dispatcher)@,
{
}

/// A spreading factor of 7 to 12 is applied with every other setting kept; any other
/// is refused as an invalid parameter.
pub proof fn spreading_factors_are_checked(
    dispatcher: &mut CommandDispatcher,
    spreading_factor: u8,
    now_ms: u64,
    r: DispatchStep,
)
    requires
        call_ensures(
            CommandDispatcher::dispatch,
            (dispatcher, Command::SetSpreadingFactor { spreading_factor }, now_ms),
            r,
        ),
    ensures
        spreading_factor < 7 || spreading_factor > 12 ==> r@ == StepSpec::Respond(
            StockResponse::Error(ResponseStatus::InvalidParameter, 0x11),
        ),
        7 <= spreading_factor <= 12 ==> (r@ matches StepSpec::Configure(c) && c.spreading_factor
            == spreading_factor && c.frequency_hz == old(dispatcher)@.config.frequency_hz
            && c.bandwidth_khz == old(dispatcher)@.config.bandwidth_khz && c.coding_rate
            == old(dispatcher)@.config.coding_rate && c.tx_power_dbm
            == old(dispatcher)@.config.tx_power_dbm && c.sync_word
            == old(dispatcher)@.config.sync_word),
        final(dispatcher)@ == old(dispatcher)@,
{
}

/// A packet is sent unchanged exactly when the budget grants its airtime, which is
/// that of a packet with eight preamble symbols and a checksum in the active
/// configuration, and draws that airtime; a refused packet leaves no mark. The hint
/// with a refusal is the wait in whole seconds, rounded up.
pub proof fn packets_are_sent_within_the_budget(
    dispatcher: &mut CommandDispatcher,
    data: Bytes<256>,
    now_ms: u64,
    r: DispatchStep,
)
    requires
        call_ensures(
            CommandDispatcher::dispatch,
            (dispatcher, Command::LoraTx { data }, now_ms),
            r,
        ),
    ensures
        ({
            let state = old(dispatcher)@;
            let needed = airtime::airtime_ms(
                state.config.spreading_factor as int,
                state.config.bandwidth_khz as int,
                state.config.coding_rate as int,
                data@.len() as int,
                8,
                true,
            );
            let claimed = state.budget.claim_result(now_ms as int, needed);
            &&& claimed is Ok <==> r@ == StepSpec::Transmit(data@)
            &&& claimed matches Err(exceeded) ==> (r@ matches StepSpec::Respond(
                StockResponse::TxRefused(secs),
            ) && (exceeded.retry_after_ms is None ==> secs == 0xFFFF_FFFF)
                && (exceeded.retry_after_ms matches Some(ms) ==> (if ms <= 4_294_967_294_000 {
                1_000 * secs - 1_000 < ms <= 1_000 * secs
            } else {
                secs == 0xFFFF_FFFE
            })))
            &&& final(dispatcher)@.budget == state.budget.after_claim(now_ms as int, needed)
            &&& final(dispatcher)@.config == state.config
        }),
{
}

/// A packet that went out is answered with TxComplete; a radio that timed out with
/// Timeout, a rejected packet with InvalidLength, any other failure with LoraError,
/// under the id of the command.
pub proof fn outcomes_are_reported(
    dispatcher: CommandDispatcher,
    result: Result<(), LoraError>,
    r: Response,
)
    requires
        call_ensures(CommandDispatcher::finish_transmit, (&dispatcher, result), r),
    ensures
        result is Ok ==> r@ == StockResponse::TxComplete,
        result == Err::<(), LoraError>(LoraError::Timeout) ==> r@ == StockResponse::Error(
            ResponseStatus::Timeout,
            0x10,
        ),
        result == Err::<(), LoraError>(LoraError::InvalidConfig) ==> r@ == StockResponse::Error(
            ResponseStatus::InvalidLength,
            0x10,
        ),
        result is Err && result->Err_0 != LoraError::Timeout && result->Err_0
            != LoraError::InvalidConfig ==> r@ == StockResponse::Error(
            ResponseStatus::LoraError,
            0x10,
        ),
{
}

/// A configuration that the radio took is active from then on and is reported; one
/// that it did not take is not, and the failure is reported under the id of the
/// command. The budget stays as it is.
pub proof fn taken_configurations_are_active(
    dispatcher: &mut CommandDispatcher,
    config: LoraConfig,
    result: Result<(), LoraError>,
    r: Response,
)
    requires
        call_ensures(CommandDispatcher::finish_configure, (dispatcher, config, result), r),
    ensures
        final(dispatcher)@.budget == old(dispatcher)@.budget,
        result is Ok ==> final(dispatcher)@.config == config && r@ == StockResponse::RadioConfig(
            config.frequency_hz,
            config.spreading_factor,
            config.bandwidth_khz,
            config.coding_rate,
            config.tx_power_dbm,
        ),
        result matches Err(error) ==> final(dispatcher)@.config == old(dispatcher)@.config && r@
            == StockResponse::Error(
            if error == LoraError::Timeout {
                ResponseStatus::Timeout
            } else if error == LoraError::InvalidConfig {
                ResponseStatus::InvalidLength
            } else {
                ResponseStatus::LoraError
            },
            0x11,
        ),
{
}

/// A dispatcher starts at 869.525 MHz, spreading factor 11, 250 kHz, coding rate 4/8
/// and 22 dBm, with the budget of that carrier.
pub proof fn dispatchers_start_with_the_defaults(r: CommandDispatcher)
    requires
        call_ensures(CommandDispatcher::new, (), r),
    ensures
        r@.config.frequency_hz == 869_525_000,
        r@.config.spreading_factor == 11,
        r@.config.bandwidth_khz == 250,
        r@.config.coding_rate == 8,
        r@.config.tx_power_dbm == 22,
        r@.budget == Budget::fresh(869_525_000),
{
}

} // verus!
