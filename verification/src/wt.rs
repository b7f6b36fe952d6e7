//! Messages of the stock Walkie Textie protocol.
use crate::bounded::Bytes;
use vstd::prelude::*;

verus! {

/// Status codes of an error response.
#[derive(Debug, Clone, Copy, PartialEq, Eq, Structural)]
pub enum ResponseStatus {
    /// Everything went well.
    Success,
    /// No command has this id.
    InvalidCommand,
    /// The length of the frame or its payload does not fit the command.
    InvalidLength,
    /// The checksum does not match.
    CrcError,
    /// The protocol version is not supported.
    InvalidVersion,
    /// A parameter is out of its range.
    InvalidParameter,
    /// The radio failed.
    LoraError,
    /// The radio did not answer in time.
    Timeout,
}

impl ResponseStatus {
    /// The status on the wire.
    pub open spec fn byte(self) -> u8 {
        match self {
            ResponseStatus::Success => 0x00,
            ResponseStatus::InvalidCommand => 0x01,
            ResponseStatus::InvalidLength => 0x02,
            ResponseStatus::CrcError => 0x03,
            ResponseStatus::InvalidVersion => 0x04,
            ResponseStatus::InvalidParameter => 0x05,
            ResponseStatus::LoraError => 0x10,
            ResponseStatus::Timeout => 0x11,
        }
    }

    /// The status behind a byte; the byte itself where there is none.
    pub fn try_from(value: u8) -> (r: Result<Self, u8>)
        ensures
            match r {
                Ok(status) => status.byte() == value,
                Err(back) => back == value && forall|status: Self| status.byte() != value,
            },
    {
        match value {
            0x00 => Ok(ResponseStatus::Success),
            0x01 => Ok(ResponseStatus::InvalidCommand),
            0x02 => Ok(ResponseStatus::InvalidLength),
            0x03 => Ok(ResponseStatus::CrcError),
            0x04 => Ok(ResponseStatus::InvalidVersion),
            0x05 => Ok(ResponseStatus::InvalidParameter),
            0x10 => Ok(ResponseStatus::LoraError),
            0x11 => Ok(ResponseStatus::Timeout),
            _ => Err(value),
        }
    }
}

/// Command IDs.
#[derive(Debug, Clone, Copy, PartialEq, Eq, Structural)]
pub enum CommandId {
    /// Report the firmware version.
    GetVersion,
    /// Restart.
    Reboot,
    /// Transmit a LoRa packet.
    LoraTx,
    /// Change the spreading factor.
    SetSpreadingFactor,
    /// Report the radio configuration.
    GetRadioConfig,
}

impl CommandId {
    /// The id on the wire.
    pub open spec fn byte(self) -> u8 {
        match self {
            CommandId::GetVersion => 0x01,
            CommandId::Reboot => 0x03,
            CommandId::LoraTx => 0x10,
            CommandId::SetSpreadingFactor => 0x11,
            CommandId::GetRadioConfig => 0x12,
        }
    }

    /// The id on the wire.
    pub fn to_byte(self) -> (r: u8)
        ensures
            r == self.byte(),
    {
        match self {
            CommandId::GetVersion => 0x01,
            CommandId::Reboot => 0x03,
            CommandId::LoraTx => 0x10,
            CommandId::SetSpreadingFactor => 0x11,
            CommandId::GetRadioConfig => 0x12,
        }
    }
}

/// A command of the stock protocol.
#[derive(PartialEq)]
pub enum Command {
    /// Report the firmware version.
    GetVersion,
    /// Restart.
    Reboot,
    /// Transmit a LoRa packet.
    LoraTx {
        /// The packet.
        data: Bytes<256>,
    },
    /// Change the spreading factor.
    SetSpreadingFactor {
        /// The new spreading factor.
        spreading_factor: u8,
    },
    /// Report the radio configuration.
    GetRadioConfig,
}

/// What a [`Command`] says.
pub enum StockCommand {
    /// Report the firmware version.
    GetVersion,
    /// Restart.
    Reboot,
    /// Transmit a LoRa packet.
    LoraTx(Seq<u8>),
    /// Change the spreading factor.
    SetSpreadingFactor(u8),
    /// Report the radio configuration.
    GetRadioConfig,
}

impl View for Command {
    type V = StockCommand;

    open spec fn view(&self) -> StockCommand {
        match self {
            Command::GetVersion => StockCommand::GetVersion,
            Command::Reboot => StockCommand::Reboot,
            Command::LoraTx { data } => StockCommand::LoraTx(data@),
            Command::SetSpreadingFactor { spreading_factor } => StockCommand::SetSpreadingFactor(
                *spreading_factor,
            ),
            Command::GetRadioConfig => StockCommand::GetRadioConfig,
        }
    }
}

impl StockCommand {
    /// The id of the command.
    pub open spec fn id(self) -> CommandId {
        match self {
            StockCommand::GetVersion => CommandId::GetVersion,
            StockCommand::Reboot => CommandId::Reboot,
            StockCommand::LoraTx(_) => CommandId::LoraTx,
            StockCommand::SetSpreadingFactor(_) => CommandId::SetSpreadingFactor,
            StockCommand::GetRadioConfig => CommandId::GetRadioConfig,
        }
    }
}

impl Command {
    /// The id of the command.
    pub fn id(&self) -> (r: CommandId)
        ensures
            r == self@.id(),
    {
        match self {
            Command::GetVersion => CommandId::GetVersion,
            Command::Reboot => CommandId::Reboot,
            Command::LoraTx { .. } => CommandId::LoraTx,
            Command::SetSpreadingFactor { .. } => CommandId::SetSpreadingFactor,
            Command::GetRadioConfig => CommandId::GetRadioConfig,
        }
    }

    /// A LoraTx command for a payload that LoRa can carry.
    pub fn lora_tx(payload: &[u8]) -> (r: Result<Self, ResponseStatus>)
        ensures
            match r {
                Ok(command) => payload@.len() <= 256 && command@ == StockCommand::LoraTx(payload@),
                Err(status) => payload@.len() > 256 && status == ResponseStatus::InvalidLength,
            },
    {
        match Bytes::from_slice(payload) {
            Ok(data) => Ok(Command::LoraTx { data }),
            Err(_) => Err(ResponseStatus::InvalidLength),
        }
    }
}

impl Clone for Command {
    fn clone(&self) -> (r: Self)
        ensures
            r@ == self@,
    {
        match self {
            Command::GetVersion => Command::GetVersion,
            Command::Reboot => Command::Reboot,
            Command::LoraTx { data } => Command::LoraTx { data: data.clone() },
            Command::SetSpreadingFactor { spreading_factor } => Command::SetSpreadingFactor {
                spreading_factor: *spreading_factor,
            },
            Command::GetRadioConfig => Command::GetRadioConfig,
        }
    }
}

/// A response of the stock protocol.
#[derive(PartialEq)]
pub enum Response {
    /// The firmware version.
    Version {
        /// Major version.
        major: u8,
        /// Minor version.
        minor: u8,
        /// Patch level.
        patch: u8,
    },
    /// A packet was transmitted.
    TxComplete,
    /// A packet was refused by the duty cycle budget.
    TxRefused {
        /// When to try again; `u32::MAX` for never.
        retry_after_secs: u32,
    },
    /// A packet was received.
    RxPacket {
        /// The packet.
        data: Bytes<256>,
        /// Received signal strength in dBm.
        rssi: i16,
        /// Signal to noise ratio in dB.
        snr: i8,
    },
    /// The radio configuration.
    RadioConfig {
        /// Centre frequency in Hz.
        frequency_hz: u32,
        /// Spreading factor.
        spreading_factor: u8,
        /// Bandwidth in kHz.
        bandwidth_khz: u32,
        /// Coding rate denominator.
        coding_rate: u8,
        /// Transmit power in dBm.
        tx_power_dbm: i8,
    },
    /// A command failed.
    Error {
        /// What went wrong.
        status: ResponseStatus,
        /// The id of the command, as received.
        command_id: u8,
    },
}

/// What a [`Response`] says.
pub enum StockResponse {
    /// The firmware version.
    Version(u8, u8, u8),
    /// A packet was transmitted.
    TxComplete,
    /// A packet was refused; when to try again.
    TxRefused(u32),
    /// A packet was received: data, signal strength, signal to noise ratio.
    RxPacket(Seq<u8>, i16, i8),
    /// The radio configuration: frequency, spreading factor, bandwidth, coding
    /// rate, power.
    RadioConfig(u32, u8, u32, u8, i8),
    /// A command failed: status and command id.
    Error(ResponseStatus, u8),
}

impl View for Response {
    type V = StockResponse;

    open spec fn view(&self) -> StockResponse {
        match self {
            Response::Version { major, minor, patch } => StockResponse::Version(
                *major,
                *minor,
                *patch,
            ),
            Response::TxComplete => StockResponse::TxComplete,
            Response::TxRefused { retry_after_secs } => StockResponse::TxRefused(*retry_after_secs),
            Response::RxPacket { data, rssi, snr } => StockResponse::RxPacket(data@, *rssi, *snr),
            Response::RadioConfig {
                frequency_hz,
                spreading_factor,
                bandwidth_khz,
                coding_rate,
                tx_power_dbm,
            } => StockResponse::RadioConfig(
                *frequency_hz,
                *spreading_factor,
                *bandwidth_khz,
                *coding_rate,
                *tx_power_dbm,
            ),
            Response::Error { status, command_id } => StockResponse::Error(*status, *command_id),
        }
    }
}

impl Response {
    /// An error response to a command.
    pub fn error(status: ResponseStatus, command_id: CommandId) -> (r: Self)
        ensures
            r@ == StockResponse::Error(status, command_id.byte()),
    {
        Response::Error { status, command_id: command_id.to_byte() }
    }

    /// An error response to a command id as it was received.
    pub fn error_raw(status: ResponseStatus, command_id: u8) -> (r: Self)
        ensures
            r@ == StockResponse::Error(status, command_id),
    {
        Response::Error { status, command_id }
    }
}

impl Clone for Response {
    fn clone(&self) -> (r: Self)
        ensures
            r@ == self@,
    {
        match self {
            Response::Version { major, minor, patch } => Response::Version {
                major: *major,
                minor: *minor,
                patch: *patch,
            },
            Response::TxComplete => Response::TxComplete,
            Response::TxRefused { retry_after_secs } => Response::TxRefused {
                retry_after_secs: *retry_after_secs,
            },
            Response::RxPacket { data, rssi, snr } => Response::RxPacket {
                data: data.clone(),
                rssi: *rssi,
                snr: *snr,
            },
            Response::RadioConfig {
                frequency_hz,
                spreading_factor,
                bandwidth_khz,
                coding_rate,
                tx_power_dbm,
            } => Response::RadioConfig {
                frequency_hz: *frequency_hz,
                spreading_factor: *spreading_factor,
                bandwidth_khz: *bandwidth_khz,
                coding_rate: *coding_rate,
                tx_power_dbm: *tx_power_dbm,
            },
            Response::Error { status, command_id } => Response::Error {
                status: *status,
                command_id: *command_id,
            },
        }
    }
}

/// The commands and the statuses of the stock protocol have these bytes, and a status
/// is read back from its own byte only.
pub proof fn stock_bytes(value: u8, r: Result<ResponseStatus, u8>)
    requires
        call_ensures(ResponseStatus::try_from, (value,), r),
    ensures
        CommandId::GetVersion.byte() == 0x01,
        CommandId::Reboot.byte() == 0x03,
        CommandId::LoraTx.byte() == 0x10,
        CommandId::SetSpreadingFactor.byte() == 0x11,
        CommandId::GetRadioConfig.byte() == 0x12,
        r == Ok::<ResponseStatus, u8>(ResponseStatus::Success) <==> value == 0x00,
        r == Ok::<ResponseStatus, u8>(ResponseStatus::InvalidCommand) <==> value == 0x01,
        r == Ok::<ResponseStatus, u8>(ResponseStatus::InvalidLength) <==> value == 0x02,
        r == Ok::<ResponseStatus, u8>(ResponseStatus::CrcError) <==> value == 0x03,
        r == Ok::<ResponseStatus, u8>(ResponseStatus::InvalidVersion) <==> value == 0x04,
        r == Ok::<ResponseStatus, u8>(ResponseStatus::InvalidParameter) <==> value == 0x05,
        r == Ok::<ResponseStatus, u8>(ResponseStatus::LoraError) <==> value == 0x10,
        r == Ok::<ResponseStatus, u8>(ResponseStatus::Timeout) <==> value == 0x11,
        r is Err ==> r == Err::<ResponseStatus, u8>(value),
{
    assert(ResponseStatus::Success.byte() == 0x00);
    assert(ResponseStatus::InvalidCommand.byte() == 0x01);
    assert(ResponseStatus::InvalidLength.byte() == 0x02);
    assert(ResponseStatus::CrcError.byte() == 0x03);
    assert(ResponseStatus::InvalidVersion.byte() == 0x04);
    assert(ResponseStatus::InvalidParameter.byte() == 0x05);
    assert(ResponseStatus::LoraError.byte() == 0x10);
    assert(ResponseStatus::Timeout.byte() == 0x11);
}

/// A packet of up to 256 bytes becomes a LoraTx command that carries it unchanged; a
/// longer one is a matter of length.
pub proof fn packets_become_commands(payload: &[u8], r: Result<Command, ResponseStatus>)
    requires
        call_ensures(Command::lora_tx, (payload,), r),
    ensures
        payload@.len() <= 256 ==> (r matches Ok(Command::LoraTx { data }) && data@ == payload@),
        payload@.len() > 256 ==> r == Err::<Command, ResponseStatus>(ResponseStatus::InvalidLength),
{
}

} // verus!
