use lora_mqtt_hub::bounded::Bytes;
use lora_mqtt_hub::config;
use lora_mqtt_hub::dispatcher::{CommandDispatcher, DispatchStep};
use lora_mqtt_hub::lora::traits::{LoraConfig, LoraError};
use lora_mqtt_hub::wt::{Command, Response, ResponseStatus};

/// A radio that records what it is told and fails when asked to.
struct Radio {
    tx_history: Vec<Bytes<256>>,
    config: Option<LoraConfig>,
    next_tx_error: Option<LoraError>,
    next_configure_error: Option<LoraError>,
}

impl Radio {
    fn new() -> Self {
        Radio {
            tx_history: Vec::new(),
            config: None,
            next_tx_error: None,
            next_configure_error: None,
        }
    }

    fn transmit(&mut self, data: Bytes<256>) -> Result<(), LoraError> {
        match self.next_tx_error.take() {
            Some(error) => Err(error),
            None => {
                self.tx_history.push(data);
                Ok(())
            }
        }
    }

    fn configure(&mut self, config: LoraConfig) -> Result<(), LoraError> {
        match self.next_configure_error.take() {
            Some(error) => Err(error),
            None => {
                self.config = Some(config);
                Ok(())
            }
        }
    }
}

fn dispatch(
    dispatcher: &mut CommandDispatcher,
    radio: &mut Radio,
    command: Command,
    now_ms: u64,
) -> Response {
    match dispatcher.dispatch(command, now_ms) {
        DispatchStep::Respond(response) => response,
        DispatchStep::Transmit(data) => {
            let result = radio.transmit(data);
            dispatcher.finish_transmit(result)
        }
        DispatchStep::Configure(config) => {
            let result = radio.configure(config);
            dispatcher.finish_configure(config, result)
        }
    }
}

fn bytes(data: &[u8]) -> Bytes<256> {
    Bytes::from_slice(data).ok().unwrap()
}

#[test]
fn test_dispatch_get_version() {
    let mut dispatcher = CommandDispatcher::new();
    let mut radio = Radio::new();

    let response = dispatch(&mut dispatcher, &mut radio, Command::GetVersion, 0);

    match response {
        Response::Version {
            major,
            minor,
            patch,
        } => {
            assert_eq!(major, config::VERSION_MAJOR);
            assert_eq!(minor, config::VERSION_MINOR);
            assert_eq!(patch, config::VERSION_PATCH);
        }
        _ => panic!("Expected Version response"),
    }
}

#[test]
fn test_dispatch_lora_tx() {
    let mut dispatcher = CommandDispatcher::new();
    let mut radio = Radio::new();

    let data = bytes(&[0x48, 0x65, 0x6C, 0x6C, 0x6F]);

    let response = dispatch(&mut dispatcher, &mut radio, Command::LoraTx { data: data.clone() }, 0);

    assert!(matches!(response, Response::TxComplete));

    // Verify the data was transmitted
    let history = &radio.tx_history;
    assert_eq!(history.len(), 1);
    assert_eq!(history[0].as_slice(), data.as_slice());
}

#[test]
fn test_dispatch_lora_tx_error() {
    let mut dispatcher = CommandDispatcher::new();
    let mut radio = Radio::new();

    radio.next_tx_error = Some(LoraError::TransmitFailed);

    let data = bytes(&[0x01]);

    let response = dispatch(&mut dispatcher, &mut radio, Command::LoraTx { data }, 0);

    match response {
        Response::Error { status, .. } => {
            assert_eq!(status, ResponseStatus::LoraError);
        }
        _ => panic!("Expected Error response"),
    }
}

#[test]
fn get_radio_config_reports_sf11_default() {
    let mut dispatcher = CommandDispatcher::new();
    let mut radio = Radio::new();

    let response = dispatch(&mut dispatcher, &mut radio, Command::GetRadioConfig, 0);

    match response {
        Response::RadioConfig { frequency_hz, spreading_factor, .. } => {
            assert_eq!(spreading_factor, 11, "default must be SF11");
            assert_eq!(frequency_hz, 869_525_000);
        }
        _ => panic!("Expected RadioConfig response"),
    }
}

#[test]
fn set_spreading_factor_reconfigures_the_radio() {
    let mut dispatcher = CommandDispatcher::new();
    let mut radio = Radio::new();

    let response = dispatch(&mut dispatcher, &mut radio,
            Command::SetSpreadingFactor { spreading_factor: 7 },
            0,
        );

    match response {
        Response::RadioConfig { spreading_factor, .. } => {
            assert_eq!(spreading_factor, 7);
        }
        _ => panic!("Expected RadioConfig response"),
    }

    let applied = radio.config.expect("radio must be reconfigured");
    assert_eq!(applied.spreading_factor, 7);
    // Everything else keeps the defaults.
    assert_eq!(applied.frequency_hz, 869_525_000);
    assert_eq!(applied.bandwidth_khz, 250);
}

#[test]
fn out_of_range_spreading_factor_is_rejected() {
    let mut dispatcher = CommandDispatcher::new();
    let mut radio = Radio::new();

    for sf in [0, 6, 13, 255] {
        let response = dispatch(&mut dispatcher, &mut radio,
                Command::SetSpreadingFactor { spreading_factor: sf },
                0,
            );
        match response {
            Response::Error { status, .. } => {
                assert_eq!(status, ResponseStatus::InvalidParameter);
            }
            _ => panic!("SF{sf} must be rejected"),
        }
    }
    assert!(radio.config.is_none(), "rejected SF must not touch the radio");
}

#[test]
fn set_spreading_factor_keeps_old_config_on_radio_error() {
    let mut dispatcher = CommandDispatcher::new();
    let mut radio = Radio::new();

    radio.next_configure_error = Some(LoraError::SpiError);
    let response = dispatch(&mut dispatcher, &mut radio,
            Command::SetSpreadingFactor { spreading_factor: 9 },
            0,
        );
    assert!(matches!(response, Response::Error { .. }));

    // The reported config still holds the default SF.
    let response = dispatch(&mut dispatcher, &mut radio, Command::GetRadioConfig, 0);
    match response {
        Response::RadioConfig { spreading_factor, .. } => {
            assert_eq!(spreading_factor, 11);
        }
        _ => panic!("Expected RadioConfig response"),
    }
}

/// Fill the duty cycle budget with max-size packets, then verify refusal.
#[test]
fn lora_tx_is_refused_once_the_duty_cycle_budget_is_spent() {
    let mut dispatcher = CommandDispatcher::new();
    let mut radio = Radio::new();

    let data = bytes(&[0xAA; 255]);

    // A 255-byte packet at SF11/BW250/CR4/8 is ~3.25 s on air; the 10%
    // band allows 360 s per hour, so at most 110 fit.
    let mut sent = 0;
    let mut refused_at = None;
    for i in 0..130u64 {
        let response = dispatch(&mut dispatcher, &mut radio, Command::LoraTx { data: data.clone() }, i * 100);
        match response {
            Response::TxComplete => sent += 1,
            Response::TxRefused { retry_after_secs } => {
                assert!(retry_after_secs > 0, "refusal must carry a retry hint");
                assert!(retry_after_secs <= 3_600, "retry must be within the hour");
                refused_at = Some(i);
                break;
            }
            _ => panic!("Unexpected response"),
        }
    }

    assert_eq!(refused_at, Some(sent), "refusal must follow the last success");
    assert!((108..=112).contains(&sent), "got {sent} packets through");

    // A sliding hour later the budget is free again.
    let response = dispatch(&mut dispatcher, &mut radio,
            Command::LoraTx { data: data.clone() },
            61 * 60_000,
        );
    assert!(matches!(response, Response::TxComplete));
}

/// Dropping to SF7 makes packets ~40x cheaper, so far more of them fit.
#[test]
fn duty_cycle_budget_follows_the_configured_spreading_factor() {
    let mut dispatcher = CommandDispatcher::new();
    let mut radio = Radio::new();

    dispatch(&mut dispatcher, &mut radio,
            Command::SetSpreadingFactor { spreading_factor: 7 },
            0,
        );

    let data = bytes(&[0xAA; 255]);

    // ~184 ms per packet: well over 60 must fit in the 360 s budget.
    for i in 0..60u64 {
        let response = dispatch(&mut dispatcher, &mut radio, Command::LoraTx { data: data.clone() }, i * 100);
        assert!(matches!(response, Response::TxComplete));
    }
}

#[test]
fn radio_errors_have_their_statuses() {
    for (error, expected) in [
        (LoraError::Timeout, ResponseStatus::Timeout),
        (LoraError::InvalidConfig, ResponseStatus::InvalidLength),
        (LoraError::SpiError, ResponseStatus::LoraError),
    ] {
        let mut dispatcher = CommandDispatcher::new();
        let mut radio = Radio::new();
        radio.next_tx_error = Some(error);
        let response =
            dispatch(&mut dispatcher, &mut radio, Command::LoraTx { data: bytes(&[1]) }, 0);
        assert!(response == Response::Error { status: expected, command_id: 0x10 });
    }
}

#[test]
fn reboot_is_not_for_the_dispatcher() {
    let mut dispatcher = CommandDispatcher::new();
    let mut radio = Radio::new();
    let response = dispatch(&mut dispatcher, &mut radio, Command::Reboot, 0);
    assert!(
        response == Response::Error { status: ResponseStatus::InvalidCommand, command_id: 0x03 }
    );
}

#[test]
fn a_failed_transmission_stays_charged() {
    let mut dispatcher = CommandDispatcher::new();
    let mut radio = Radio::new();
    let data = bytes(&[0xAA; 255]);
    let mut attempts = 0;
    loop {
        radio.next_tx_error = Some(LoraError::TransmitFailed);
        match dispatch(&mut dispatcher, &mut radio, Command::LoraTx { data: data.clone() }, 0) {
            Response::Error { .. } => attempts += 1,
            Response::TxRefused { .. } => break,
            _ => panic!("Unexpected response"),
        }
    }
    // 110 packets of 3247 ms fit 360 s.
    assert_eq!(attempts, 110);
}
