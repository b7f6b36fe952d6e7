use lora_mqtt_hub::lora::calibration::{
    bandwidth_hz, image_cal_params, ldro_enabled, symbol_time_us, CALIBRATE_ALL,
};
use lora_mqtt_hub::lora::driver::{
    calibrate_image, clear_irq, fire_tx, irq_status, received_packet, register_with_bits,
    rx_outcome, tx_outcome, RadioState, RadioStep, CALIBRATE, CALIBRATE_IMAGE, CLEAR_DEVICE_ERRORS,
    OCP_CONFIGURATION, SET_DIO3_AS_TCXO_CTRL, SET_MODULATION_PARAMS, SET_PACKET_PARAMS,
    SET_PA_CONFIG, SET_REGULATOR_MODE, SET_RF_FREQUENCY, SET_RX, SET_STANDBY, SET_TX,
    TX_CLAMP_CONFIG, WRITE_REGISTER,
};
use lora_mqtt_hub::lora::traits::{LoraConfig, LoraError, SyncWord};

/// Carries out steps against a bus on which every register reads zero, and
/// records what is written.
fn record(writes: &mut Vec<Vec<u8>>, steps: Vec<RadioStep>) {
    for step in steps {
        let written = match step {
            RadioStep::Write(bytes) => bytes,
            RadioStep::SetBits { addr, mask } => match register_with_bits(addr, 0, mask) {
                RadioStep::Write(bytes) => bytes,
                _ => panic!("a register is set by a write"),
            },
            _ => continue,
        };
        writes.push(written);
    }
}

fn initialised() -> (RadioState, Vec<Vec<u8>>) {
    let mut radio = RadioState::new();
    let mut writes = Vec::new();
    record(&mut writes, radio.begin_init());
    radio.finish_init();
    (radio, writes)
}

fn first_index(writes: &[Vec<u8>], opcode: u8) -> Option<usize> {
    writes.iter().position(|w| w.first() == Some(&opcode))
}

/// Find the first WriteRegister (0x0D) targeting the given address.
fn first_register_write(writes: &[Vec<u8>], addr: u16) -> Option<usize> {
    writes.iter().position(|w| {
        w.first() == Some(&WRITE_REGISTER)
            && w.get(1) == Some(&((addr >> 8) as u8))
            && w.get(2) == Some(&(addr as u8))
    })
}

#[test]
fn init_calibrates_after_tcxo_and_image_after_frequency() {
    let (_, writes) = initialised();

    let tcxo = first_index(&writes, SET_DIO3_AS_TCXO_CTRL)
        .expect("TCXO control should be configured");
    let calibrate = first_index(&writes, CALIBRATE).expect("Calibrate must be issued during init");
    assert!(
        calibrate > tcxo,
        "Calibrate (0x89) must be issued after SetDIO3AsTcxoCtrl (0x97)"
    );
    assert_eq!(
        writes[calibrate].get(1).copied(),
        Some(CALIBRATE_ALL),
        "Calibrate must request all blocks (0x7F)"
    );

    let frequency = first_index(&writes, SET_RF_FREQUENCY).expect("RF frequency should be set");
    let image =
        first_index(&writes, CALIBRATE_IMAGE).expect("CalibrateImage must be issued during init");
    assert!(
        image > frequency,
        "CalibrateImage (0x98) must be issued after SetRfFrequency (0x86)"
    );
    assert_eq!(
        &writes[image][1..3],
        &[0xD7, 0xDB],
        "Default 869.525 MHz maps to the 863-870 MHz image band"
    );
}

#[test]
fn calibrate_image_emits_band_bytes() {
    let mut writes = Vec::new();
    record(&mut writes, vec![calibrate_image(915_000_000)]);
    let image = first_index(&writes, CALIBRATE_IMAGE).expect("CalibrateImage should be recorded");
    assert_eq!(&writes[image][1..3], &[0xE1, 0xE9]);
}

#[test]
fn init_sets_regulator_clamp_errors_and_ocp_order() {
    let (_, writes) = initialised();

    // DC-DC regulator selected (module is a DC-DC design), in STDBY_RC.
    let standby = first_index(&writes, SET_STANDBY).expect("standby issued");
    let regulator = first_index(&writes, SET_REGULATOR_MODE)
        .expect("SetRegulatorMode must be issued during init");
    assert_eq!(writes[regulator].get(1), Some(&0x01), "DC_DC+LDO mode");
    assert!(regulator > standby, "regulator mode must follow standby");

    // XOSC_START_ERR cleared after the TCXO-driven recalibration.
    let calibrate = first_index(&writes, CALIBRATE).expect("calibrate issued");
    let clear_errors = first_index(&writes, CLEAR_DEVICE_ERRORS)
        .expect("ClearDeviceErrors must be issued during init");
    assert!(clear_errors > calibrate);

    // Errata 15.2: TxClampConfig bits 4:1 set after read-modify-write.
    let clamp = first_register_write(&writes, TX_CLAMP_CONFIG)
        .expect("TxClampConfig must be written during init");
    let clamp_value = writes[clamp][3];
    assert_eq!(clamp_value & 0x1E, 0x1E, "PA clamp bits 4:1 must be 1111");

    // OCP is reset by SetPaConfig, so the explicit limit must come after.
    let pa_config = first_index(&writes, SET_PA_CONFIG).expect("PA configured");
    let ocp = first_register_write(&writes, OCP_CONFIGURATION)
        .expect("OCP limit must be written during init");
    assert!(
        ocp > pa_config,
        "OCP write (reg 0x08E7) must follow SetPaConfig, which resets it"
    );
}

#[test]
fn init_applies_sf11_default() {
    let (_, writes) = initialised();
    let modulation = first_index(&writes, SET_MODULATION_PARAMS)
        .expect("modulation params must be set during init");
    // [opcode, SF, BW, CR, LDRO]
    assert_eq!(writes[modulation][1], 11, "default must be SF11");
    assert_eq!(writes[modulation][2], 0x05, "250 kHz bandwidth code");
    assert_eq!(writes[modulation][4], 0x00, "SF11 at 250 kHz needs no LDRO");
}

#[test]
fn transmit_rejects_payload_over_255_bytes() {
    let (mut radio, writes) = initialised();

    // 256 bytes fits MAX_LORA_PAYLOAD but overflows the modem's one-byte
    // length field; it used to truncate to 0 and transmit an empty packet.
    let payload = [0xAAu8; 256];
    let result = radio.begin_transmit(&payload);
    assert_eq!(result.err(), Some(LoraError::InvalidConfig));

    assert!(
        first_index(&writes, SET_TX).is_none(),
        "an oversize payload must never reach SetTx"
    );
}

#[test]
fn transmit_accepts_255_byte_payload() {
    let (mut radio, mut writes) = initialised();

    let payload = [0x55u8; 255];
    let steps = radio.begin_transmit(&payload).ok().unwrap();
    record(&mut writes, steps);

    let set_tx = first_index(&writes, SET_TX);
    assert!(set_tx.is_some(), "a 255-byte payload must reach SetTx");
    let params = writes
        .iter()
        .rposition(|w| w.first() == Some(&SET_PACKET_PARAMS))
        .expect("packet params written for TX");
    assert_eq!(writes[params][4], 255, "payload length must survive intact");
}

#[test]
fn standby_clears_continuous_rx_and_arm_rearms() {
    let (mut radio, mut writes) = initialised();
    assert!(radio.in_continuous_rx(), "init leaves the radio listening");

    record(&mut writes, radio.begin_standby());
    assert!(
        !radio.in_continuous_rx(),
        "any path through standby must clear the continuous-RX flag"
    );

    let rx_before = writes.iter().filter(|w| w.first() == Some(&SET_RX)).count();
    let steps = radio.begin_arm().ok().unwrap();
    record(&mut writes, steps);
    radio.finish_arm();
    assert!(radio.in_continuous_rx());
    let rx_after = writes.iter().filter(|w| w.first() == Some(&SET_RX)).count();
    assert_eq!(rx_after, rx_before + 1, "arm_receive must re-issue SetRx");
}

#[test]
fn arming_a_listening_radio_is_silent() {
    let (mut radio, _) = initialised();
    assert!(radio.begin_arm().ok().unwrap().is_empty());
}

#[test]
fn an_uninitialised_radio_is_refused() {
    let mut radio = RadioState::new();
    assert_eq!(radio.begin_arm().err(), Some(LoraError::NotInitialised));
    assert_eq!(radio.begin_transmit(&[1]).err(), Some(LoraError::NotInitialised));
}

#[test]
fn empty_packets_are_refused() {
    let (mut radio, _) = initialised();
    assert_eq!(radio.begin_transmit(&[]).err(), Some(LoraError::InvalidConfig));
}

#[test]
fn frequency_register_and_sync_word_follow_the_configuration() {
    let (mut radio, _) = initialised();
    let config = LoraConfig {
        frequency_hz: 868_100_000,
        spreading_factor: 12,
        bandwidth_khz: 125,
        sync_word: SyncWord::Public,
        ..LoraConfig::default()
    };
    let mut writes = Vec::new();
    record(&mut writes, radio.begin_configure(&config));
    radio.finish_configure(&config);

    // 868.1 MHz * 2^25 / 32 MHz = 0x36419999 (rounded down).
    let frequency = first_index(&writes, SET_RF_FREQUENCY).unwrap();
    assert_eq!(&writes[frequency][1..], &[0x36, 0x41, 0x99, 0x99]);
    let modulation = first_index(&writes, SET_MODULATION_PARAMS).unwrap();
    assert_eq!(&writes[modulation][1..], &[12, 0x04, 0x04, 0x01]);
    let high = first_register_write(&writes, 0x0740).unwrap();
    let low = first_register_write(&writes, 0x0741).unwrap();
    assert_eq!((writes[high][3], writes[low][3]), (0x34, 0x44));
}

#[test]
fn interrupts_decide_the_outcome() {
    assert_eq!(tx_outcome(0x0001), Ok(()));
    assert_eq!(tx_outcome(0x0200), Err(LoraError::TransmitFailed));
    assert_eq!(rx_outcome(0x0002), Ok(()));
    assert_eq!(rx_outcome(0x0042), Err(LoraError::CrcError));
    assert_eq!(rx_outcome(0x0000), Err(LoraError::ReceiveFailed));
    assert_eq!(irq_status(0x02, 0x01), 0x0201);
}

#[test]
fn single_commands_are_spelled_out() {
    let mut writes = Vec::new();
    record(&mut writes, vec![clear_irq(0xFFFF), fire_tx()]);
    assert_eq!(writes, vec![vec![0x02, 0xFF, 0xFF], vec![0x83, 0x00, 0x00, 0x00]]);
}

#[test]
fn received_packets_carry_signal_values() {
    // Three bytes of read header, then the packet; RSSI is -value / 2, SNR is
    // value / 4.
    let packet = received_packet(&[0, 0, 0, b'H', b'i'], 174, 20).ok().unwrap();
    assert_eq!(packet.data.as_slice(), b"Hi");
    assert_eq!(packet.rssi, -87);
    assert_eq!(packet.snr, 5);
    let packet = received_packet(&[0, 0, 0, 1], 0, 0xFC).ok().unwrap();
    assert_eq!(packet.snr, -1);
}

#[test]
fn calibration_tables() {
    assert_eq!(bandwidth_hz(125), 125_000);
    assert_eq!(bandwidth_hz(62), 62_500);
    assert_eq!(symbol_time_us(11, 250), 8_192);
    assert!(!ldro_enabled(11, 250));
    assert!(ldro_enabled(12, 125));
    assert_eq!(image_cal_params(868_100_000), (0xD7, 0xDB));
    assert_eq!(image_cal_params(433_500_000), (0x6B, 0x6F));
}
