use lora_mqtt_hub::lora::airtime::{time_on_air_ms, time_on_air_ms_ext};

#[test]
fn matches_known_sf7_value() {
    // Canonical LoRa calculator value: SF7, BW125, CR4/5, 13-byte payload,
    // 8-symbol preamble, explicit header, CRC on = 46.336 ms.
    assert_eq!(time_on_air_ms(7, 125, 5, 13), 47);
}

#[test]
fn matches_known_sf12_value() {
    // SF12, BW250, CR4/8, 20 bytes, LDRO on: 52.25 symbols of 16.384 ms
    // = 856.064 ms.
    assert_eq!(time_on_air_ms(12, 250, 8, 20), 857);
}

#[test]
fn max_payload_at_sf12_is_about_seven_seconds() {
    let ms = time_on_air_ms(12, 250, 8, 255);
    assert!((6_900..7_100).contains(&ms), "got {ms} ms");
}

#[test]
fn max_payload_at_sf11_default_is_about_three_seconds() {
    // 396.25 symbols of 8.192 ms at SF11/BW250/CR4/8, no LDRO.
    assert_eq!(time_on_air_ms(11, 250, 8, 255), 3_247);
}

#[test]
fn airtime_grows_with_spreading_factor() {
    let mut previous = 0;
    for sf in 7..=12 {
        let ms = time_on_air_ms(sf, 250, 8, 100);
        assert!(ms > previous, "SF{sf} not slower than SF{}", sf - 1);
        previous = ms;
    }
}

#[test]
fn empty_payload_still_costs_preamble_and_header() {
    // The header and CRC alone need one coded block: 12.25 preamble +
    // 13 payload symbols at SF7/BW250 (0.512 ms/symbol) = 12.928 ms.
    assert_eq!(time_on_air_ms(7, 250, 5, 0), 13);
}

#[test]
fn out_of_range_inputs_fall_back_safely() {
    // SF clamps into 7-12, coding rate falls back to 4/5: both resolve to
    // valid airtime rather than panicking.
    assert_eq!(time_on_air_ms(0, 250, 0, 10), time_on_air_ms(7, 250, 5, 10));
    assert_eq!(time_on_air_ms(200, 250, 8, 10), time_on_air_ms(12, 250, 8, 10));
}

#[test]
fn ext_with_defaults_matches_the_plain_function() {
    for (sf, bw, cr, len) in [(7, 125, 5, 13), (11, 250, 8, 255), (12, 250, 8, 20)] {
        assert_eq!(
            time_on_air_ms(sf, bw, cr, len),
            time_on_air_ms_ext(sf, bw, cr, len, 8, true)
        );
    }
}

#[test]
fn crc_off_downlink_matches_known_value() {
    // Canonical LoRa calculator: SF12, BW125, CR4/5, 17-byte payload,
    // 8-symbol preamble, explicit header, CRC off = 1155.072 ms.
    assert_eq!(time_on_air_ms_ext(12, 125, 5, 17, 8, false), 1156);
}

#[test]
fn crc_off_never_exceeds_crc_on() {
    for len in [0usize, 12, 51, 255] {
        let with_crc = time_on_air_ms_ext(9, 125, 5, len, 8, true);
        let without = time_on_air_ms_ext(9, 125, 5, len, 8, false);
        assert!(without <= with_crc, "len {len}: {without} > {with_crc}");
    }
}

#[test]
fn longer_preamble_costs_more() {
    let short = time_on_air_ms_ext(7, 125, 5, 20, 8, true);
    let long = time_on_air_ms_ext(7, 125, 5, 20, 16, true);
    // Eight extra SF7/BW125 symbols are 8 x 1.024 ms.
    assert_eq!(long - short, 8);
}

#[test]
fn airtime_grows_with_content_and_never_shrinks() {
    for sf in 7..=12u8 {
        let mut previous = 0;
        for len in 0..=256usize {
            let ms = time_on_air_ms(sf, 250, 8, len);
            assert!(ms >= previous);
            previous = ms;
        }
    }
}
