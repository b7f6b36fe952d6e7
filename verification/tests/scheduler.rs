use lora_mqtt_hub::gateway::eui::gateway_eui;
use lora_mqtt_hub::gateway::scheduler::{
    classify, tmst_delta_us, Classify, MAX_AHEAD_US, SETUP_LEAD_US,
};

#[test]
fn inserts_fffe_in_the_middle() {
    let eui = gateway_eui(&[0x24, 0x6F, 0x28, 0xAA, 0xBB, 0xCC]);
    assert_eq!(eui, [0x24, 0x6F, 0x28, 0xFF, 0xFE, 0xAA, 0xBB, 0xCC]);
}

#[test]
fn boards_have_euis_of_their_own() {
    let one = gateway_eui(&[0x24, 0x6F, 0x28, 0xAA, 0xBB, 0xCC]);
    let other = gateway_eui(&[0x24, 0x6F, 0x28, 0xAA, 0xBB, 0xCD]);
    assert_ne!(one, other);
}

#[test]
fn delta_handles_wraparound() {
    // Target just after the counter wraps, now just before.
    assert_eq!(tmst_delta_us(u32::MAX - 999, 1_000), 2_000);
    // Target in the past across the wrap boundary.
    assert_eq!(tmst_delta_us(1_000, u32::MAX - 999), -2_000);
    assert_eq!(tmst_delta_us(5_000, 5_000), 0);
}

#[test]
fn classify_boundaries() {
    let now = 1_000_000u32;
    assert_eq!(classify(now, true, None), Classify::Immediate);
    assert_eq!(classify(now, false, None), Classify::TooLate);
    // Exactly one RX1 second ahead.
    assert_eq!(
        classify(now, false, Some(now + 1_000_000)),
        Classify::At { delta_us: 1_000_000 }
    );
    // Inside the setup lead: unachievable.
    assert_eq!(
        classify(now, false, Some(now + SETUP_LEAD_US - 1)),
        Classify::TooLate
    );
    // In the past.
    assert_eq!(classify(now, false, Some(now - 1)), Classify::TooLate);
    // Beyond the acceptance window.
    assert_eq!(
        classify(now, false, Some(now + MAX_AHEAD_US as u32 + 1)),
        Classify::TooEarly
    );
}

#[test]
fn classify_across_the_wrap() {
    let now = u32::MAX - 100_000;
    assert_eq!(
        classify(now, false, Some(now.wrapping_add(2_000_000))),
        Classify::At { delta_us: 2_000_000 }
    );
}
