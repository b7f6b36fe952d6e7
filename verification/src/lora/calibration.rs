//! Radio calibration and low data rate rules (SX126x datasheet).
use vstd::prelude::*;

verus! {

/// Calibrate every block: RC64k, RC13M, PLL, ADC (pulse, bulk N and P), image.
pub const CALIBRATE_ALL: u8 = 0x7F;

/// The symbol time, in microseconds, from which low data rate optimisation is
/// on: 16.38 ms.
pub const LDRO_SYMBOL_US: u64 = 16_380;

/// The exact bandwidth in Hz behind a bandwidth label in kHz.
pub open spec fn hz_of_label(bandwidth_khz: int) -> int {
    if bandwidth_khz == 7 || bandwidth_khz == 8 {
        7_800
    } else if bandwidth_khz == 10 {
        10_400
    } else if bandwidth_khz == 15 || bandwidth_khz == 16 {
        15_600
    } else if bandwidth_khz == 20 || bandwidth_khz == 21 {
        20_800
    } else if bandwidth_khz == 31 {
        31_250
    } else if bandwidth_khz == 41 || bandwidth_khz == 42 {
        41_700
    } else if bandwidth_khz == 62 || bandwidth_khz == 63 {
        62_500
    } else if bandwidth_khz == 250 {
        250_000
    } else if bandwidth_khz == 500 {
        500_000
    } else {
        125_000
    }
}

/// Map the bandwidth label in kHz to the exact bandwidth in Hz.
///
/// Same label set (and fallback) as the driver's SetModulationParams mapping,
/// so the airtime calculation always agrees with what is on the air.
pub fn bandwidth_hz(bandwidth_khz: u32) -> (r: u32)
    ensures
        r as int == hz_of_label(bandwidth_khz as int),
        7_800 <= r <= 500_000,
{
    match bandwidth_khz {
        7 | 8 => 7_800,
        10 => 10_400,
        15 | 16 => 15_600,
        20 | 21 => 20_800,
        31 => 31_250,
        41 | 42 => 41_700,
        62 | 63 => 62_500,
        125 => 125_000,
        250 => 250_000,
        500 => 500_000,
        _ => 125_000,
    }
}

/// A spreading factor brought into the permitted range 7 to 12.
pub open spec fn clamped_sf(spreading_factor: int) -> int {
    if spreading_factor < 7 {
        7
    } else if spreading_factor > 12 {
        12
    } else {
        spreading_factor
    }
}

/// Chips of one symbol: two to the power of the spreading factor, for those in
/// the permitted range.
pub open spec fn chips_per_symbol(sf: int) -> int {
    if sf <= 7 {
        128
    } else if sf == 8 {
        256
    } else if sf == 9 {
        512
    } else if sf == 10 {
        1024
    } else if sf == 11 {
        2048
    } else {
        4096
    }
}

/// Duration of one symbol in whole microseconds.
pub open spec fn symbol_us(sf: int, bandwidth_khz: int) -> int {
    chips_per_symbol(sf) * 1_000_000 / hz_of_label(bandwidth_khz)
}

/// Duration of one symbol in whole microseconds, for a spreading factor in
/// the permitted range.
pub fn symbol_time_us(sf: u8, bandwidth_khz: u32) -> (r: u64)
    requires
        7 <= sf <= 12,
    ensures
        r as int == symbol_us(sf as int, bandwidth_khz as int),
        256 <= r <= 525_129,
{
    let chips: u64 = match sf {
        7 => 128,
        8 => 256,
        9 => 512,
        10 => 1024,
        11 => 2048,
        _ => 4096,
    };
    let hz: u64 = bandwidth_hz(bandwidth_khz) as u64;
    assert(256 <= (chips * 1_000_000) / hz as int <= 525_129) by (nonlinear_arith)
        requires
            128 <= chips <= 4096,
            7_800 <= hz <= 500_000,
    ;
    chips * 1_000_000 / hz
}

/// Whether low data rate optimisation applies: a symbol lasts 16.38 ms or
/// longer.
pub open spec fn ldro(sf: int, bandwidth_khz: int) -> bool {
    symbol_us(sf, bandwidth_khz) >= LDRO_SYMBOL_US
}

/// Whether low data rate optimisation must be on for this modulation. The
/// spreading factor is brought into the range 7 to 12 first.
pub fn ldro_enabled(spreading_factor: u8, bandwidth_khz: u32) -> (r: bool)
    ensures
        r == ldro(clamped_sf(spreading_factor as int), bandwidth_khz as int),
{
    let sf: u8 = if spreading_factor < 7 {
        7
    } else if spreading_factor > 12 {
        12
    } else {
        spreading_factor
    };
    symbol_time_us(sf, bandwidth_khz) >= LDRO_SYMBOL_US
}

/// The two CalibrateImage arguments for the ISM band that holds a frequency.
/// Outside the bands that the datasheet lists, those of 863-870 MHz.
pub open spec fn image_band(freq_hz: int) -> (u8, u8) {
    if 430_000_000 <= freq_hz <= 440_000_000 {
        (0x6B, 0x6F)
    } else if 470_000_000 <= freq_hz <= 510_000_000 {
        (0x75, 0x81)
    } else if 779_000_000 <= freq_hz <= 787_000_000 {
        (0xC1, 0xC5)
    } else if 902_000_000 <= freq_hz <= 928_000_000 {
        (0xE1, 0xE9)
    } else {
        (0xD7, 0xDB)
    }
}

/// CalibrateImage arguments for the ISM band holding `freq_hz`.
pub fn image_cal_params(freq_hz: u32) -> (r: (u8, u8))
    ensures
        r == image_band(freq_hz as int),
{
    if 430_000_000 <= freq_hz && freq_hz <= 440_000_000 {
        (0x6B, 0x6F)
    } else if 470_000_000 <= freq_hz && freq_hz <= 510_000_000 {
        (0x75, 0x81)
    } else if 779_000_000 <= freq_hz && freq_hz <= 787_000_000 {
        (0xC1, 0xC5)
    } else if 902_000_000 <= freq_hz && freq_hz <= 928_000_000 {
        (0xE1, 0xE9)
    } else {
        (0xD7, 0xDB)
    }
}

/// The bandwidth that a label stands for: the ten that LoRa knows, with the two
/// ways to round those that are no whole number of kHz, and 125 kHz for any
/// other label.
pub proof fn bandwidth_labels(khz: int)
    ensures
        7 <= khz <= 8 ==> hz_of_label(khz) == 7_800,
        khz == 10 ==> hz_of_label(khz) == 10_400,
        15 <= khz <= 16 ==> hz_of_label(khz) == 15_600,
        20 <= khz <= 21 ==> hz_of_label(khz) == 20_800,
        khz == 31 ==> hz_of_label(khz) == 31_250,
        41 <= khz <= 42 ==> hz_of_label(khz) == 41_700,
        62 <= khz <= 63 ==> hz_of_label(khz) == 62_500,
        khz == 250 ==> hz_of_label(khz) == 250_000,
        khz == 500 ==> hz_of_label(khz) == 500_000,
        !(7 <= khz <= 8 || khz == 10 || 15 <= khz <= 16 || 20 <= khz <= 21 || khz == 31 || 41 <= khz
            <= 42 || 62 <= khz <= 63 || khz == 250 || khz == 500) ==> hz_of_label(khz) == 125_000,
{
}

/// A symbol takes the time of two to the power of the spreading factor chips,
/// cut to whole microseconds.
pub proof fn symbols_take_their_chips(sf: int, bandwidth_khz: int)
    requires
        7 <= sf <= 12,
    ensures
        symbol_us(sf, bandwidth_khz) * hz_of_label(bandwidth_khz) <= vstd::arithmetic::power2::pow2(
            sf as nat,
        ) * 1_000_000,
        vstd::arithmetic::power2::pow2(sf as nat) * 1_000_000 < (symbol_us(sf, bandwidth_khz) + 1)
            * hz_of_label(bandwidth_khz),
{
    vstd::arithmetic::power2::lemma2_to64();
    let all = chips_per_symbol(sf) * 1_000_000;
    let hz = hz_of_label(bandwidth_khz);
    assert(chips_per_symbol(sf) == vstd::arithmetic::power2::pow2(sf as nat));
    assert(all / hz * hz <= all < (all / hz + 1) * hz) by (nonlinear_arith)
        requires
            hz > 0,
            all >= 0,
    ;
}

/// Low data rate optimisation is on exactly for symbols of 16.38 ms and more:
/// SF11 and SF12 at 125 kHz, SF12 at 250 kHz, and never at 500 kHz. Spreading
/// factors outside 7 to 12 count as the nearest one.
pub proof fn slow_symbols_are_optimised(sf: int, bandwidth_khz: int)
    requires
        7 <= sf <= 12,
    ensures
        ldro(sf, bandwidth_khz) <==> symbol_us(sf, bandwidth_khz) >= 16_380,
        ldro(sf, 125) <==> sf >= 11,
        ldro(sf, 250) <==> sf == 12,
        !ldro(sf, 500),
        clamped_sf(sf) == sf,
        forall|low: int| low < 7 ==> #[trigger] clamped_sf(low) == 7,
        forall|high: int| high > 12 ==> #[trigger] clamped_sf(high) == 12,
{
}

/// The image is calibrated for the ISM band around the frequency, by the two
/// arguments that the datasheet lists for it. Frequencies outside the listed
/// bands are taken for 863-870 MHz.
pub proof fn image_bands(freq_hz: int)
    ensures
        430_000_000 <= freq_hz <= 440_000_000 ==> image_band(freq_hz) == (0x6Bu8, 0x6Fu8),
        470_000_000 <= freq_hz <= 510_000_000 ==> image_band(freq_hz) == (0x75u8, 0x81u8),
        779_000_000 <= freq_hz <= 787_000_000 ==> image_band(freq_hz) == (0xC1u8, 0xC5u8),
        863_000_000 <= freq_hz <= 870_000_000 ==> image_band(freq_hz) == (0xD7u8, 0xDBu8),
        902_000_000 <= freq_hz <= 928_000_000 ==> image_band(freq_hz) == (0xE1u8, 0xE9u8),
        freq_hz < 430_000_000 || 440_000_000 < freq_hz < 470_000_000 || 510_000_000 < freq_hz
            < 779_000_000 || 787_000_000 < freq_hz < 902_000_000 || 928_000_000 < freq_hz
            ==> image_band(freq_hz) == (0xD7u8, 0xDBu8),
{
}

} // verus!
