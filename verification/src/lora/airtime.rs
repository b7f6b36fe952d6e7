//! LoRa time-on-air calculation (Semtech SX126x datasheet, section 6.1.4).
//!
//! The header is always explicit, as the driver configures it.
use crate::lora::calibration;
use crate::lora::calibration::{ldro_enabled, symbol_time_us};
use vstd::prelude::*;

verus! {

/// Preamble length in symbols, matching the driver's packet params.
pub const PREAMBLE_SYMBOLS: u16 = 8;

/// The coding rate as the number of extra bits per four: 1 to 4. Anything but
/// a denominator of 5 to 8 means 4/5.
pub open spec fn coding_extra(coding_rate: int) -> int {
    if 5 <= coding_rate <= 8 {
        coding_rate - 4
    } else {
        1
    }
}

/// Bits that the coded blocks of a packet carry: payload, header and checksum
/// beyond those in the first eight symbols. May be negative.
pub open spec fn coded_bits(sf: int, payload_len: int, crc_on: bool) -> int {
    8 * payload_len - 4 * sf + 28 + (if crc_on {
        16int
    } else {
        0int
    })
}

/// Bits that fit one coded block.
pub open spec fn block_bits(sf: int, bandwidth_khz: int) -> int {
    4 * (sf - 2 * (if calibration::ldro(sf, bandwidth_khz) {
        1int
    } else {
        0int
    }))
}

/// Coded blocks of a packet: the bits divided by the block size, rounded up.
pub open spec fn blocks(sf: int, bandwidth_khz: int, payload_len: int, crc_on: bool) -> int {
    let bits = coded_bits(sf, payload_len, crc_on);
    if bits > 0 {
        (bits + block_bits(sf, bandwidth_khz) - 1) / block_bits(sf, bandwidth_khz)
    } else {
        0
    }
}

/// Symbols of the payload part of a packet.
pub open spec fn payload_symbols(
    sf: int,
    bandwidth_khz: int,
    coding_rate: int,
    payload_len: int,
    crc_on: bool,
) -> int {
    8 + blocks(sf, bandwidth_khz, payload_len, crc_on) * (coding_extra(coding_rate) + 4)
}

/// Length of a packet in quarter symbols: the preamble, 4.25 sync symbols and
/// the payload part.
pub open spec fn quarter_symbols(
    sf: int,
    bandwidth_khz: int,
    coding_rate: int,
    payload_len: int,
    preamble_symbols: int,
    crc_on: bool,
) -> int {
    (preamble_symbols + payload_symbols(sf, bandwidth_khz, coding_rate, payload_len, crc_on)) * 4
        + 17
}

/// Time on air in whole microseconds.
pub open spec fn airtime_us(
    sf: int,
    bandwidth_khz: int,
    coding_rate: int,
    payload_len: int,
    preamble_symbols: int,
    crc_on: bool,
) -> int {
    quarter_symbols(sf, bandwidth_khz, coding_rate, payload_len, preamble_symbols, crc_on)
        * calibration::symbol_us(sf, bandwidth_khz) / 4
}

/// Time on air in milliseconds, rounded up. The spreading factor is brought
/// into the range 7 to 12 first.
pub open spec fn airtime_ms(
    spreading_factor: int,
    bandwidth_khz: int,
    coding_rate: int,
    payload_len: int,
    preamble_symbols: int,
    crc_on: bool,
) -> int {
    (airtime_us(
        calibration::clamped_sf(spreading_factor),
        bandwidth_khz,
        coding_rate,
        payload_len,
        preamble_symbols,
        crc_on,
    ) + 999) / 1000
}

/// Whether the symbols of a packet can be counted in 32 bits.
pub open spec fn symbols_fit(
    spreading_factor: int,
    bandwidth_khz: int,
    coding_rate: int,
    payload_len: int,
    preamble_symbols: int,
    crc_on: bool,
) -> bool {
    preamble_symbols + payload_symbols(
        calibration::clamped_sf(spreading_factor),
        bandwidth_khz,
        coding_rate,
        payload_len,
        crc_on,
    ) <= u32::MAX
}

/// Every packet that LoRa can carry, up to 256 bytes with any preamble, has a
/// countable number of symbols and an airtime that fits 32 bits.
pub proof fn lora_packets_fit(
    spreading_factor: int,
    bandwidth_khz: int,
    coding_rate: int,
    payload_len: int,
    preamble_symbols: int,
    crc_on: bool,
)
    requires
        0 <= payload_len <= 256,
        0 <= preamble_symbols <= u16::MAX,
    ensures
        symbols_fit(
            spreading_factor,
            bandwidth_khz,
            coding_rate,
            payload_len,
            preamble_symbols,
            crc_on,
        ),
        0 <= airtime_ms(
            spreading_factor,
            bandwidth_khz,
            coding_rate,
            payload_len,
            preamble_symbols,
            crc_on,
        ) <= 100_000_000,
{
    let sf = calibration::clamped_sf(spreading_factor);
    let bits = coded_bits(sf, payload_len, crc_on);
    let size = block_bits(sf, bandwidth_khz);
    let b = blocks(sf, bandwidth_khz, payload_len, crc_on);
    let c = coding_extra(coding_rate) + 4;
    lemma_symbol_us_range(sf, bandwidth_khz);
    assert(0 <= b <= 2_110) by {
        if bits > 0 {
            assert(0 <= (bits + size - 1) / size <= bits) by (nonlinear_arith)
                requires
                    bits >= 1,
                    size >= 1,
            ;
        }
    }
    assert(0 <= b * c <= 2_110 * 8) by (nonlinear_arith)
        requires
            0 <= b <= 2_110,
            5 <= c <= 8,
    ;
    let q = quarter_symbols(
        sf,
        bandwidth_khz,
        coding_rate,
        payload_len,
        preamble_symbols,
        crc_on,
    );
    let t = calibration::symbol_us(sf, bandwidth_khz);
    assert(0 <= q * t <= 329_709 * 525_129) by (nonlinear_arith)
        requires
            0 <= q <= 329_709,
            0 <= t <= 525_129,
    ;
}

/// The range of symbol times.
proof fn lemma_symbol_us_range(sf: int, bandwidth_khz: int)
    requires
        7 <= sf <= 12,
    ensures
        256 <= calibration::symbol_us(sf, bandwidth_khz) <= 525_129,
{
    let chips = calibration::chips_per_symbol(sf);
    let hz = calibration::hz_of_label(bandwidth_khz);
    assert(128 <= chips <= 4096);
    assert(256 <= chips * 1_000_000 / hz <= 525_129) by (nonlinear_arith)
        requires
            128 <= chips <= 4096,
            7_800 <= hz <= 500_000,
    ;
}

/// Time on air in milliseconds (rounded up) for one LoRa packet, with the
/// default packet shape (8-symbol preamble, CRC on).
///
/// `coding_rate` is the denominator (5-8 for 4/5 to 4/8); out-of-range values
/// fall back to 4/5, matching the driver. Spreading factors are clamped to the
/// permitted range 7-12.
pub fn time_on_air_ms(
    spreading_factor: u8,
    bandwidth_khz: u32,
    coding_rate: u8,
    payload_len: usize,
) -> (r: u32)
    requires
        payload_len <= 256 || symbols_fit(
            spreading_factor as int,
            bandwidth_khz as int,
            coding_rate as int,
            payload_len as int,
            PREAMBLE_SYMBOLS as int,
            true,
        ),
    ensures
        payload_len <= 256 ==> r as int == airtime_ms(
            spreading_factor as int,
            bandwidth_khz as int,
            coding_rate as int,
            payload_len as int,
            8,
            true,
        ),
        r as int == airtime_ms(
            spreading_factor as int,
            bandwidth_khz as int,
            coding_rate as int,
            payload_len as int,
            8,
            true,
        ) % 0x1_0000_0000,
{
    time_on_air_ms_ext(
        spreading_factor,
        bandwidth_khz,
        coding_rate,
        payload_len,
        PREAMBLE_SYMBOLS,
        true,
    )
}

/// Time on air with an explicit preamble length and CRC setting (LoRaWAN
/// downlinks use CRC off and the server may request a longer preamble).
/// Header stays explicit, matching the driver.
///
/// The result is the low 32 bits of the airtime: a LoRa packet of at most 256
/// bytes never reaches that limit (see `lora_packets_fit`).
pub fn time_on_air_ms_ext(
    spreading_factor: u8,
    bandwidth_khz: u32,
    coding_rate: u8,
    payload_len: usize,
    preamble_symbols: u16,
    crc_on: bool,
) -> (r: u32)
    requires
        payload_len <= 256 || symbols_fit(
            spreading_factor as int,
            bandwidth_khz as int,
            coding_rate as int,
            payload_len as int,
            preamble_symbols as int,
            crc_on,
        ),
    ensures
        payload_len <= 256 ==> r as int == airtime_ms(
            spreading_factor as int,
            bandwidth_khz as int,
            coding_rate as int,
            payload_len as int,
            preamble_symbols as int,
            crc_on,
        ),
        r as int == airtime_ms(
            spreading_factor as int,
            bandwidth_khz as int,
            coding_rate as int,
            payload_len as int,
            preamble_symbols as int,
            crc_on,
        ) % 0x1_0000_0000,
{
    proof {
        if payload_len <= 256 {
            lora_packets_fit(
                spreading_factor as int,
                bandwidth_khz as int,
                coding_rate as int,
                payload_len as int,
                preamble_symbols as int,
                crc_on,
            );
        }
    }
    let sf: u8 = if spreading_factor < 7 {
        7
    } else if spreading_factor > 12 {
        12
    } else {
        spreading_factor
    };
    let cr: u64 = if 5 <= coding_rate && coding_rate <= 8 {
        (coding_rate - 4) as u64
    } else {
        1
    };
    let de: u64 = if ldro_enabled(sf, bandwidth_khz) {
        1
    } else {
        0
    };
    let crc_bits: u64 = if crc_on {
        16
    } else {
        0
    };
    let ghost bits = coded_bits(sf as int, payload_len as int, crc_on);
    let denominator: u64 = 4 * (sf as u64 - 2 * de);
    let ghost wanted = blocks(sf as int, bandwidth_khz as int, payload_len as int, crc_on);
    proof {
        assert(wanted * 5 <= wanted * (cr + 4)) by (nonlinear_arith)
            requires
                wanted >= 0,
                cr >= 1,
        ;
        if bits > 0 {
            let size = denominator as int;
            assert((bits + size - 1) / size * size >= bits) by (nonlinear_arith)
                requires
                    bits > 0,
                    size > 0,
            ;
            assert(wanted * size <= u32::MAX * 48) by (nonlinear_arith)
                requires
                    0 <= wanted <= u32::MAX,
                    0 < size <= 48,
            ;
        }
    }
    // Payload symbol count: 8 + max(ceil((8*PL - 4*SF + 28 + CRC) / (4*(SF - 2*DE))) * (CR + 4), 0)
    // with explicit header (IH = 0).
    let carried: u64 = 8 * payload_len as u64 + 28 + crc_bits;
    let blocks: u64 = if carried > 4 * sf as u64 {
        (carried - 4 * sf as u64 + denominator - 1) / denominator
    } else {
        0
    };
    assert(blocks as int == wanted);
    let payload_symbols: u64 = 8 + blocks * (cr + 4);
    // Total in quarter-symbols: the preamble adds 4.25 sync symbols.
    let quarter_symbols: u64 = (preamble_symbols as u64 + payload_symbols) * 4 + 17;
    let symbol_us: u64 = symbol_time_us(sf, bandwidth_khz);
    assert(quarter_symbols * symbol_us <= 17_179_869_200 * 525_129) by (nonlinear_arith)
        requires
            quarter_symbols <= 17_179_869_200,
            symbol_us <= 525_129,
    ;
    let total_us: u64 = quarter_symbols * symbol_us / 4;
    let total_ms: u64 = (total_us + 999) / 1000;
    (total_ms % 0x1_0000_0000) as u32
}

/// More bits never need fewer blocks.
proof fn lemma_blocks_monotone(bits: int, more: int, size: int)
    requires
        size > 0,
        0 < bits <= more,
    ensures
        0 < (bits + size - 1) / size <= (more + size - 1) / size,
{
    assert(0 < (bits + size - 1) / size <= (more + size - 1) / size) by (nonlinear_arith)
        requires
            size > 0,
            0 < bits <= more,
    ;
}

/// More quarter symbols never take less time.
proof fn lemma_time_monotone(q: int, more: int, t: int)
    requires
        0 <= t,
        q <= more,
    ensures
        (q * t / 4 + 999) / 1000 <= (more * t / 4 + 999) / 1000,
{
    assert(q * t <= more * t) by (nonlinear_arith)
        requires
            0 <= t,
            q <= more,
    ;
}

/// A longer payload, and a checksum, never make a packet shorter on the air.
/// In particular CRC off never exceeds CRC on.
pub proof fn airtime_grows_with_content(
    sf: int,
    bandwidth_khz: int,
    coding_rate: int,
    payload_len: int,
    longer_len: int,
    preamble_symbols: int,
    crc_on: bool,
    crc_also: bool,
)
    requires
        0 <= payload_len <= longer_len,
        0 <= preamble_symbols,
        crc_on ==> crc_also,
    ensures
        airtime_ms(sf, bandwidth_khz, coding_rate, payload_len, preamble_symbols, crc_on)
            <= airtime_ms(sf, bandwidth_khz, coding_rate, longer_len, preamble_symbols, crc_also),
{
    let f = calibration::clamped_sf(sf);
    let size = block_bits(f, bandwidth_khz);
    let bits = coded_bits(f, payload_len, crc_on);
    let more = coded_bits(f, longer_len, crc_also);
    let c = coding_extra(coding_rate) + 4;
    if bits > 0 {
        lemma_blocks_monotone(bits, more, size);
    } else if more > 0 {
        lemma_blocks_monotone(more, more, size);
    }
    let b = blocks(f, bandwidth_khz, payload_len, crc_on);
    let d = blocks(f, bandwidth_khz, longer_len, crc_also);
    assert(b * c <= d * c) by (nonlinear_arith)
        requires
            b <= d,
            c >= 0,
    ;
    lemma_symbol_us_range(f, bandwidth_khz);
    lemma_time_monotone(
        quarter_symbols(f, bandwidth_khz, coding_rate, payload_len, preamble_symbols, crc_on),
        quarter_symbols(f, bandwidth_khz, coding_rate, longer_len, preamble_symbols, crc_also),
        calibration::symbol_us(f, bandwidth_khz),
    );
}

/// Every further preamble symbol costs one symbol time: the airtime in
/// microseconds grows by exactly the symbols added.
pub proof fn preamble_costs_symbol_time(
    sf: int,
    bandwidth_khz: int,
    coding_rate: int,
    payload_len: int,
    preamble_symbols: int,
    extra: int,
    crc_on: bool,
)
    requires
        0 <= extra,
    ensures
        airtime_us(sf, bandwidth_khz, coding_rate, payload_len, preamble_symbols + extra, crc_on)
            == airtime_us(sf, bandwidth_khz, coding_rate, payload_len, preamble_symbols, crc_on)
            + extra * calibration::symbol_us(sf, bandwidth_khz),
{
    let q = quarter_symbols(sf, bandwidth_khz, coding_rate, payload_len, preamble_symbols, crc_on);
    let t = calibration::symbol_us(sf, bandwidth_khz);
    assert((q + 4 * extra) * t == q * t + 4 * (extra * t)) by (nonlinear_arith);
}

/// Airtime grows strictly with the spreading factor, for every packet.
pub proof fn airtime_grows_with_spreading_factor(
    sf: int,
    bandwidth_khz: int,
    coding_rate: int,
    payload_len: int,
    preamble_symbols: int,
    crc_on: bool,
)
    requires
        7 <= sf < 12,
        0 <= payload_len,
        0 <= preamble_symbols,
    ensures
        airtime_ms(sf, bandwidth_khz, coding_rate, payload_len, preamble_symbols, crc_on)
            < airtime_ms(sf + 1, bandwidth_khz, coding_rate, payload_len, preamble_symbols, crc_on),
{
    let t = calibration::symbol_us(sf, bandwidth_khz);
    let u = calibration::symbol_us(sf + 1, bandwidth_khz);
    let hz = calibration::hz_of_label(bandwidth_khz);
    lemma_symbol_us_range(sf, bandwidth_khz);
    let chips = calibration::chips_per_symbol(sf);
    assert(calibration::chips_per_symbol(sf + 1) == 2 * chips);
    assert(2 * (chips * 1_000_000 / hz) <= 2 * chips * 1_000_000 / hz) by (nonlinear_arith)
        requires
            hz > 0,
            chips >= 0,
    ;
    assert(2 * t <= u);
    let b = blocks(sf, bandwidth_khz, payload_len, crc_on);
    let d = blocks(sf + 1, bandwidth_khz, payload_len, crc_on);
    let bits = coded_bits(sf, payload_len, crc_on);
    let size = block_bits(sf, bandwidth_khz);
    let next_size = block_bits(sf + 1, bandwidth_khz);
    assert(2 * d >= b - 1) by {
        if bits > 0 {
            assert((b - 1) * size < bits) by (nonlinear_arith)
                requires
                    b == (bits + size - 1) / size,
                    bits > 0,
                    size > 0,
            ;
            if bits > 4 {
                assert(d * next_size >= bits - 4) by (nonlinear_arith)
                    requires
                        d == (bits - 4 + next_size - 1) / next_size,
                        bits > 4,
                        next_size > 0,
                ;
                if 2 * d <= b - 2 {
                    assert(false) by (nonlinear_arith)
                        requires
                            (b - 1) * size < bits,
                            d * next_size >= bits - 4,
                            20 <= size,
                            0 < next_size <= size + 4,
                            2 * d <= b - 2,
                            d >= 0,
                    ;
                }
            } else {
                assert(b <= 1) by (nonlinear_arith)
                    requires
                        (b - 1) * size < bits,
                        bits <= 4,
                        size >= 20,
                ;
            }
        }
    }
    let c = coding_extra(coding_rate) + 4;
    let q = quarter_symbols(sf, bandwidth_khz, coding_rate, payload_len, preamble_symbols, crc_on);
    let r = quarter_symbols(
        sf + 1,
        bandwidth_khz,
        coding_rate,
        payload_len,
        preamble_symbols,
        crc_on,
    );
    assert(2 * (d * c) >= b * c - c) by (nonlinear_arith)
        requires
            2 * d >= b - 1,
            c >= 0,
    ;
    assert(2 * r >= q + 17);
    assert(0 <= r) by {
        assert(d * c >= 0) by (nonlinear_arith)
            requires
                d >= 0,
                c >= 0,
        ;
    }
    assert(r * u >= q * t + 17 * t) by (nonlinear_arith)
        requires
            0 <= r,
            2 * t <= u,
            0 <= t,
            2 * r >= q + 17,
    ;
}

/// Out-of-range inputs fall back safely: the spreading factor to the nearest
/// permitted one and the coding rate to 4/5.
pub proof fn out_of_range_inputs_fall_back(
    sf: int,
    bandwidth_khz: int,
    coding_rate: int,
    payload_len: int,
    preamble_symbols: int,
    crc_on: bool,
)
    ensures
        airtime_ms(sf, bandwidth_khz, coding_rate, payload_len, preamble_symbols, crc_on)
            == airtime_ms(
            if sf < 7 {
                7
            } else if sf > 12 {
                12
            } else {
                sf
            },
            bandwidth_khz,
            if 5 <= coding_rate <= 8 {
                coding_rate
            } else {
                5
            },
            payload_len,
            preamble_symbols,
            crc_on,
        ),
{
}

/// Airtime follows the datasheet. Let `n` be the number of coded blocks: the
/// least that holds the payload, the header and the checksum, less what the
/// first symbols carry, at four bits for each bit of the spreading factor (two
/// fewer with low data rate optimisation). A packet then takes its preamble,
/// 4.25 symbols of synchronisation, eight symbols, and a block of as many
/// symbols as the coding rate's denominator for each of the `n`.
pub proof fn airtime_follows_the_datasheet(
    sf: int,
    bandwidth_khz: int,
    denominator: int,
    payload_len: int,
    preamble: int,
    crc_on: bool,
    n: int,
)
    requires
        7 <= sf <= 12,
        5 <= denominator <= 8,
        0 <= payload_len,
        0 <= preamble,
        ({
            let bits = 8 * payload_len + 28 + (if crc_on {
                16int
            } else {
                0
            }) - 4 * sf;
            let block = if calibration::symbol_us(sf, bandwidth_khz) >= 16_380 {
                4 * sf - 8
            } else {
                4 * sf
            };
            n >= 0 && n * block >= bits && (n > 0 ==> (n - 1) * block < bits)
        }),
    ensures
        ({
            let us = airtime_us(sf, bandwidth_khz, denominator, payload_len, preamble, crc_on);
            let quarters = 4 * preamble + 17 + 32 + 4 * (n * denominator);
            4 * us <= quarters * calibration::symbol_us(sf, bandwidth_khz) < 4 * us + 4
        }),
        ({
            let us = airtime_us(sf, bandwidth_khz, denominator, payload_len, preamble, crc_on);
            let ms = airtime_ms(sf, bandwidth_khz, denominator, payload_len, preamble, crc_on);
            us <= 1_000 * ms < us + 1_000
        }),
{
    let bits = coded_bits(sf, payload_len, crc_on);
    let size = block_bits(sf, bandwidth_khz);
    let b = blocks(sf, bandwidth_khz, payload_len, crc_on);
    if bits > 0 {
        assert(n == (bits + size - 1) / size) by (nonlinear_arith)
            requires
                size > 0,
                bits > 0,
                n >= 0,
                n * size >= bits,
                n > 0 ==> (n - 1) * size < bits,
        ;
    } else if n > 0 {
        assert(false) by (nonlinear_arith)
            requires
                n > 0,
                size > 0,
                bits <= 0,
                (n - 1) * size < bits,
        ;
    }
    assert(b == n);
}

/// A spreading factor below 7 or above 12 counts as 7 or 12, and a coding rate that there
/// is none of as 4/5.
pub proof fn odd_settings_count_as_the_nearest(
    sf: int,
    bandwidth_khz: int,
    denominator: int,
    payload_len: int,
    preamble: int,
    crc_on: bool,
)
    ensures
        sf < 7 ==> airtime_ms(sf, bandwidth_khz, denominator, payload_len, preamble, crc_on)
            == airtime_ms(7, bandwidth_khz, denominator, payload_len, preamble, crc_on),
        sf > 12 ==> airtime_ms(sf, bandwidth_khz, denominator, payload_len, preamble, crc_on)
            == airtime_ms(12, bandwidth_khz, denominator, payload_len, preamble, crc_on),
        denominator < 5 || denominator > 8 ==> airtime_ms(
            sf,
            bandwidth_khz,
            denominator,
            payload_len,
            preamble,
            crc_on,
        ) == airtime_ms(sf, bandwidth_khz, 5, payload_len, preamble, crc_on),
{
}

/// The time on air of a packet is that with the given preamble and checksum; without
/// saying, with eight symbols and a checksum.
pub proof fn packets_have_their_airtime(
    sf: u8,
    bandwidth_khz: u32,
    coding_rate: u8,
    payload_len: usize,
    preamble: u16,
    crc_on: bool,
    usual: u32,
    given: u32,
)
    requires
        payload_len <= 256,
        call_ensures(time_on_air_ms, (sf, bandwidth_khz, coding_rate, payload_len), usual),
        call_ensures(
            time_on_air_ms_ext,
            (sf, bandwidth_khz, coding_rate, payload_len, preamble, crc_on),
            given,
        ),
    ensures
        usual == airtime_ms(
            sf as int,
            bandwidth_khz as int,
            coding_rate as int,
            payload_len as int,
            8,
            true,
        ),
        given == airtime_ms(
            sf as int,
            bandwidth_khz as int,
            coding_rate as int,
            payload_len as int,
            preamble as int,
            crc_on,
        ),
        preamble == 8 && crc_on ==> usual == given,
{
}

} // verus!
