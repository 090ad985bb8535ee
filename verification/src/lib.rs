//! Frame codec for the DSHOT digital motor-control protocol.
//!
//! A DSHOT frame is a 16-bit value `(payload << 5) | (telemetry << 4) | checksum`,
//! where `payload` is an 11-bit throttle magnitude or command code, bit 4 is the
//! telemetry-request flag, and the low four bits are an XOR-folded checksum of
//! the upper twelve (bit-inverted for bidirectional DSHOT variants). The codec
//! also decodes the 12-bit exponent/mantissa telemetry reading an ESC returns
//! into an eRPM * 100 figure.

use vstd::prelude::*;

verus! {

use vstd::arithmetic::div_mod::{
    lemma_div_is_ordered, lemma_div_multiples_vanish, lemma_div_pos_is_pos,
    lemma_fundamental_div_mod, lemma_hoist_over_denominator, lemma_mod_bound,
};

/// Minimum allowed DSHOT throttle value
pub const THROTTLE_MIN: u16 = 48;
/// Maximum allowed DSHOT throttle value
pub const THROTTLE_MAX: u16 = 2047;

/// Dshot commands, see `command()`. Each variant is bound to a fixed numeric
/// code mandated by the ESC-side protocol; see [`DshotCmdT::spec_code`].
#[derive(Copy, Clone, Debug)]
pub enum DshotCmdT {
    /// Currently not implemented
    DigitalCmdMotorStop,
    /// Wait at least length of beep (260ms) before next command
    DigitalCmdBeep1,
    /// Wait at least length of beep (260ms) before next command
    DigitalCmdBeep2,
    /// Wait at least length of beep (280ms) before next command
    DigitalCmdBeep3,
    /// Wait at least length of beep (280ms) before next command
    DigitalCmdBeep4,
    /// Wait at least length of beep (1020ms) before next command
    DigitalCmdBeep5,
    /// Wait at least 12ms before next command
    DigitalCmdEscInfo,
    /// Need 6x, no wait required
    DigitalCmdSpinDirection1,
    /// Need 6x, no wait required
    DigitalCmdSpinDirection2,
    /// Need 6x, no wait required
    DigitalCmd3dModeOff,
    /// Need 6x, no wait required
    DigitalCmd3dModeOn,
    /// Currently not implemented
    DigitalCmdSettingsRequest,
    /// Need 6x, wait at least 35ms before next command
    DigitalCmdSaveSettings,
    /// Need 6x, no wait required
    DigitalCmdSpinDirectionNormal,
    /// Need 6x, no wait required
    DigitalCmdSpinDirectionReversed,
    /// No wait required
    DigitalCmdLed0On,
    /// No wait required
    DigitalCmdLed1On,
    /// No wait required
    DigitalCmdLed2On,
    /// No wait required
    DigitalCmdLed3On,
    /// No wait required
    DigitalCmdLed0Off,
    /// No wait required
    DigitalCmdLed1Off,
    /// No wait required
    DigitalCmdLed2Off,
    /// No wait required
    DigitalCmdLed3Off,
}

impl DshotCmdT {
    /// The protocol-mandated wire code of each command. The codes run 0..=12
    /// and 20..=29 — the gap is intentional — and are a bit-exact contract
    /// with the ESC firmware, never renumbered.
    pub open spec fn spec_code(self) -> u16 {
        match self {
            DshotCmdT::DigitalCmdMotorStop => 0,
            DshotCmdT::DigitalCmdBeep1 => 1,
            DshotCmdT::DigitalCmdBeep2 => 2,
            DshotCmdT::DigitalCmdBeep3 => 3,
            DshotCmdT::DigitalCmdBeep4 => 4,
            DshotCmdT::DigitalCmdBeep5 => 5,
            DshotCmdT::DigitalCmdEscInfo => 6,
            DshotCmdT::DigitalCmdSpinDirection1 => 7,
            DshotCmdT::DigitalCmdSpinDirection2 => 8,
            DshotCmdT::DigitalCmd3dModeOff => 9,
            DshotCmdT::DigitalCmd3dModeOn => 10,
            DshotCmdT::DigitalCmdSettingsRequest => 11,
            DshotCmdT::DigitalCmdSaveSettings => 12,
            DshotCmdT::DigitalCmdSpinDirectionNormal => 20,
            DshotCmdT::DigitalCmdSpinDirectionReversed => 21,
            DshotCmdT::DigitalCmdLed0On => 22,
            DshotCmdT::DigitalCmdLed1On => 23,
            DshotCmdT::DigitalCmdLed2On => 24,
            DshotCmdT::DigitalCmdLed3On => 25,
            DshotCmdT::DigitalCmdLed0Off => 26,
            DshotCmdT::DigitalCmdLed1Off => 27,
            DshotCmdT::DigitalCmdLed2Off => 28,
            DshotCmdT::DigitalCmdLed3Off => 29,
        }
    }

    /// The wire code of this command, always within the range reserved for
    /// commands (below `THROTTLE_MIN`).
    pub fn code(self) -> (code: u16)
        ensures
            code == self.spec_code(),
            code < THROTTLE_MIN,
    {
        match self {
            DshotCmdT::DigitalCmdMotorStop => 0,
            DshotCmdT::DigitalCmdBeep1 => 1,
            DshotCmdT::DigitalCmdBeep2 => 2,
            DshotCmdT::DigitalCmdBeep3 => 3,
            DshotCmdT::DigitalCmdBeep4 => 4,
            DshotCmdT::DigitalCmdBeep5 => 5,
            DshotCmdT::DigitalCmdEscInfo => 6,
            DshotCmdT::DigitalCmdSpinDirection1 => 7,
            DshotCmdT::DigitalCmdSpinDirection2 => 8,
            DshotCmdT::DigitalCmd3dModeOff => 9,
            DshotCmdT::DigitalCmd3dModeOn => 10,
            DshotCmdT::DigitalCmdSettingsRequest => 11,
            DshotCmdT::DigitalCmdSaveSettings => 12,
            DshotCmdT::DigitalCmdSpinDirectionNormal => 20,
            DshotCmdT::DigitalCmdSpinDirectionReversed => 21,
            DshotCmdT::DigitalCmdLed0On => 22,
            DshotCmdT::DigitalCmdLed1On => 23,
            DshotCmdT::DigitalCmdLed2On => 24,
            DshotCmdT::DigitalCmdLed3On => 25,
            DshotCmdT::DigitalCmdLed0Off => 26,
            DshotCmdT::DigitalCmdLed1Off => 27,
            DshotCmdT::DigitalCmdLed2Off => 28,
            DshotCmdT::DigitalCmdLed3Off => 29,
        }
    }
}

/// Errors relevant to DSHOT
#[derive(Debug, PartialEq, Eq)]
pub enum DshotError {
    /// The given throttle value is smaller or larger than limits
    InvalidThrottleValue(u16),
    /// A raw telemetry reading encodes a zero period, which no speed can be
    /// decoded from
    MalformedTelemetry,
}

/// The 12-bit packet over which the checksum is folded: the 11-bit message
/// joined with the telemetry flag in the lowest bit.
pub open spec fn spec_packet(message: u16, telemetry: bool) -> u16 {
    (message << 1) | (if telemetry { 1u16 } else { 0u16 })
}

/// XOR-fold of a packet's three nibbles, complemented first when the polarity
/// is inverted.
pub open spec fn spec_checksum_nibble(packet: u16, inverted: bool) -> u16 {
    if inverted {
        (!(packet ^ (packet >> 4) ^ (packet >> 8))) & 0x0f
    } else {
        (packet ^ (packet >> 4) ^ (packet >> 8)) & 0x0f
    }
}

/// Checksum nibble of a message and telemetry flag under the given polarity.
pub open spec fn spec_checksum(message: u16, telemetry: bool, inverted: bool) -> u16 {
    spec_checksum_nibble(spec_packet(message, telemetry), inverted)
}

/// The assembled 16-bit frame for an 11-bit message.
pub open spec fn spec_frame(message: u16, telemetry: bool, inverted: bool) -> u16 {
    (message << 5) | ((if telemetry { 1u16 } else { 0u16 }) << 4)
        | spec_checksum(message, telemetry, inverted)
}

/// Calculate the CRC checksum for a packet
fn calc_checksum(command: u16, telemetry: bool, inverted: bool) -> (checksum: u16)
    ensures
        checksum == spec_checksum(command, telemetry, inverted),
{
    let packet: u16 = (command << 1) | (if telemetry { 1u16 } else { 0u16 });

    if inverted {
        (!(packet ^ (packet >> 4) ^ (packet >> 8))) & 0x0f
    } else {
        (packet ^ (packet >> 4) ^ (packet >> 8)) & 0x0f
    }
}

/// Calculate the DSHOT frame for any 11-bit message.
/// For non-throttle commands, the telemetry flag has to be set
fn any_message(message: u16, telemetry: bool, inverted: bool) -> (frame: u16)
    ensures
        frame == spec_frame(message, telemetry, inverted),
{
    let checksum: u16 = calc_checksum(message, telemetry, inverted);

    (message << 5) | ((if telemetry { 1u16 } else { 0u16 }) << 4) | checksum
}

/// A throttle value clamped into the valid range, used by `throttle_clamp`:
/// out-of-range input is replaced by the nearest bound.
pub open spec fn spec_clamp_throttle(value: u16) -> u16 {
    if value < THROTTLE_MIN {
        THROTTLE_MIN
    } else if value > THROTTLE_MAX {
        THROTTLE_MAX
    } else {
        value
    }
}

/// Every frame assembled with the telemetry flag set carries bit 4 high,
/// whatever the payload and polarity. Command frames always set the flag, so
/// a receiver can tell them from throttle frames by this bit alone.
pub proof fn lemma_telemetry_bit_set(message: u16, inverted: bool)
    ensures
        spec_frame(message, true, inverted) & 0x10 == 0x10,
{
    let c: u16 = spec_checksum(message, true, inverted);
    assert(((message << 5) | (1u16 << 4) | c) & 0x10 == 0x10) by (bit_vector);
}

/// Calculate the DSHOT frame for a throttle value between 48 and 2047
pub fn throttle(value: u16, telemetry: bool, inverted: bool) -> (frame: Result<
    u16,
    DshotError,
>)
    ensures
        THROTTLE_MIN <= value <= THROTTLE_MAX ==> frame == Ok::<u16, DshotError>(
            spec_frame(value, telemetry, inverted),
        ),
        !(THROTTLE_MIN <= value <= THROTTLE_MAX) ==> frame == Err::<u16, DshotError>(
            DshotError::InvalidThrottleValue(value),
        ),
{
    // Early return with error if throttle is out of range
    if value < THROTTLE_MIN || value > THROTTLE_MAX {
        return Err(DshotError::InvalidThrottleValue(value));
    }
    Ok(any_message(value, telemetry, inverted))
}

/// Calculate the DSHOT frame for any valid command
pub fn command(cmd: DshotCmdT, inverted: bool) -> (frame: u16)
    ensures
        frame == spec_frame(cmd.spec_code(), true, inverted),
        frame & 0x10 == 0x10,
{
    // Telemetry bit must be set in command frames
    let telemetry: bool = true;
    proof {
        lemma_telemetry_bit_set(cmd.spec_code(), inverted);
    }
    any_message(cmd.code(), telemetry, inverted)
}

/// Calculate the DSHOT frame for reversing the motor spin direction
pub fn reverse(flag: bool, inverted: bool) -> (frame: u16)
    ensures
        flag ==> frame == spec_frame(
            DshotCmdT::DigitalCmdSpinDirectionReversed.spec_code(),
            true,
            inverted,
        ),
        !flag ==> frame == spec_frame(
            DshotCmdT::DigitalCmdSpinDirectionNormal.spec_code(),
            true,
            inverted,
        ),
{
    command(
        match flag {
            true => DshotCmdT::DigitalCmdSpinDirectionReversed,
            false => DshotCmdT::DigitalCmdSpinDirectionNormal,
        },
        inverted,
    )
}

/// Calculate the DSHOT frame where throttle is clamped to be between 48 and 2047
pub fn throttle_clamp(throttle: u16, telemetry: bool, inverted: bool) -> (frame: u16)
    ensures
        frame == spec_frame(spec_clamp_throttle(throttle), telemetry, inverted),
{
    let clamped: u16 = if throttle < THROTTLE_MIN {
        THROTTLE_MIN
    } else if throttle > THROTTLE_MAX {
        THROTTLE_MAX
    } else {
        throttle
    };
    any_message(clamped, telemetry, inverted)
}

/// Calculate the DSHOT frame for a minimum throttle value
pub fn throttle_minimum(telemetry: bool, inverted: bool) -> (frame: u16)
    ensures
        frame == spec_frame(THROTTLE_MIN, telemetry, inverted),
{
    any_message(THROTTLE_MIN, telemetry, inverted)
}

/// Mantissa of a raw telemetry reading: its low nine bits.
pub open spec fn spec_mantissa(value: u16) -> u16 {
    value & 0x01ff
}

/// Exponent of a raw telemetry reading: its bits 9 to 11.
pub open spec fn spec_exponent(value: u16) -> u16 {
    (value & 0x0e00) >> 9
}

/// The period a raw telemetry reading encodes: mantissa shifted up by the
/// exponent.
pub open spec fn spec_period(value: u16) -> u32 {
    (spec_mantissa(value) as u32) << (spec_exponent(value) as u32)
}

/// eRPM * 100 decoded from a nonzero period: 600000 divided by the period,
/// rounded to the nearest integer.
pub open spec fn spec_erpm(period: int) -> int
    recommends
        period > 0,
{
    (600000 + period / 2) / period
}

/// Decode a 12-bit GCR-packed telemetry reading into eRPM * 100.
/// `0x0fff` is the "no data / stopped" sentinel and decodes to zero; a reading
/// whose period is zero encodes no speed at all and is rejected.
pub fn e_rpm_from_telemetry_value(value: u16) -> (erpm: Result<u32, DshotError>)
    requires
        value <= 0x0fff,
    ensures
        value == 0x0fff ==> erpm == Ok::<u32, DshotError>(0u32),
        value != 0x0fff && spec_period(value) == 0 ==> erpm == Err::<u32, DshotError>(
            DshotError::MalformedTelemetry,
        ),
        value != 0x0fff && spec_period(value) > 0 ==> erpm == Ok::<u32, DshotError>(
            spec_erpm(spec_period(value) as int) as u32,
        ),
{
    // eRPM range
    if value == 0x0fff {
        return Ok(0);
    }
    // Split the GCR telemetry format (eeem mmmm mmmm)
    let mantissa: u16 = value & 0x01ff;
    let exponent: u16 = (value & 0x0e00) >> 9;
    proof {
        assert((value & 0x0e00) >> 9 < 8u16) by (bit_vector);
        assert(value & 0x01ff == 0u16 ==> ((value & 0x01ff) as u32) << (((value & 0x0e00)
            >> 9) as u32) == 0u32) by (bit_vector);
        assert(value & 0x01ff != 0u16 ==> ((value & 0x01ff) as u32) << (((value & 0x0e00)
            >> 9) as u32) > 0u32) by (bit_vector);
    }
    if mantissa == 0 {
        return Err(DshotError::MalformedTelemetry);
    }
    let period: u32 = (mantissa as u32) << (exponent as u32);

    // Convert period to erpm * 100, rounding to nearest
    Ok((600000 + period / 2) / period)
}

/// The frame's structural invariant: the low four bits of every assembled
/// frame equal the checksum, recomputed under the active polarity, of the
/// packet held in the frame's upper twelve bits.
pub proof fn lemma_frame_checksum_invariant(message: u16, telemetry: bool, inverted: bool)
    requires
        message <= 2047,
    ensures
        spec_frame(message, telemetry, inverted) & 0x0f == spec_checksum_nibble(
            spec_frame(message, telemetry, inverted) >> 4,
            inverted,
        ),
{
    let t: u16 = if telemetry { 1u16 } else { 0u16 };
    let p: u16 = spec_packet(message, telemetry);
    let x: u16 = p ^ (p >> 4) ^ (p >> 8);
    assert(x & 0x0f <= 15u16) by (bit_vector);
    assert((!x) & 0x0f <= 15u16) by (bit_vector);
    let c: u16 = spec_checksum(message, telemetry, inverted);
    assert(((message << 5) | (t << 4) | c) >> 4 == (message << 1) | t) by (bit_vector)
        requires
            message <= 2047u16,
            t <= 1u16,
            c <= 15u16,
    ;
    assert(((message << 5) | (t << 4) | c) & 0x0f == c) by (bit_vector)
        requires
            c <= 15u16,
    ;
}

/// For a fixed payload and telemetry flag, the inverted-polarity checksum is
/// the bitwise complement, masked to four bits, of the standard checksum.
pub proof fn lemma_inverted_checksum_complements(message: u16, telemetry: bool)
    ensures
        spec_checksum(message, telemetry, true) == (!spec_checksum(message, telemetry, false))
            & 0x0f,
{
    let p: u16 = spec_packet(message, telemetry);
    assert((!(p ^ (p >> 4) ^ (p >> 8))) & 0x0f == (!((p ^ (p >> 4) ^ (p >> 8)) & 0x0f))
        & 0x0f) by (bit_vector);
}

/// Rounded-to-nearest division of the fixed numerator is antitone in the
/// divisor: a longer period never decodes to a higher speed.
pub proof fn lemma_erpm_antitone(p1: int, p2: int)
    requires
        0 < p1 <= p2,
    ensures
        spec_erpm(p2) <= spec_erpm(p1),
{
    let n1: int = 600000 + p1 / 2;
    let n2: int = 600000 + p2 / 2;
    let q: int = n2 / p2;
    lemma_div_pos_is_pos(p1, 2);
    lemma_div_pos_is_pos(p2, 2);
    lemma_div_pos_is_pos(n1, p1);
    if q >= 1 {
        lemma_fundamental_div_mod(n2, p2);
        lemma_mod_bound(n2, p2);
        assert(p2 * q <= n2);
        let gap: int = p2 - p1;
        assert(p1 / 2 + gap == (p1 + gap * 2) / 2) by {
            lemma_hoist_over_denominator(p1, gap, 2);
        }
        lemma_div_is_ordered(p2, p1 + gap * 2, 2);
        assert(n2 <= n1 + gap);
        assert(p1 * q <= p2 * q - gap) by (nonlinear_arith)
            requires
                q >= 1,
                gap >= 0,
                p1 == p2 - gap,
        ;
        assert(p1 * q <= n1);
        lemma_div_multiples_vanish(q, p1);
        lemma_div_is_ordered(p1 * q, n1, p1);
        assert(q <= n1 / p1);
    }
}

/// Among raw telemetry readings that decode to a speed at all, one encoding a
/// longer period never decodes to a higher eRPM than one encoding a shorter
/// period.
pub proof fn lemma_longer_period_slower_erpm(v1: u16, v2: u16)
    requires
        0 < spec_period(v1),
        spec_period(v1) <= spec_period(v2),
    ensures
        spec_erpm(spec_period(v2) as int) <= spec_erpm(spec_period(v1) as int),
{
    lemma_erpm_antitone(spec_period(v1) as int, spec_period(v2) as int);
}

} // verus!
