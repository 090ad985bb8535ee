use dshot_encoder::{
    command, e_rpm_from_telemetry_value, reverse, throttle, throttle_clamp, throttle_minimum,
    DshotCmdT, DshotError, THROTTLE_MAX, THROTTLE_MIN,
};

/// Recompute the checksum nibble a frame ought to carry from its upper
/// twelve bits, independently of the library's own checksum code.
fn recomputed_checksum(frame: u16, inverted: bool) -> u16 {
    let packet = frame >> 4;
    let folded = packet ^ (packet >> 4) ^ (packet >> 8);
    if inverted {
        (!folded) & 0x0f
    } else {
        folded & 0x0f
    }
}

fn all_commands() -> [DshotCmdT; 23] {
    [
        DshotCmdT::DigitalCmdMotorStop,
        DshotCmdT::DigitalCmdBeep1,
        DshotCmdT::DigitalCmdBeep2,
        DshotCmdT::DigitalCmdBeep3,
        DshotCmdT::DigitalCmdBeep4,
        DshotCmdT::DigitalCmdBeep5,
        DshotCmdT::DigitalCmdEscInfo,
        DshotCmdT::DigitalCmdSpinDirection1,
        DshotCmdT::DigitalCmdSpinDirection2,
        DshotCmdT::DigitalCmd3dModeOff,
        DshotCmdT::DigitalCmd3dModeOn,
        DshotCmdT::DigitalCmdSettingsRequest,
        DshotCmdT::DigitalCmdSaveSettings,
        DshotCmdT::DigitalCmdSpinDirectionNormal,
        DshotCmdT::DigitalCmdSpinDirectionReversed,
        DshotCmdT::DigitalCmdLed0On,
        DshotCmdT::DigitalCmdLed1On,
        DshotCmdT::DigitalCmdLed2On,
        DshotCmdT::DigitalCmdLed3On,
        DshotCmdT::DigitalCmdLed0Off,
        DshotCmdT::DigitalCmdLed1Off,
        DshotCmdT::DigitalCmdLed2Off,
        DshotCmdT::DigitalCmdLed3Off,
    ]
}

#[test]
fn test_throttle_bounds_check() {
    assert!(throttle(THROTTLE_MIN - 1, false, false).is_err());
    assert!(throttle(THROTTLE_MAX + 1, false, false).is_err());

    assert!(throttle(THROTTLE_MIN, false, false).is_ok());
    assert!(throttle(THROTTLE_MAX, false, false).is_ok());

    assert_eq!(throttle(THROTTLE_MIN, false, false).unwrap(), 0x0606);
    assert_eq!(throttle(THROTTLE_MAX, false, false).unwrap(), 0xFFEE);
}

#[test]
fn test_throttle_clamp() {
    // Without telemetry flag
    assert_eq!(throttle_clamp(THROTTLE_MIN, false, false), 0x0606);
    assert_eq!(throttle_clamp(THROTTLE_MAX, false, false), 0xFFEE);
    assert_eq!(throttle_clamp(THROTTLE_MIN - 1, false, false), 0x0606);
    assert_eq!(throttle_clamp(THROTTLE_MAX + 1, false, false), 0xFFEE);

    // With telemetry flag
    assert_eq!(throttle_clamp(THROTTLE_MIN, true, false), 0x0617);
    assert_eq!(throttle_clamp(THROTTLE_MAX, true, false), 0xFFFF);
    assert_eq!(throttle_clamp(THROTTLE_MIN - 1, true, false), 0x0617);
    assert_eq!(throttle_clamp(THROTTLE_MAX + 1, true, false), 0xFFFF);
}

#[test]
fn test_throttle_out_of_range_error_carries_value() {
    assert_eq!(
        throttle(0, false, false),
        Err(DshotError::InvalidThrottleValue(0))
    );
    assert_eq!(
        throttle(47, true, true),
        Err(DshotError::InvalidThrottleValue(47))
    );
    assert_eq!(
        throttle(2048, false, true),
        Err(DshotError::InvalidThrottleValue(2048))
    );
    assert_eq!(
        throttle(u16::MAX, true, false),
        Err(DshotError::InvalidThrottleValue(u16::MAX))
    );
}

#[test]
fn test_throttle_checksum_matches_recomputation() {
    // Every accepted throttle frame carries, in its low four bits, the
    // checksum of its upper twelve bits under the active polarity.
    for value in THROTTLE_MIN..=THROTTLE_MAX {
        for &telemetry in &[false, true] {
            for &inverted in &[false, true] {
                let frame = throttle(value, telemetry, inverted).unwrap();
                assert_eq!(frame & 0x0f, recomputed_checksum(frame, inverted));
                assert_eq!(frame >> 5, value);
                assert_eq!(frame & 0x10 != 0, telemetry);
            }
        }
    }
}

#[test]
fn test_inverted_checksum_is_complement() {
    // Same payload and telemetry: the inverted-polarity frame differs from
    // the standard one exactly in its checksum nibble, which is complemented.
    assert_eq!(throttle(48, false, true).unwrap(), 0x0609);
    for value in [48u16, 100, 1024, 2047] {
        for &telemetry in &[false, true] {
            let standard = throttle(value, telemetry, false).unwrap();
            let flipped = throttle(value, telemetry, true).unwrap();
            assert_eq!(flipped >> 4, standard >> 4);
            assert_eq!(flipped & 0x0f, (!(standard & 0x0f)) & 0x0f);
        }
    }
}

#[test]
fn test_command_frames_request_telemetry() {
    // Bit 4 is forced high in every command frame, whatever the polarity.
    for cmd in all_commands() {
        assert_eq!(command(cmd, false) & 0x10, 0x10);
        assert_eq!(command(cmd, true) & 0x10, 0x10);
    }
}

#[test]
fn test_command_wire_codes() {
    let expected: [u16; 23] = [
        0, 1, 2, 3, 4, 5, 6, 7, 8, 9, 10, 11, 12, 20, 21, 22, 23, 24, 25, 26, 27, 28, 29,
    ];
    for (cmd, code) in all_commands().into_iter().zip(expected) {
        // The command's code sits in the frame's payload bits.
        assert_eq!(command(cmd, false) >> 5, code);
        assert_eq!(cmd.code(), code);
    }
}

#[test]
fn test_command_frame_values() {
    assert_eq!(command(DshotCmdT::DigitalCmdMotorStop, false), 0x0011);
    assert_eq!(
        command(DshotCmdT::DigitalCmdSpinDirectionReversed, false),
        0x02B9
    );
    assert_eq!(
        command(DshotCmdT::DigitalCmdSpinDirectionNormal, false),
        0x029B
    );
}

#[test]
fn test_reverse_picks_spin_direction_command() {
    assert_eq!(
        reverse(true, false),
        command(DshotCmdT::DigitalCmdSpinDirectionReversed, false)
    );
    assert_eq!(
        reverse(false, false),
        command(DshotCmdT::DigitalCmdSpinDirectionNormal, false)
    );
    assert_eq!(reverse(true, false), 0x02B9);
    assert_eq!(reverse(false, false), 0x029B);
    assert_eq!(reverse(true, true), 0x02B6);
    assert_eq!(reverse(false, true), 0x0294);
}

#[test]
fn test_throttle_minimum_is_min_throttle_frame() {
    assert_eq!(throttle_minimum(false, false), 0x0606);
    assert_eq!(throttle_minimum(true, false), 0x0617);
    assert_eq!(
        throttle_minimum(false, true),
        throttle(THROTTLE_MIN, false, true).unwrap()
    );
}

#[test]
fn test_erpm_sentinel_decodes_to_zero() {
    assert_eq!(e_rpm_from_telemetry_value(0x0fff), Ok(0));
}

#[test]
fn test_erpm_decode_values() {
    // mantissa 1, exponent 0: period 1
    assert_eq!(e_rpm_from_telemetry_value(0x0001), Ok(600000));
    // mantissa 1, exponent 1: period 2, rounded to nearest
    assert_eq!(e_rpm_from_telemetry_value(0x0201), Ok(300000));
    // mantissa 510, exponent 7: period 65280
    assert_eq!(e_rpm_from_telemetry_value(0x0ffe), Ok(9));
}

#[test]
fn test_erpm_zero_period_is_malformed() {
    assert_eq!(
        e_rpm_from_telemetry_value(0x0000),
        Err(DshotError::MalformedTelemetry)
    );
    // mantissa 0 under a nonzero exponent still encodes a zero period
    assert_eq!(
        e_rpm_from_telemetry_value(0x0400),
        Err(DshotError::MalformedTelemetry)
    );
    assert_eq!(
        e_rpm_from_telemetry_value(0x0e00),
        Err(DshotError::MalformedTelemetry)
    );
}

#[test]
fn test_erpm_falls_as_period_grows() {
    // Walking the mantissa upward at a fixed exponent lengthens the period,
    // and the decoded speed never rises.
    let mut previous = e_rpm_from_telemetry_value(0x0001).unwrap();
    for mantissa in 2u16..=511 {
        let next = e_rpm_from_telemetry_value(mantissa).unwrap();
        assert!(next <= previous);
        previous = next;
    }
    // Raising the exponent at a fixed mantissa does the same.
    for exponent in 1u16..=7 {
        let next = e_rpm_from_telemetry_value((exponent << 9) | 511).unwrap();
        assert!(next <= previous);
        previous = next;
    }
}
