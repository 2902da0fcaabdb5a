use freemdu::command::{check_acknowledgement, Command, Request, ResponseCode};
use freemdu::device::utils::{
    decode_bcd_value, decode_display_contents, decode_duty_cycle, decode_mc14489_digit,
    decode_ntc_reading, decode_operating_time, ntc_resistance_from_adc, rpm_from_motor_speed,
};
use freemdu::device::{Error as DeviceError, Fault, Value};
use freemdu::flags::{find_flag, format_flags, known_bits, parse_flags, valid_bits};
use freemdu::framing::compute_checksum;
use freemdu::text::{
    chars_of, is_whitespace, same_text, split_chars, string_of, text_of_bytes,
    text_of_bytes_without_trailing_space, trim,
};
use freemdu::{BaudRate, Error, NoError, Payload, ReadExactError};
use std::time::Duration;

const OPTIONS: &[(&str, u16)] = &[
    ("Soak", 0x10),
    ("PreWash", 0x20),
    ("WaterPlus", 0x40),
    ("IntensiveShort", 0x80),
];

#[test]
fn checksum_is_sum_modulo_256() {
    assert_eq!(compute_checksum(&[]), 0x00);
    assert_eq!(compute_checksum(&[0x11, 0x00, 0x00, 0x02]), 0x13);
    assert_eq!(compute_checksum(&[0x37, 0x34, 0x12, 0x00]), 0x7d);
    assert_eq!(compute_checksum(&[0xff, 0xff]), 0xfe);
    assert_eq!(compute_checksum(&[0x80; 4]), 0x00);
    assert_eq!(compute_checksum(&[0xab, 0xcd, 0xef, 0x99]), 0x00);
}

#[test]
fn unsigned_scalars_round_trip() {
    for val in [0u8, 1, 0x7f, 0x80, 0xff] {
        assert_eq!(u8::from(Payload::<1>::from(val)), val);
    }
    for val in [0u16, 1, 629, 0x00ff, 0x0100, 0x8000, 0xffff] {
        assert_eq!(u16::from(Payload::<2>::from(val)), val);
    }
    for val in [0u32, 1, 0x1234_abcd, 0x8000_0000, 0xffff_ffff] {
        assert_eq!(u32::from(Payload::<4>::from(val)), val);
    }
}

#[test]
fn signed_scalars_round_trip() {
    for val in [0i8, 1, -1, i8::MIN, i8::MAX] {
        assert_eq!(i8::from(Payload::<1>::from(val)), val);
    }
    for val in [0i16, 1, -1, -2, i16::MIN, i16::MAX] {
        assert_eq!(i16::from(Payload::<2>::from(val)), val);
    }
    for val in [0i32, 1, -1, -123_456, i32::MIN, i32::MAX] {
        assert_eq!(i32::from(Payload::<4>::from(val)), val);
    }
}

#[test]
fn scalars_are_little_endian() {
    assert_eq!(Payload::<2>::from(0x0275u16).0, [0x75, 0x02]);
    assert_eq!(Payload::<4>::from(0x1234_abcdu32).0, [0xcd, 0xab, 0x34, 0x12]);
    assert_eq!(Payload::<1>::from(-1i8).0, [0xff]);
    assert_eq!(Payload::<2>::from(-2i16).0, [0xfe, 0xff]);
    assert_eq!(Payload::<4>::from(i32::MIN).0, [0x00, 0x00, 0x00, 0x80]);
    assert_eq!(u16::from(Payload([0x75, 0x02])), 629);
    assert_eq!(i16::from(Payload([0xfe, 0xff])), -2);
    assert_eq!(u32::from(Payload([0xcd, 0xab, 0x34, 0x12])), 0x1234_abcd);
    assert_eq!(i32::from(Payload([0xff, 0xff, 0xff, 0xff])), -1);
    assert_eq!(<[u8; 3]>::from(Payload([1, 2, 3])), [1, 2, 3]);
}

#[test]
fn request_header_layout() {
    let header: Payload<4> = Request::new(Command::ReadMemory, 0xabcd, 0x0a).into();

    assert_eq!(header.0, [0x30, 0xcd, 0xab, 0x0a]);
    assert_eq!(Command::ExtendAddress.code(), 0x37);
    assert_eq!(Command::RequestSmartHome.code(), 0x85);
    assert_eq!(Command::SetChunkSize.code(), 0x4a);
}

#[test]
fn acknowledgement_codes() {
    assert_eq!(check_acknowledgement::<NoError>(0), Ok(()));
    assert_eq!(
        check_acknowledgement::<NoError>(1),
        Err(Error::IncorrectChecksum)
    );
    assert_eq!(
        check_acknowledgement::<NoError>(2),
        Err(Error::InvalidCommand)
    );
    assert_eq!(
        check_acknowledgement::<NoError>(3),
        Err(Error::InvalidResponse)
    );
    assert_eq!(
        check_acknowledgement::<NoError>(0xff),
        Err(Error::InvalidResponse)
    );
    assert_eq!(ResponseCode::from_repr(2), Some(ResponseCode::InvalidCommand));
    assert_eq!(ResponseCode::from_repr(3), None);
    assert_eq!(ResponseCode::Success.to_repr(), 0);
}

#[test]
fn baud_rates() {
    assert_eq!(BaudRate::Baud2400.as_baud(), 2400);
    assert_eq!(BaudRate::Baud76800.as_baud(), 76800);
    assert_eq!(BaudRate::Baud115200.as_baud(), 115_200);
    assert_eq!(BaudRate::from_repr(0), Some(BaudRate::Baud2400));
    assert_eq!(BaudRate::from_repr(6), Some(BaudRate::Baud115200));
    assert_eq!(BaudRate::from_repr(7), None);
    assert_eq!(BaudRate::Baud57600.to_repr(), 4);
}

#[test]
fn protocol_error_texts() {
    assert_eq!(
        Error::<NoError>::InvalidArgument.to_string(),
        "invalid argument"
    );
    assert_eq!(
        Error::<NoError>::IncorrectChecksum.to_string(),
        "incorrect checksum"
    );
    assert_eq!(
        Error::<NoError>::InvalidCommand.to_string(),
        "invalid command"
    );
    assert_eq!(
        Error::<NoError>::InvalidResponse.to_string(),
        "invalid response"
    );
    assert_eq!(
        Error::<NoError>::UnexpectedEof.to_string(),
        "unexpected end-of-file"
    );
    assert_eq!(Error::Io(NoError).to_string(), "input/output error");
}

#[test]
fn device_error_texts() {
    assert_eq!(
        DeviceError::<NoError>::UnknownSoftwareId(65535).to_string(),
        "unknown software ID: 65535"
    );
    assert_eq!(
        DeviceError::<NoError>::UnknownSoftwareId(0).to_string(),
        "unknown software ID: 0"
    );
    assert_eq!(
        DeviceError::<NoError>::UnknownSoftwareId(629).to_string(),
        "unknown software ID: 629"
    );
    assert_eq!(
        DeviceError::<NoError>::InvalidArgument.to_string(),
        "invalid argument"
    );
    assert_eq!(
        DeviceError::<NoError>::InvalidState.to_string(),
        "invalid state"
    );
    assert_eq!(
        DeviceError::<NoError>::UnexpectedMemoryValue.to_string(),
        "unexpected memory value"
    );
    assert_eq!(
        DeviceError::<NoError>::UnknownProperty.to_string(),
        "unknown property"
    );
    assert_eq!(
        DeviceError::<NoError>::UnknownAction.to_string(),
        "unknown action"
    );
    assert_eq!(
        DeviceError::<NoError>::Protocol(Error::InvalidCommand).to_string(),
        "protocol error: invalid command"
    );
}

#[test]
fn bcd_decoding() {
    assert_eq!(decode_bcd_value(0x0000_0000), 0);
    assert_eq!(decode_bcd_value(0x0000_0009), 9);
    assert_eq!(decode_bcd_value(0x0000_0010), 10);
    assert_eq!(decode_bcd_value(0x0000_1234), 1234);
    assert_eq!(decode_bcd_value(0x0012_3456), 123_456);
    assert_eq!(decode_bcd_value(0x9999_9999), 99_999_999);
    // Nibbles above 9 count as the digit 0.
    assert_eq!(decode_bcd_value(0x0000_00a5), 5);
    assert_eq!(decode_bcd_value(0x0000_1f00), 1000);
    assert_eq!(decode_bcd_value(0xffff_ffff), 0);
}

#[test]
fn bcd_of_three_digit_pairs() {
    // The bytes [0x56, 0x34, 0x12, 0x00], lowest first, spell 123456.
    assert_eq!(
        decode_bcd_value(u32::from_le_bytes([0x56, 0x34, 0x12, 0x00])),
        123_456
    );
    for d0 in [0x00u8, 0x09, 0x90, 0x99, 0x42] {
        for d1 in [0x00u8, 0x17, 0x99] {
            for d2 in [0x00u8, 0x01, 0x99] {
                let digits = |b: u8| u32::from(b >> 4) * 10 + u32::from(b & 0x0f);
                let expected = digits(d0) + 100 * digits(d1) + 10_000 * digits(d2);

                assert_eq!(
                    decode_bcd_value(u32::from_le_bytes([d0, d1, d2, 0x00])),
                    expected
                );
            }
        }
    }
}

#[test]
fn ntc_resistance() {
    assert_eq!(ntc_resistance_from_adc(0), 0);
    assert_eq!(ntc_resistance_from_adc(1), 8);
    assert_eq!(ntc_resistance_from_adc(128), 2150);
    assert_eq!(ntc_resistance_from_adc(200), 7678);
    assert_eq!(ntc_resistance_from_adc(254), 273_050);

    let mut last = 0;

    for val in 0..=254u8 {
        let ohms = ntc_resistance_from_adc(val);

        assert_eq!(ohms, 2150 * u32::from(val) / (256 - u32::from(val)));
        assert!(ohms >= last, "resistance should not fall");
        last = ohms;
    }
}

#[test]
fn ntc_reading_of_255_is_unexpected() {
    assert_eq!(decode_ntc_reading::<NoError>(128), Ok(2150));
    assert_eq!(decode_ntc_reading::<NoError>(254), Ok(273_050));
    assert_eq!(
        decode_ntc_reading::<NoError>(255),
        Err(DeviceError::UnexpectedMemoryValue)
    );
}

#[test]
fn rpm_conversion() {
    assert_eq!(rpm_from_motor_speed(0x0000), 0);
    assert_eq!(rpm_from_motor_speed(0xffff), 0);
    assert_eq!(rpm_from_motor_speed(1), 65535);
    assert_eq!(rpm_from_motor_speed(6), 65535);
    assert_eq!(rpm_from_motor_speed(7), 63214);
    assert_eq!(rpm_from_motor_speed(295), 1500);
    assert_eq!(rpm_from_motor_speed(1000), 442);
    assert_eq!(rpm_from_motor_speed(65534), 6);
    assert_eq!(rpm_from_motor_speed(0x0001_0000), 6);
    assert_eq!(rpm_from_motor_speed(442_500), 1);
    assert_eq!(rpm_from_motor_speed(442_501), 0);
    assert_eq!(rpm_from_motor_speed(0x00ff_ffff), 0);

    for speed in 1..=65534u32 {
        let expected = (442_500 / speed).min(65535);

        assert_eq!(u32::from(rpm_from_motor_speed(speed)), expected);
    }
}

#[test]
fn mc14489_digits() {
    assert_eq!(decode_mc14489_digit(0x00, false), Some('0'));
    assert_eq!(decode_mc14489_digit(0x09, false), Some('9'));
    assert_eq!(decode_mc14489_digit(0x0a, false), Some('A'));
    assert_eq!(decode_mc14489_digit(0x0b, false), Some('b'));
    assert_eq!(decode_mc14489_digit(0x0f, false), Some('F'));
    assert_eq!(decode_mc14489_digit(0x00, true), None);
    assert_eq!(decode_mc14489_digit(0x01, true), Some('c'));
    assert_eq!(decode_mc14489_digit(0x08, true), Some('P'));
    assert_eq!(decode_mc14489_digit(0x0d, true), Some('-'));
    assert_eq!(decode_mc14489_digit(0x0f, true), Some('°'));
    assert_eq!(decode_mc14489_digit(0x10, false), None);
    assert_eq!(decode_mc14489_digit(0xff, true), None);

    let plain: String = (0..16).filter_map(|c| decode_mc14489_digit(c, false)).collect();
    let special: String = (0..16).filter_map(|c| decode_mc14489_digit(c, true)).collect();

    assert_eq!(plain, "0123456789AbCdEF");
    assert_eq!(special, "cHhJLnoPrUuy-=°");
}

#[test]
fn display_contents() {
    // Digits 1, 2, 3 without points.
    assert_eq!(decode_display_contents(0x0000_0321), "123");
    // The point after the first position: "1.23".
    assert_eq!(decode_display_contents(0x0010_0321), "1.23");
    // The point after the second position.
    assert_eq!(decode_display_contents(0x0020_0321), "12.3");
    // The point after the third position.
    assert_eq!(decode_display_contents(0x0030_0321), "123.");
    // All points.
    assert_eq!(decode_display_contents(0x0070_0321), "1.2.3.");
    // A selector that names no position.
    assert_eq!(decode_display_contents(0x0040_0321), "123");
    // The first position in the special set: code 8 is 'P'.
    assert_eq!(decode_display_contents(0x0200_0008), "P00");
    // Special code 0 shows nothing.
    assert_eq!(decode_display_contents(0x0e00_0000), "");
    assert_eq!(decode_display_contents(0x0e70_0000), "...");
    assert_eq!(decode_display_contents(0x0c00_0dd1), "1--");
}

#[test]
fn operating_time() {
    assert_eq!(decode_operating_time(0x0000_0000), Duration::from_secs(0));
    // 59 minutes.
    assert_eq!(decode_operating_time(0x0000_003b), Duration::from_secs(59 * 60));
    // 1234 hours and 30 minutes.
    assert_eq!(
        decode_operating_time(0x0012_341e),
        Duration::from_secs((1234 * 60 + 30) * 60)
    );
    // 999999 hours and 255 minutes: the largest value.
    assert_eq!(
        decode_operating_time(0x9999_99ff),
        Duration::from_secs((999_999 * 60 + 255) * 60)
    );
}

#[test]
fn duty_cycle() {
    assert_eq!(decode_duty_cycle(0), 0);
    assert_eq!(decode_duty_cycle(1), 0);
    assert_eq!(decode_duty_cycle(127), 49);
    assert_eq!(decode_duty_cycle(128), 50);
    assert_eq!(decode_duty_cycle(254), 99);
    assert_eq!(decode_duty_cycle(255), 100);
}

#[test]
fn whitespace() {
    for c in [
        ' ', '\t', '\n', '\r', '\u{b}', '\u{c}', '\u{85}', '\u{a0}', '\u{1680}', '\u{2000}',
        '\u{200a}', '\u{2028}', '\u{2029}', '\u{202f}', '\u{205f}', '\u{3000}',
    ] {
        assert!(is_whitespace(c), "{c:?} should be white space");
    }
    for c in ['a', '|', '0', '\u{0}', '\u{200b}', '\u{feff}', '°'] {
        assert!(!is_whitespace(c), "{c:?} should not be white space");
    }

    // The same set as the standard library's.
    for code in 0..=0x3_0000u32 {
        if let Some(c) = char::from_u32(code) {
            assert_eq!(is_whitespace(c), c.is_whitespace(), "{c:?}");
        }
    }
}

#[test]
fn text_helpers() {
    assert_eq!(chars_of("W2446"), vec!['W', '2', '4', '4', '6']);
    assert_eq!(chars_of("°C"), vec!['°', 'C']);
    assert_eq!(string_of(&['a', 'Ω', 'b']), "aΩb");
    assert!(same_text("rom_code", "rom_code"));
    assert!(!same_text("rom_code", "rom_codes"));
    assert!(!same_text("Soak", "soak"));
    assert_eq!(trim(&chars_of("  Soak \t")), (2, 6));
    assert_eq!(trim(&chars_of("   ")), (3, 3));
    assert_eq!(trim(&chars_of("")), (0, 0));
    assert_eq!(trim(&chars_of("a b")), (0, 3));

    let pieces: Vec<String> = split_chars(&chars_of("Soak | PreWash|"), '|')
        .iter()
        .map(|piece| string_of(piece))
        .collect();

    assert_eq!(pieces, ["Soak ", " PreWash", ""]);
    assert_eq!(split_chars(&[], '|'), vec![Vec::<char>::new()]);
}

#[test]
fn utf8_decoding() {
    assert_eq!(text_of_bytes(b"93140239"), Some("93140239".to_string()));
    assert_eq!(text_of_bytes(&[]), Some(String::new()));
    assert_eq!(text_of_bytes("°C".as_bytes()), Some("°C".to_string()));
    assert_eq!(text_of_bytes(&[0xff, 0x30]), None);
    assert_eq!(text_of_bytes(&[0xc3]), None);
    assert_eq!(
        text_of_bytes_without_trailing_space(b"W2446          "),
        Some("W2446".to_string())
    );
    assert_eq!(
        text_of_bytes_without_trailing_space(b"  W 2446\t\n"),
        Some("  W 2446".to_string())
    );
    assert_eq!(
        text_of_bytes_without_trailing_space(b"   "),
        Some(String::new())
    );
    assert_eq!(text_of_bytes_without_trailing_space(&[0x80]), None);
}

#[test]
fn flags_formatting() {
    assert_eq!(format_flags(OPTIONS, 0x00), "");
    assert_eq!(format_flags(OPTIONS, 0x10), "Soak");
    assert_eq!(format_flags(OPTIONS, 0x30), "Soak | PreWash");
    assert_eq!(
        format_flags(OPTIONS, 0xf0),
        "Soak | PreWash | WaterPlus | IntensiveShort"
    );
    assert_eq!(format_flags(OPTIONS, 0x80), "IntensiveShort");
    assert_eq!(known_bits(OPTIONS), 0xf0);
    assert!(valid_bits(OPTIONS, 0x00));
    assert!(valid_bits(OPTIONS, 0xf0));
    assert!(!valid_bits(OPTIONS, 0x01));
    assert!(!valid_bits(OPTIONS, 0x1f0));
}

#[test]
fn flags_parsing() {
    assert_eq!(parse_flags(OPTIONS, "Soak | PreWash"), Some(0x30));
    assert_eq!(parse_flags(OPTIONS, "PreWash|Soak"), Some(0x30));
    assert_eq!(parse_flags(OPTIONS, "  WaterPlus  "), Some(0x40));
    assert_eq!(parse_flags(OPTIONS, "Soak | Soak"), Some(0x10));
    assert_eq!(
        parse_flags(OPTIONS, "Soak|PreWash|WaterPlus|IntensiveShort"),
        Some(0xf0)
    );
    // Nothing but white space names no flag.
    assert_eq!(parse_flags(OPTIONS, ""), Some(0x00));
    assert_eq!(parse_flags(OPTIONS, " \t "), Some(0x00));
    // Empty pieces, unknown names and another case are refused.
    assert_eq!(parse_flags(OPTIONS, "Soak |"), None);
    assert_eq!(parse_flags(OPTIONS, "| Soak"), None);
    assert_eq!(parse_flags(OPTIONS, "Soak || PreWash"), None);
    assert_eq!(parse_flags(OPTIONS, "|"), None);
    assert_eq!(parse_flags(OPTIONS, "soak"), None);
    assert_eq!(parse_flags(OPTIONS, "Soak PreWash"), None);
    assert_eq!(parse_flags(OPTIONS, "Short"), None);
    assert_eq!(parse_flags(OPTIONS, "0x10"), None);
    assert_eq!(find_flag(OPTIONS, &chars_of("WaterPlus")), Some(0x40));
    assert_eq!(find_flag(OPTIONS, &chars_of("Water")), None);
}

#[test]
fn parsing_undoes_formatting() {
    for bits in (0x00..=0xf0u16).step_by(0x10) {
        assert_eq!(parse_flags(OPTIONS, &format_flags(OPTIONS, bits)), Some(bits));
    }
}

#[test]
fn errors_from_errors() {
    assert_eq!(Error::from(NoError), Error::Io(NoError));
    assert_eq!(
        Error::<NoError>::from(ReadExactError::UnexpectedEof),
        Error::UnexpectedEof
    );
    assert_eq!(
        Error::from(ReadExactError::Other(NoError)),
        Error::Io(NoError)
    );
    assert_eq!(
        Error::from_read(ReadExactError::<NoError>::UnexpectedEof),
        Error::UnexpectedEof
    );
    assert_eq!(
        DeviceError::<NoError>::from(Error::InvalidResponse),
        DeviceError::Protocol(Error::InvalidResponse)
    );
}

#[test]
fn values_from_plain_values() {
    assert_eq!(Value::from(true), Value::Bool(true));
    assert_eq!(Value::from(7u8), Value::Number(7));
    assert_eq!(Value::from(629u16), Value::Number(629));
    assert_eq!(Value::from(70_000u32), Value::Number(70_000));
    assert_eq!(Value::from((1u8, 2u8)), Value::Sensor(1, 2));
    assert_eq!(Value::from((300u16, 400u16)), Value::Sensor(300, 400));
    assert_eq!(Value::from((5u32, 6u32)), Value::Sensor(5, 6));
    assert_eq!(
        Value::from("W2446".to_string()),
        Value::String("W2446".to_string())
    );
    assert_eq!(
        Value::from(Duration::from_secs(60)),
        Value::Duration(Duration::from_secs(60))
    );
    assert_eq!(
        Value::from(freemdu::device::Date::new(2024, 2, 29)),
        Value::Date(freemdu::device::Date {
            year: 2024,
            month: 2,
            day: 29
        })
    );
    assert_eq!(Fault::Clear.to_string(), "Ok");
    assert_eq!(Fault::Active.to_string(), "Active");
    assert_eq!(Fault::Stored.to_string(), "Stored");
}
