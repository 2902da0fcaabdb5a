use bitflags::parser::{from_str, to_writer};
use bitflags::{Flag, Flags};
use freemdu::device::id629::{Actuator, ProgramOption};
use freemdu::flags::{format_flags, parse_flags};
use freemdu::framing::{compute_checksum, frame, unframe};
use freemdu::text::{chars_of, hex_digit_value, parse_hex, string_of, trim};

/// The program options as a flags type of the `bitflags` crate, with the
/// trait written out by hand.
#[derive(Debug, PartialEq, Eq, Clone, Copy)]
struct Options(u8);

impl Flags for Options {
    const FLAGS: &'static [Flag<Self>] = &[
        Flag::new("Soak", Options(0x10)),
        Flag::new("PreWash", Options(0x20)),
        Flag::new("WaterPlus", Options(0x40)),
        Flag::new("IntensiveShort", Options(0x80)),
    ];

    type Bits = u8;

    fn bits(&self) -> u8 {
        self.0
    }

    fn from_bits_retain(bits: u8) -> Self {
        Options(bits)
    }
}

/// The actuators of the machine with software ID 629 in the same way.
#[derive(Debug, PartialEq, Eq, Clone, Copy)]
struct Actuators(u16);

impl Flags for Actuators {
    const FLAGS: &'static [Flag<Self>] = &[
        Flag::new("DrainPump", Actuators(0x0004)),
        Flag::new("DrumLights", Actuators(0x0008)),
        Flag::new("Reverse", Actuators(0x0010)),
        Flag::new("Heater", Actuators(0x0020)),
        Flag::new("Softener", Actuators(0x0040)),
        Flag::new("PreWash", Actuators(0x0080)),
        Flag::new("FieldSwitch", Actuators(0x0100)),
        Flag::new("WarmWater", Actuators(0x0200)),
        Flag::new("MainWash", Actuators(0x0400)),
    ];

    type Bits = u16;

    fn bits(&self) -> u16 {
        self.0
    }

    fn from_bits_retain(bits: u16) -> Self {
        Actuators(bits)
    }
}

fn written<B: Flags>(flags: &B) -> String
where
    B::Bits: bitflags::parser::WriteHex,
{
    let mut out = String::new();

    to_writer(flags, &mut out).unwrap();
    out
}

#[test]
fn flags_are_written_as_bitflags_writes_them() {
    for bits in 0..=0xffu8 {
        match ProgramOption::from_bits(bits) {
            Some(opts) => {
                assert_eq!(Options::from_bits(bits), Some(Options(bits)));
                assert_eq!(opts.to_string(), written(&Options(bits)));
                assert_eq!(opts.bits(), bits);
            }
            None => assert_eq!(Options::from_bits(bits), None),
        }
    }
    for bits in 0..=0x0fffu16 {
        match Actuator::from_bits(bits) {
            Some(actuators) => {
                assert_eq!(Actuators::from_bits(bits), Some(Actuators(bits)));
                assert_eq!(actuators.to_string(), written(&Actuators(bits)));
            }
            None => assert_eq!(Actuators::from_bits(bits), None),
        }
    }
}

#[test]
fn flags_are_parsed_as_bitflags_parses_them() {
    let texts = [
        "",
        " ",
        "\t\n",
        "Soak",
        " Soak ",
        "Soak|PreWash",
        "Soak | PreWash",
        "PreWash | Soak | PreWash",
        "Soak | PreWash | WaterPlus | IntensiveShort",
        "\u{a0}WaterPlus\u{2003}|\u{3000}Soak",
        "|",
        "Soak|",
        "|Soak",
        "Soak||PreWash",
        "Soak | | PreWash",
        "soak",
        "Soak PreWash",
        "Soak,PreWash",
        "Short",
        "Intensive Short",
        "Soak\u{200b}",
    ];

    for text in texts {
        let theirs = from_str::<Options>(text).ok().map(|o| o.0);
        let ours = ProgramOption::parse(text).map(|o| o.bits());

        assert_eq!(ours, theirs, "{text:?}");
    }
    for bits in (0x00..=0xf0u8).step_by(0x10) {
        let text = written(&Options(bits));

        assert_eq!(ProgramOption::parse(&text).map(|o| o.bits()), Some(bits));
        assert_eq!(from_str::<Options>(&text).ok(), Some(Options(bits)));
    }
}

#[test]
fn numbers_are_no_flag_names() {
    // The `bitflags` crate takes a number in place of a name, with any bits.
    // Here only names are taken.
    for text in ["0x10", "Soak | 0x20", "0x01", "0xff"] {
        assert!(from_str::<Options>(text).is_ok(), "{text:?}");
        assert_eq!(ProgramOption::parse(text), None, "{text:?}");
        assert_eq!(
            parse_flags(&[("Soak", 0x10), ("PreWash", 0x20)], text),
            None
        );
    }
}

#[test]
fn flag_tables_with_overlapping_and_empty_masks() {
    let table: &[(&str, u16)] = &[("A", 0x01), ("None", 0x00), ("B", 0x02), ("AB", 0x03)];

    // A flag without bits is never written; one of several bits is written
    // where all of them are set.
    assert_eq!(format_flags(table, 0x00), "");
    assert_eq!(format_flags(table, 0x01), "A");
    assert_eq!(format_flags(table, 0x03), "A | B | AB");
    assert_eq!(parse_flags(table, "AB"), Some(0x03));
    assert_eq!(parse_flags(table, "None"), Some(0x00));
    assert_eq!(parse_flags(table, "None | B"), Some(0x02));
    assert_eq!(parse_flags(&[], ""), Some(0x00));
    assert_eq!(parse_flags(&[], "A"), None);
    assert_eq!(format_flags(&[], 0xffff), "");
}

#[test]
fn trimming_is_the_standard_trimming() {
    for text in [
        "",
        " ",
        "a",
        " a",
        "a ",
        " a b ",
        "\t\r\n a \u{2028}",
        "\u{a0}\u{1680}x\u{205f}\u{3000}",
        "\u{200b} a",
        "   ",
    ] {
        let chars = chars_of(text);
        let (start, end) = trim(&chars);

        assert_eq!(string_of(&chars[start..end]), text.trim(), "{text:?}");
    }
}

#[test]
fn framing_round_trip() {
    for chunk in [1usize, 2, 3, 4, 5, 16, 128, 255, 1000] {
        for len in [0usize, 1, 2, 3, 4, 5, 7, 8, 9, 127, 128, 129, 255, 256, 1000] {
            let payload: Vec<u8> = (0..len).map(|i| (i * 7 + len) as u8).collect();
            let wire = frame(&payload, chunk);

            assert_eq!(wire.len(), len + len.div_ceil(chunk));
            assert_eq!(unframe(&wire, len, chunk), Some(payload.clone()));

            // Every chunk is followed by the sum of its bytes modulo 256.
            for (piece, framed) in payload.chunks(chunk).zip(wire.chunks(chunk + 1)) {
                let sum = piece.iter().fold(0u32, |acc, b| acc + u32::from(*b)) % 256;

                assert_eq!(framed[..piece.len()], *piece);
                assert_eq!(u32::from(framed[piece.len()]), sum);
                assert_eq!(compute_checksum(piece), framed[piece.len()]);
            }
        }
    }
}

#[test]
fn framing_of_the_largest_payload() {
    let payload: Vec<u8> = (0..65535u32).map(|i| (i % 251) as u8).collect();
    let wire = frame(&payload, 4);

    assert_eq!(wire.len(), 65535 + 16384);
    assert_eq!(unframe(&wire, 65535, 4), Some(payload));
}

#[test]
fn framing_known_images() {
    assert_eq!(frame(&[], 4), [0u8; 0]);
    assert_eq!(frame(&[0x11, 0x00, 0x00, 0x02], 4), [0x11, 0x00, 0x00, 0x02, 0x13]);
    assert_eq!(
        frame(&[0x11, 0x22, 0x33, 0x44, 0xab, 0xcd, 0xef, 0x99, 0xde, 0xad], 4),
        [0x11, 0x22, 0x33, 0x44, 0xaa, 0xab, 0xcd, 0xef, 0x99, 0x00, 0xde, 0xad, 0x8b]
    );
    assert_eq!(
        frame(&[0x11, 0x22, 0x33, 0x44, 0xab, 0xcd, 0xef, 0x99, 0xde, 0xad], 128),
        [0x11, 0x22, 0x33, 0x44, 0xab, 0xcd, 0xef, 0x99, 0xde, 0xad, 0x35]
    );
    assert_eq!(frame(&[0x01, 0x02, 0x03], 1), [0x01, 0x01, 0x02, 0x02, 0x03, 0x03]);
}

#[test]
fn unframing_gives_up() {
    let wire = [0x11, 0x22, 0x33, 0x44, 0xaa, 0x55, 0x55];

    assert_eq!(unframe(&wire, 5, 4), Some(vec![0x11, 0x22, 0x33, 0x44, 0x55]));
    // A checksum that does not match, in the first chunk and in the last.
    assert_eq!(unframe(&[0x11, 0x22, 0x33, 0x44, 0xab, 0x55, 0x55], 5, 4), None);
    assert_eq!(unframe(&[0x11, 0x22, 0x33, 0x44, 0xaa, 0x55, 0x56], 5, 4), None);
    // Bytes that run out, and bytes that are left over.
    assert_eq!(unframe(&wire[..6], 5, 4), None);
    assert_eq!(unframe(&wire[..4], 5, 4), None);
    assert_eq!(unframe(&wire, 4, 4), None);
    assert_eq!(unframe(&[], 1, 4), None);
    assert_eq!(unframe(&[0x00], 0, 4), None);
    assert_eq!(unframe(&[], 0, 4), Some(vec![]));
    // Another chunk size cuts elsewhere.
    assert_eq!(unframe(&wire, 5, 5), None);
    // A collision: the sum does not see the order of the bytes.
    assert_eq!(
        unframe(&[0x22, 0x11, 0x33, 0x44, 0xaa, 0x55, 0x55], 5, 4),
        Some(vec![0x22, 0x11, 0x33, 0x44, 0x55])
    );
}

/// The parsing of the standard library that the hexadecimal parser stands
/// in for: underscores are taken out, a `0x` in front is taken off, and the
/// rest is read as a number in base 16.
fn standard_hex(s: &str) -> Option<u32> {
    let s = s.replace('_', "");

    match s.strip_prefix("0x") {
        Some(stripped) => u32::from_str_radix(stripped, 16).ok(),
        None => u32::from_str_radix(&s, 16).ok(),
    }
}

#[test]
fn hexadecimal_numbers() {
    assert_eq!(parse_hex("0x0000_0000"), Some(0));
    assert_eq!(parse_hex("0x0000_ffff"), Some(0xffff));
    assert_eq!(parse_hex("0x07ff"), Some(0x07ff));
    assert_eq!(parse_hex("1234_ABCD"), Some(0x1234_abcd));
    assert_eq!(parse_hex("ffffffff"), Some(u32::MAX));
    assert_eq!(parse_hex("100000000"), None);
    assert_eq!(parse_hex("0x"), None);
    assert_eq!(parse_hex(""), None);
    assert_eq!(parse_hex("0xg"), None);
    assert_eq!(parse_hex("-1"), None);
    assert_eq!(hex_digit_value('f'), Some(15));
    assert_eq!(hex_digit_value('A'), Some(10));
    assert_eq!(hex_digit_value('9'), Some(9));
    assert_eq!(hex_digit_value('g'), None);
    assert_eq!(hex_digit_value('/'), None);
    assert_eq!(hex_digit_value(':'), None);
    assert_eq!(hex_digit_value('@'), None);
    assert_eq!(hex_digit_value('`'), None);
    assert_eq!(hex_digit_value('\u{ff11}'), None);
}

#[test]
fn hexadecimal_numbers_are_parsed_as_the_standard_library_parses_them() {
    let texts = [
        "", "0", "00", "0x0", "0x", "x", "0x_", "_", "__", "0_x_1_0", "0x10", "0X10", "10", "ff",
        "FF", "fF", "0xff", "0xFF", "+ff", "+", "0x+ff", "+0xff", "++1", "-1", "0x-1", "1 ", " 1",
        "0x 1", "g", "0xg", "fg", "ffffffff", "0xffff_ffff", "1_0000_0000", "0x1_0000_0000",
        "000000000000001", "0x0000000000000000ffffffff", "fffffffff", "0x0x1", "0x00x1", "١",
        "0x１", "ａ", "1e3", "0b1", "0o7", "dead_beef", "DEAD_BEEF", "0xffdb", "0x0000_ffff",
    ];

    for text in texts {
        assert_eq!(parse_hex(text), standard_hex(text), "{text:?}");
    }
    for value in [0u32, 1, 9, 10, 15, 16, 255, 256, 0xffff, 0x1_0000, 0x7fff_ffff, u32::MAX] {
        assert_eq!(parse_hex(&format!("{value:x}")), Some(value));
        assert_eq!(parse_hex(&format!("{value:X}")), Some(value));
        assert_eq!(parse_hex(&format!("0x{value:08x}")), Some(value));
        assert_eq!(parse_hex(&format!("+{value:x}")), Some(value));
    }
}
