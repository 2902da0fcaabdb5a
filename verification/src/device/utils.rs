//! Conversions that several drivers share: packed decimal digits, the
//! thermistor divider, the tachometer, the display driver.
use crate::device::Error;
use core::time::Duration;
use vstd::prelude::*;

verus! {

/// The number that the nibbles of `val` spell as decimal digits, lowest
/// nibble first. A nibble above 9 counts as the digit 0.
pub open spec fn bcd_value(val: nat) -> nat
    decreases val,
{
    if val == 0 {
        0
    } else {
        (if val % 16 <= 9 {
            val % 16
        } else {
            0
        }) + 10 * bcd_value(val / 16)
    }
}

/// The weight of decimal digit `k`, for the eight digits of a 32-bit value.
pub open spec fn digit_weight(k: nat) -> nat {
    if k == 0 {
        1
    } else if k == 1 {
        10
    } else if k == 2 {
        100
    } else if k == 3 {
        1000
    } else if k == 4 {
        10000
    } else if k == 5 {
        100000
    } else if k == 6 {
        1000000
    } else if k == 7 {
        10000000
    } else {
        100000000
    }
}

/// One more than the largest value that is left of a 32-bit value once `k`
/// nibbles have been taken off.
pub open spec fn nibble_limit(k: nat) -> nat {
    if k == 0 {
        0x1_0000_0000
    } else if k == 1 {
        0x1000_0000
    } else if k == 2 {
        0x100_0000
    } else if k == 3 {
        0x10_0000
    } else if k == 4 {
        0x1_0000
    } else if k == 5 {
        0x1000
    } else if k == 6 {
        0x100
    } else if k == 7 {
        0x10
    } else {
        1
    }
}

/// Decodes packed decimal digits into the number that they spell.
pub fn decode_bcd_value(val: u32) -> (r: u32)
    ensures
        r == bcd_value(val as nat),
        r < 100000000,
{
    let mut rest: u32 = val;
    let mut mul: u32 = 1;
    let mut res: u32 = 0;
    let ghost mut k: nat = 0;
    while rest > 0
        invariant
            k <= 8,
            mul == digit_weight(k),
            rest < nibble_limit(k),
            res < mul,
            res + mul * bcd_value(rest as nat) == bcd_value(val as nat),
        decreases rest,
    {
        let digit: u32 = rest % 16;
        proof {
            assert(k < 8);
            let tail = bcd_value((rest / 16) as nat);
            let d: nat = if digit <= 9 {
                digit as nat
            } else {
                0
            };
            assert(bcd_value(rest as nat) == d + 10 * tail);
            assert(mul * (d + 10 * tail) == mul * d + (mul * 10) * tail) by (nonlinear_arith);
            assert(mul * d <= mul * 9) by (nonlinear_arith)
                requires
                    d <= 9,
            ;
        }
        if digit <= 9 {
            res += digit * mul;
        }
        mul *= 10;
        rest = rest / 16;
        proof {
            k = k + 1;
        }
    }
    assert(bcd_value(0) == 0);
    assert(mul * 0 == 0) by (nonlinear_arith);
    res
}

/// Three bytes of two decimal digits each, lowest byte first, spell the
/// number with those six digits: the low nibble of the first byte is the
/// ones, its high nibble the tens, and so on.
pub proof fn bcd_of_three_bytes(d0: u8, d1: u8, d2: u8)
    requires
        d0 % 16 <= 9 && d0 / 16 <= 9,
        d1 % 16 <= 9 && d1 / 16 <= 9,
        d2 % 16 <= 9 && d2 / 16 <= 9,
    ensures
        bcd_value((d0 + 256 * d1 + 65536 * d2 + 16777216 * 0) as nat) == d0 % 16 + 10 * (d0 / 16)
            + 100 * (d1 % 16) + 1000 * (d1 / 16) + 10000 * (d2 % 16) + 100000 * (d2 / 16),
{
    let v0: nat = (d0 + 256 * d1 + 65536 * d2) as nat;
    let v1: nat = (d0 / 16 + 16 * d1 + 4096 * d2) as nat;
    let v2: nat = (d1 + 256 * d2) as nat;
    let v3: nat = (d1 / 16 + 16 * d2) as nat;
    let v4: nat = d2 as nat;
    let v5: nat = (d2 / 16) as nat;
    assert(v0 / 16 == v1 && v0 % 16 == d0 % 16);
    assert(v1 / 16 == v2 && v1 % 16 == d0 / 16);
    assert(v2 / 16 == v3 && v2 % 16 == d1 % 16);
    assert(v3 / 16 == v4 && v3 % 16 == d1 / 16);
    assert(v4 / 16 == v5 && v4 % 16 == d2 % 16);
    assert(v5 / 16 == 0 && v5 % 16 == d2 / 16);
    assert(bcd_value(0) == 0);
    assert(bcd_value(v5) == d2 / 16) by {
        if v5 != 0 {
            assert(bcd_value(v5) == v5 % 16 + 10 * bcd_value(v5 / 16));
        }
    }
    assert(bcd_value(v4) == d2 % 16 + 10 * bcd_value(v5)) by {
        if v4 == 0 {
            assert(v5 == 0);
        }
    }
    assert(bcd_value(v3) == d1 / 16 + 10 * bcd_value(v4)) by {
        if v3 == 0 {
            assert(v4 == 0);
        }
    }
    assert(bcd_value(v2) == d1 % 16 + 10 * bcd_value(v3)) by {
        if v2 == 0 {
            assert(v3 == 0);
        }
    }
    assert(bcd_value(v1) == d0 / 16 + 10 * bcd_value(v2)) by {
        if v1 == 0 {
            assert(v2 == 0);
        }
    }
    assert(bcd_value(v0) == d0 % 16 + 10 * bcd_value(v1)) by {
        if v0 == 0 {
            assert(v1 == 0);
        }
    }
}

/// The resistance in ohms of a thermistor to ground that, under a resistor
/// of 2150 ohms to the supply, gives the reading `val` of an 8-bit
/// converter.
pub open spec fn ntc_resistance(val: int) -> int {
    2150 * val / (256 - val)
}

/// Computes the resistance of the thermistor from the converter's reading.
///
/// The reading 255 means a thermistor that is not connected: it has no
/// resistance to report and is not accepted.
pub fn ntc_resistance_from_adc(val: u8) -> (r: u32)
    requires
        val < 255,
    ensures
        r == ntc_resistance(val as int),
{
    let num: u32 = 2150 * (val as u32);
    let den: u32 = 256 - (val as u32);
    proof {
        assert(0 <= (num as int) / (den as int) <= num) by (nonlinear_arith)
            requires
                num >= 0,
                den >= 1,
        ;
    }
    num / den
}

/// The resistance for a reading taken from the appliance's memory. The
/// reading 255 has no resistance: it is a value that was not expected there.
pub open spec fn ntc_reading<E>(raw: u8) -> Result<u32, Error<E>> {
    if raw == 255 {
        Err(Error::UnexpectedMemoryValue)
    } else {
        Ok(ntc_resistance(raw as int) as u32)
    }
}

/// Computes the resistance for a reading taken from the appliance's memory.
pub fn decode_ntc_reading<E>(raw: u8) -> (r: Result<u32, Error<E>>)
    ensures
        r == ntc_reading::<E>(raw),
{
    if raw == 255 {
        Err(Error::UnexpectedMemoryValue)
    } else {
        Ok(ntc_resistance_from_adc(raw))
    }
}

/// A reading of zero is a resistance of zero, and from there to the reading
/// 254 the resistance never falls as the reading rises.
pub proof fn ntc_resistance_monotone(low: u8, high: u8)
    requires
        low <= high <= 254,
    ensures
        ntc_resistance(0) == 0,
        ntc_resistance(low as int) <= ntc_resistance(high as int),
{
    let a = 2150 * low as int;
    let b = 2150 * high as int;
    let x = 256 - low as int;
    let y = 256 - high as int;
    vstd::arithmetic::div_mod::lemma_div_is_ordered(a, b, x);
    vstd::arithmetic::div_mod::lemma_div_is_ordered_by_denominator(b, y, x);
}

/// The speed in revolutions per minute that the raw tachometer value `speed`
/// stands for.
///
/// The raw value is a period: the speed is 442500 divided by it. The values
/// 0 and 0xffff both stand for no speed. A speed that does not fit 16 bits
/// is reported as the largest that does.
pub open spec fn rpm(speed: int) -> int {
    if speed == 0 || speed == 0xffff {
        0
    } else if 442500int / speed > 0xffff {
        0xffff
    } else {
        442500int / speed
    }
}

/// Computes the speed in revolutions per minute from a raw tachometer value.
pub fn rpm_from_motor_speed(speed: u32) -> (r: u16)
    ensures
        r == rpm(speed as int),
{
    if speed == 0x0000_0000 || speed == 0x0000_ffff {
        0
    } else {
        let whole: u32 = 442500 / speed;
        if whole > 0xffff {
            0xffff
        } else {
            whole as u16
        }
    }
}

/// The two raw values for no speed give 0. Every raw value between them
/// gives 442500 divided by it, rounded down, or 65535 where that is more.
pub proof fn rpm_formula(speed: u32)
    ensures
        rpm(0) == 0,
        rpm(0xffff) == 0,
        1 <= speed <= 65534 ==> rpm(speed as int) == if 442500int / (speed as int) > 65535 {
            65535
        } else {
            442500int / (speed as int)
        },
        7 <= speed <= 65534 ==> rpm(speed as int) == 442500int / (speed as int),
{
    if 7 <= speed <= 65534 {
        vstd::arithmetic::div_mod::lemma_div_is_ordered_by_denominator(442500, 7, speed as int);
    }
}

/// The character that the display driver shows for a digit code, in its
/// plain and in its special character set. The special set has no character
/// for code 0, and no set has one for a code above 15.
pub open spec fn mc14489_digit(code: u8, special: bool) -> Option<char> {
    if code > 15 {
        None
    } else if !special {
        Some(
            if code == 0 {
                '0'
            } else if code == 1 {
                '1'
            } else if code == 2 {
                '2'
            } else if code == 3 {
                '3'
            } else if code == 4 {
                '4'
            } else if code == 5 {
                '5'
            } else if code == 6 {
                '6'
            } else if code == 7 {
                '7'
            } else if code == 8 {
                '8'
            } else if code == 9 {
                '9'
            } else if code == 10 {
                'A'
            } else if code == 11 {
                'b'
            } else if code == 12 {
                'C'
            } else if code == 13 {
                'd'
            } else if code == 14 {
                'E'
            } else {
                'F'
            },
        )
    } else if code == 0 {
        None
    } else {
        Some(
            if code == 1 {
                'c'
            } else if code == 2 {
                'H'
            } else if code == 3 {
                'h'
            } else if code == 4 {
                'J'
            } else if code == 5 {
                'L'
            } else if code == 6 {
                'n'
            } else if code == 7 {
                'o'
            } else if code == 8 {
                'P'
            } else if code == 9 {
                'r'
            } else if code == 10 {
                'U'
            } else if code == 11 {
                'u'
            } else if code == 12 {
                'y'
            } else if code == 13 {
                '-'
            } else if code == 14 {
                '='
            } else {
                '\u{b0}'
            },
        )
    }
}

/// Decodes a digit code of the display driver into the character shown.
pub fn decode_mc14489_digit(code: u8, special: bool) -> (r: Option<char>)
    ensures
        r == mc14489_digit(code, special),
{
    match (code, special) {
        (0x00, false) => Some('0'),
        (0x01, false) => Some('1'),
        (0x02, false) => Some('2'),
        (0x03, false) => Some('3'),
        (0x04, false) => Some('4'),
        (0x05, false) => Some('5'),
        (0x06, false) => Some('6'),
        (0x07, false) => Some('7'),
        (0x08, false) => Some('8'),
        (0x09, false) => Some('9'),
        (0x0a, false) => Some('A'),
        (0x0b, false) => Some('b'),
        (0x0c, false) => Some('C'),
        (0x0d, false) => Some('d'),
        (0x0e, false) => Some('E'),
        (0x0f, false) => Some('F'),
        (0x01, true) => Some('c'),
        (0x02, true) => Some('H'),
        (0x03, true) => Some('h'),
        (0x04, true) => Some('J'),
        (0x05, true) => Some('L'),
        (0x06, true) => Some('n'),
        (0x07, true) => Some('o'),
        (0x08, true) => Some('P'),
        (0x09, true) => Some('r'),
        (0x0a, true) => Some('U'),
        (0x0b, true) => Some('u'),
        (0x0c, true) => Some('y'),
        (0x0d, true) => Some('-'),
        (0x0e, true) => Some('='),
        (0x0f, true) => Some('\u{b0}'),
        _ => None,
    }
}

/// The number of seconds in an operating time as the appliance stores it:
/// the minutes in the lowest byte, the hours above it as packed decimal
/// digits.
pub open spec fn operating_seconds(raw: u32) -> u64 {
    ((bcd_value((raw / 256) as nat) * 60 + raw % 256) * 60) as u64
}

/// `Duration::from_secs` of the standard library makes a duration of a
/// number of whole seconds. The duration that it makes is named by
/// [`duration_of_secs`].
pub assume_specification[ std::time::Duration::from_secs ](secs: u64) -> (r: std::time::Duration)
    ensures
        r == duration_of_secs(secs),
;

/// The duration of `secs` whole seconds.
pub uninterp spec fn duration_of_secs(secs: u64) -> Duration;

/// Decodes an operating time.
pub fn decode_operating_time(raw: u32) -> (r: Duration)
    ensures
        r == duration_of_secs(operating_seconds(raw)),
{
    let mins: u32 = raw % 256;
    let hours: u32 = decode_bcd_value(raw / 256);
    Duration::from_secs((hours as u64 * 60 + mins as u64) * 60)
}

/// A duty cycle in percent from its 8-bit value, rounded down.
pub open spec fn duty_percent(raw: u8) -> u8 {
    (raw * 100 / 255) as u8
}

/// Computes a duty cycle in percent from its 8-bit value.
pub fn decode_duty_cycle(raw: u8) -> (r: u8)
    ensures
        r == duty_percent(raw),
        r <= 100,
{
    (raw as u16 * 100 / 255) as u8
}

/// The character of one position of the display, if it shows one.
pub open spec fn position_text(code: u8, special: bool, point: bool) -> Seq<char> {
    (match mc14489_digit(code, special) {
        Some(c) => seq![c],
        None => Seq::empty(),
    }) + (if point {
        seq!['.']
    } else {
        Seq::empty()
    })
}

/// Whether the decimal point after position `position` is lit when the
/// point selector is `points`: the selector names one position, or with 7
/// all of them.
pub open spec fn point_lit(points: u32, position: u32) -> bool {
    points == position || points == 7
}

/// The text on a display of three positions, from the 32 bits that the
/// appliance holds for it.
///
/// The three digit codes are in bits 0 to 11, four bits each. Bits 20 to 22
/// select the decimal point. Bits 25 to 27 switch each position to the
/// special character set.
pub open spec fn display_text(raw: u32) -> Seq<char> {
    let points = raw / 0x10_0000 % 8;
    position_text((raw % 16) as u8, raw / 0x200_0000 % 2 == 1, point_lit(points, 1))
        + position_text((raw / 16 % 16) as u8, raw / 0x400_0000 % 2 == 1, point_lit(points, 2))
        + position_text((raw / 256 % 16) as u8, raw / 0x800_0000 % 2 == 1, point_lit(points, 3))
}

/// Appends the character of one position of the display to `out`.
fn push_position(out: &mut String, code: u8, special: bool, point: bool)
    ensures
        final(out)@ == old(out)@ + position_text(code, special, point),
{
    match decode_mc14489_digit(code, special) {
        Some(c) => {
            out.push(c);
        },
        None => {},
    }
    if point {
        out.push('.');
    }
    assert(out@ =~= old(out)@ + position_text(code, special, point));
}

/// Decodes the contents of the display.
pub fn decode_display_contents(raw: u32) -> (r: String)
    ensures
        r@ == display_text(raw),
{
    let points: u32 = raw / 0x10_0000 % 8;
    let mut out = String::new();
    push_position(
        &mut out,
        (raw % 16) as u8,
        raw / 0x200_0000 % 2 == 1,
        points == 1 || points == 7,
    );
    push_position(
        &mut out,
        (raw / 16 % 16) as u8,
        raw / 0x400_0000 % 2 == 1,
        points == 2 || points == 7,
    );
    push_position(
        &mut out,
        (raw / 256 % 16) as u8,
        raw / 0x800_0000 % 2 == 1,
        points == 3 || points == 7,
    );
    assert(out@ =~= display_text(raw));
    out
}

} // verus!
