//! Fixed-size payloads and their little-endian scalar readings.
use vstd::prelude::*;
use vstd::std_specs::convert::FromSpec;

verus! {

/// A payload of exactly `N` bytes, as it is handed to or obtained from an
/// [`Interface`](crate::Interface).
///
/// Integers of one, two and four bytes are laid out least significant byte
/// first; signed ones in two's complement.
#[derive(Debug)]
pub struct Payload<const N: usize>(pub [u8; N]);

impl<const N: usize> View for Payload<N> {
    type V = Seq<u8>;

    open spec fn view(&self) -> Seq<u8> {
        self.0@
    }
}

/// The two's-complement reading of an unsigned `value` below `modulus`.
pub open spec fn signed_reading(value: int, modulus: int) -> int {
    if 2 * value < modulus {
        value
    } else {
        value - modulus
    }
}

/// The unsigned number that stands for `value` in two's complement.
pub open spec fn unsigned_image(value: int, modulus: int) -> int {
    if value < 0 {
        value + modulus
    } else {
        value
    }
}

/// The bytes of a 16-bit integer, least significant first.
pub open spec fn le_bytes_2(value: int) -> [u8; 2] {
    [(value % 256) as u8, (value / 256) as u8]
}

/// The bytes of a 32-bit integer, least significant first.
pub open spec fn le_bytes_4(value: int) -> [u8; 4] {
    [
        (value % 256) as u8,
        (value / 256 % 256) as u8,
        (value / 65536 % 256) as u8,
        (value / 16777216) as u8,
    ]
}

/// The 16-bit integer that two bytes spell.
pub open spec fn le_value_2(bytes: Seq<u8>) -> int {
    bytes[0] as int + 256 * bytes[1] as int
}

/// The 32-bit integer that four bytes spell.
pub open spec fn le_value_4(bytes: Seq<u8>) -> int {
    bytes[0] as int + 256 * bytes[1] as int + 65536 * bytes[2] as int + 16777216 * bytes[3] as int
}

impl<const N: usize> vstd::std_specs::convert::FromSpecImpl<[u8; N]> for Payload<N> {
    open spec fn obeys_from_spec() -> bool {
        true
    }

    open spec fn from_spec(data: [u8; N]) -> Payload<N> {
        Payload(data)
    }
}

impl<const N: usize> From<[u8; N]> for Payload<N> {
    fn from(data: [u8; N]) -> (r: Payload<N>) {
        Payload(data)
    }
}

impl<const N: usize> vstd::std_specs::convert::FromSpecImpl<Payload<N>> for [u8; N] {
    open spec fn obeys_from_spec() -> bool {
        true
    }

    open spec fn from_spec(payload: Payload<N>) -> [u8; N] {
        payload.0
    }
}

impl<const N: usize> From<Payload<N>> for [u8; N] {
    fn from(payload: Payload<N>) -> (r: [u8; N]) {
        payload.0
    }
}

impl vstd::std_specs::convert::FromSpecImpl<u8> for Payload<1> {
    open spec fn obeys_from_spec() -> bool {
        true
    }

    open spec fn from_spec(val: u8) -> Payload<1> {
        Payload([val])
    }
}

impl From<u8> for Payload<1> {
    fn from(val: u8) -> (r: Payload<1>) {
        Payload([val])
    }
}

impl vstd::std_specs::convert::FromSpecImpl<u16> for Payload<2> {
    open spec fn obeys_from_spec() -> bool {
        true
    }

    open spec fn from_spec(val: u16) -> Payload<2> {
        Payload(le_bytes_2(val as int))
    }
}

impl From<u16> for Payload<2> {
    fn from(val: u16) -> (r: Payload<2>) {
        Payload([(val % 256) as u8, (val / 256) as u8])
    }
}

impl vstd::std_specs::convert::FromSpecImpl<u32> for Payload<4> {
    open spec fn obeys_from_spec() -> bool {
        true
    }

    open spec fn from_spec(val: u32) -> Payload<4> {
        Payload(le_bytes_4(val as int))
    }
}

impl From<u32> for Payload<4> {
    fn from(val: u32) -> (r: Payload<4>) {
        Payload(
            [
                (val % 256) as u8,
                (val / 256 % 256) as u8,
                (val / 65536 % 256) as u8,
                (val / 16777216) as u8,
            ],
        )
    }
}

impl vstd::std_specs::convert::FromSpecImpl<i8> for Payload<1> {
    open spec fn obeys_from_spec() -> bool {
        true
    }

    open spec fn from_spec(val: i8) -> Payload<1> {
        Payload([unsigned_image(val as int, 256) as u8])
    }
}

impl From<i8> for Payload<1> {
    fn from(val: i8) -> (r: Payload<1>) {
        let image: i16 = if val < 0 {
            val as i16 + 256
        } else {
            val as i16
        };
        Payload([image as u8])
    }
}

impl vstd::std_specs::convert::FromSpecImpl<i16> for Payload<2> {
    open spec fn obeys_from_spec() -> bool {
        true
    }

    open spec fn from_spec(val: i16) -> Payload<2> {
        Payload(le_bytes_2(unsigned_image(val as int, 65536)))
    }
}

impl From<i16> for Payload<2> {
    fn from(val: i16) -> (r: Payload<2>) {
        let image: i32 = if val < 0 {
            val as i32 + 65536
        } else {
            val as i32
        };
        Payload([(image % 256) as u8, (image / 256) as u8])
    }
}

impl vstd::std_specs::convert::FromSpecImpl<i32> for Payload<4> {
    open spec fn obeys_from_spec() -> bool {
        true
    }

    open spec fn from_spec(val: i32) -> Payload<4> {
        Payload(le_bytes_4(unsigned_image(val as int, 4294967296)))
    }
}

impl From<i32> for Payload<4> {
    fn from(val: i32) -> (r: Payload<4>) {
        let image: i64 = if val < 0 {
            val as i64 + 4294967296
        } else {
            val as i64
        };
        Payload(
            [
                (image % 256) as u8,
                (image / 256 % 256) as u8,
                (image / 65536 % 256) as u8,
                (image / 16777216) as u8,
            ],
        )
    }
}

impl vstd::std_specs::convert::FromSpecImpl<Payload<1>> for u8 {
    open spec fn obeys_from_spec() -> bool {
        true
    }

    open spec fn from_spec(payload: Payload<1>) -> u8 {
        payload@[0]
    }
}

impl From<Payload<1>> for u8 {
    fn from(payload: Payload<1>) -> (r: u8) {
        payload.0[0]
    }
}

impl vstd::std_specs::convert::FromSpecImpl<Payload<2>> for u16 {
    open spec fn obeys_from_spec() -> bool {
        true
    }

    open spec fn from_spec(payload: Payload<2>) -> u16 {
        le_value_2(payload@) as u16
    }
}

impl From<Payload<2>> for u16 {
    fn from(payload: Payload<2>) -> (r: u16) {
        payload.0[0] as u16 + 256 * (payload.0[1] as u16)
    }
}

impl vstd::std_specs::convert::FromSpecImpl<Payload<4>> for u32 {
    open spec fn obeys_from_spec() -> bool {
        true
    }

    open spec fn from_spec(payload: Payload<4>) -> u32 {
        le_value_4(payload@) as u32
    }
}

impl From<Payload<4>> for u32 {
    fn from(payload: Payload<4>) -> (r: u32) {
        payload.0[0] as u32 + 256 * (payload.0[1] as u32) + 65536 * (payload.0[2] as u32) + 16777216
            * (payload.0[3] as u32)
    }
}

impl vstd::std_specs::convert::FromSpecImpl<Payload<1>> for i8 {
    open spec fn obeys_from_spec() -> bool {
        true
    }

    open spec fn from_spec(payload: Payload<1>) -> i8 {
        signed_reading(payload@[0] as int, 256) as i8
    }
}

impl From<Payload<1>> for i8 {
    fn from(payload: Payload<1>) -> (r: i8) {
        let value: i16 = payload.0[0] as i16;
        if value < 128 {
            value as i8
        } else {
            (value - 256) as i8
        }
    }
}

impl vstd::std_specs::convert::FromSpecImpl<Payload<2>> for i16 {
    open spec fn obeys_from_spec() -> bool {
        true
    }

    open spec fn from_spec(payload: Payload<2>) -> i16 {
        signed_reading(le_value_2(payload@), 65536) as i16
    }
}

impl From<Payload<2>> for i16 {
    fn from(payload: Payload<2>) -> (r: i16) {
        let value: i32 = payload.0[0] as i32 + 256 * (payload.0[1] as i32);
        if value < 32768 {
            value as i16
        } else {
            (value - 65536) as i16
        }
    }
}

impl vstd::std_specs::convert::FromSpecImpl<Payload<4>> for i32 {
    open spec fn obeys_from_spec() -> bool {
        true
    }

    open spec fn from_spec(payload: Payload<4>) -> i32 {
        signed_reading(le_value_4(payload@), 4294967296) as i32
    }
}

impl From<Payload<4>> for i32 {
    fn from(payload: Payload<4>) -> (r: i32) {
        let value: i64 = payload.0[0] as i64 + 256 * (payload.0[1] as i64) + 65536 * (
        payload.0[2] as i64) + 16777216 * (payload.0[3] as i64);
        if value < 2147483648 {
            value as i32
        } else {
            (value - 4294967296) as i32
        }
    }
}

/// A byte written as a payload and read back is the same byte.
pub proof fn u8_round_trip(val: u8)
    ensures
        u8::from_spec(Payload::<1>::from_spec(val)) == val,
{
}

/// A 16-bit unsigned integer written as a payload and read back is the same
/// integer.
pub proof fn u16_round_trip(val: u16)
    ensures
        u16::from_spec(Payload::<2>::from_spec(val)) == val,
{
}

/// A 32-bit unsigned integer written as a payload and read back is the same
/// integer.
pub proof fn u32_round_trip(val: u32)
    ensures
        u32::from_spec(Payload::<4>::from_spec(val)) == val,
{
}

/// A signed byte written as a payload and read back is the same value.
pub proof fn i8_round_trip(val: i8)
    ensures
        i8::from_spec(Payload::<1>::from_spec(val)) == val,
{
}

/// A 16-bit signed integer written as a payload and read back is the same
/// integer.
pub proof fn i16_round_trip(val: i16)
    ensures
        i16::from_spec(Payload::<2>::from_spec(val)) == val,
{
}

/// A 32-bit signed integer written as a payload and read back is the same
/// integer.
pub proof fn i32_round_trip(val: i32)
    ensures
        i32::from_spec(Payload::<4>::from_spec(val)) == val,
{
}

/// Bytes wrapped as a payload and unwrapped are the same bytes.
pub proof fn bytes_round_trip<const N: usize>(data: [u8; N])
    ensures
        <[u8; N]>::from_spec(Payload::<N>::from_spec(data)) == data,
{
}

} // verus!
