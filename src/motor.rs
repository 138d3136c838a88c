use vstd::prelude::*;
use crate::ports::MotorPort;
use crate::wire::{
    be16, be32, be_bytes16, be_bytes32, i16_from_be, i16_to_be, i32_from_u32, i32_to_be,
    i8_from_byte, pattern16, pattern32, signed16, signed32, signed8, u16_to_be, u32_from_be,
};

verus! {

/// Motor power that leaves the motor unpowered and free to turn.
pub const MOTOR_FLOAT: i8 = -128;

/// LED value that hands the LED back to the firmware.
pub const LED_TO_FIRMWARE_CONTROL: u8 = 0xFF;

/// The state of one motor as the board reports it.
#[derive(Debug, Clone, Copy, PartialEq, Eq, Structural)]
pub struct MotorStatus {
    /// State flags; their meaning is the firmware's.
    pub state: u8,
    pub power: i8,
    pub position: i32,
    pub dps: i16,
}

/// `v` wrapped into the range of `i32`, as two's-complement addition does.
pub open spec fn wrap32(v: int) -> int {
    if v > i32::MAX {
        v - 0x1_0000_0000
    } else if v < i32::MIN {
        v + 0x1_0000_0000
    } else {
        v
    }
}

/// Port mask, then the power as a two's-complement byte.
pub open spec fn power_payload(port: MotorPort, power: i8) -> Seq<u8> {
    seq![port.as_bitfield(), power as u8]
}

/// Port mask, then the position as four big-endian bytes.
pub open spec fn position_payload(port: MotorPort, pos: i32) -> Seq<u8> {
    seq![port.as_bitfield()] + be_bytes32(pattern32(pos as int))
}

/// Port mask, then the speed as two big-endian bytes.
pub open spec fn dps_payload(port: MotorPort, dps: i16) -> Seq<u8> {
    seq![port.as_bitfield()] + be_bytes16(pattern16(dps as int))
}

/// Port mask, the power limit, then the speed limit as two big-endian bytes.
pub open spec fn limits_payload(port: MotorPort, power: u8, dps: u16) -> Seq<u8> {
    seq![port.as_bitfield(), power] + be_bytes16(dps as int)
}

/// The status that an eight-byte status payload carries.
pub open spec fn motor_status_of(p: Seq<u8>) -> MotorStatus {
    MotorStatus {
        state: p[0],
        power: signed8(p[1]) as i8,
        position: signed32(be32(p[2], p[3], p[4], p[5])) as i32,
        dps: signed16(be16(p[6], p[7])) as i16,
    }
}

pub fn power_bytes(port: MotorPort, power: i8) -> (r: Vec<u8>)
    ensures
        r@ == power_payload(port, power),
{
    vec![port.as_bitfield(), power as u8]
}

/// The port mask followed by `tail`.
fn with_mask(mask: u8, tail: Vec<u8>) -> (r: Vec<u8>)
    ensures
        r@ == seq![mask] + tail@,
{
    let mut r = vec![mask];
    let mut t = tail;
    r.append(&mut t);
    r
}

pub fn position_bytes(port: MotorPort, pos: i32) -> (r: Vec<u8>)
    ensures
        r@ == position_payload(port, pos),
{
    with_mask(port.as_bitfield(), i32_to_be(pos))
}

pub fn dps_bytes(port: MotorPort, dps: i16) -> (r: Vec<u8>)
    ensures
        r@ == dps_payload(port, dps),
{
    with_mask(port.as_bitfield(), i16_to_be(dps))
}

pub fn limits_bytes(port: MotorPort, power: u8, dps: u16) -> (r: Vec<u8>)
    ensures
        r@ == limits_payload(port, power, dps),
{
    let mut r = vec![port.as_bitfield(), power];
    let mut t = u16_to_be(dps);
    r.append(&mut t);
    r
}

/// Adds a displacement to a position with two's-complement wrap-around.
pub fn wrapping_position(current: i32, delta: i32) -> (r: i32)
    ensures
        r == wrap32(current + delta),
{
    let s: i64 = (current as i64) + (delta as i64);
    if s > i32::MAX as i64 {
        (s - 0x1_0000_0000) as i32
    } else if s < i32::MIN as i64 {
        (s + 0x1_0000_0000) as i32
    } else {
        s as i32
    }
}

/// Decodes the eight status bytes of a motor: state, power, four bytes of
/// position and two bytes of speed, all big-endian and signed but the state.
pub fn decode_motor_status(p: &Vec<u8>) -> (r: MotorStatus)
    requires
        p@.len() == 8,
    ensures
        r == motor_status_of(p@),
{
    MotorStatus {
        state: p[0],
        power: i8_from_byte(p[1]),
        position: i32_from_u32(u32_from_be(p[2], p[3], p[4], p[5])),
        dps: i16_from_be(p[6], p[7]),
    }
}

} // verus!
