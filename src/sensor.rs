use vstd::prelude::*;
use crate::frame::{acked, send_read_array_response, SPIError};
use crate::wire::{be16, i16_from_be, i8_from_byte, signed16, signed8, u16_from_be};

verus! {

/// The sensor modes that the firmware knows.
#[derive(Debug, Clone, Copy, PartialEq, Eq, Structural)]
pub enum SensorType {
    NoSensor,
    I2c,
    Custom,
    Touch,
    TouchNxt,
    TouchEv3,
    NxtLightOn,
    NxtLightOff,
    NxtColorRed,
    NxtColorGreen,
    NxtColorBlue,
    NxtColorFull,
    NxtColorOff,
    NxtUltrasonic,
    Ev3GyroAbs,
    Ev3GyroDps,
    Ev3GyroAbsDps,
    Ev3ColorReflected,
    Ev3ColorAmbient,
    Ev3ColorColor,
    Ev3ColorRawReflected,
    Ev3ColorColorComponents,
    Ev3UltrasonicCm,
    Ev3UltrasonicInches,
    Ev3UltrasonicListen,
    Ev3InfraredProximity,
    Ev3InfraredSeek,
    Ev3InfraredRemote,
}

impl SensorType {
    pub open spec fn spec_id(self) -> u8 {
        match self {
            SensorType::NoSensor => 1,
            SensorType::I2c => 2,
            SensorType::Custom => 3,
            SensorType::Touch => 4,
            SensorType::TouchNxt => 5,
            SensorType::TouchEv3 => 6,
            SensorType::NxtLightOn => 7,
            SensorType::NxtLightOff => 8,
            SensorType::NxtColorRed => 9,
            SensorType::NxtColorGreen => 10,
            SensorType::NxtColorBlue => 11,
            SensorType::NxtColorFull => 12,
            SensorType::NxtColorOff => 13,
            SensorType::NxtUltrasonic => 14,
            SensorType::Ev3GyroAbs => 15,
            SensorType::Ev3GyroDps => 16,
            SensorType::Ev3GyroAbsDps => 17,
            SensorType::Ev3ColorReflected => 18,
            SensorType::Ev3ColorAmbient => 19,
            SensorType::Ev3ColorColor => 20,
            SensorType::Ev3ColorRawReflected => 21,
            SensorType::Ev3ColorColorComponents => 22,
            SensorType::Ev3UltrasonicCm => 23,
            SensorType::Ev3UltrasonicInches => 24,
            SensorType::Ev3UltrasonicListen => 25,
            SensorType::Ev3InfraredProximity => 26,
            SensorType::Ev3InfraredSeek => 27,
            SensorType::Ev3InfraredRemote => 28,
        }
    }

    /// The mode's identifier on the wire.
    #[verifier::when_used_as_spec(spec_id)]
    pub fn id(self) -> (r: u8)
        ensures
            r == self.spec_id(),
    {
        match self {
            SensorType::NoSensor => 1,
            SensorType::I2c => 2,
            SensorType::Custom => 3,
            SensorType::Touch => 4,
            SensorType::TouchNxt => 5,
            SensorType::TouchEv3 => 6,
            SensorType::NxtLightOn => 7,
            SensorType::NxtLightOff => 8,
            SensorType::NxtColorRed => 9,
            SensorType::NxtColorGreen => 10,
            SensorType::NxtColorBlue => 11,
            SensorType::NxtColorFull => 12,
            SensorType::NxtColorOff => 13,
            SensorType::NxtUltrasonic => 14,
            SensorType::Ev3GyroAbs => 15,
            SensorType::Ev3GyroDps => 16,
            SensorType::Ev3GyroAbsDps => 17,
            SensorType::Ev3ColorReflected => 18,
            SensorType::Ev3ColorAmbient => 19,
            SensorType::Ev3ColorColor => 20,
            SensorType::Ev3ColorRawReflected => 21,
            SensorType::Ev3ColorColorComponents => 22,
            SensorType::Ev3UltrasonicCm => 23,
            SensorType::Ev3UltrasonicInches => 24,
            SensorType::Ev3UltrasonicListen => 25,
            SensorType::Ev3InfraredProximity => 26,
            SensorType::Ev3InfraredSeek => 27,
            SensorType::Ev3InfraredRemote => 28,
        }
    }

    /// Whether this library decodes readings of this mode. `NoSensor` is no mode
    /// at all; the pass-through and two of the infrared modes are not decoded.
    pub open spec fn spec_is_decoded(self) -> bool {
        !(self is NoSensor || self is I2c || self is Ev3InfraredProximity || self is Ev3InfraredSeek)
    }

    #[verifier::when_used_as_spec(spec_is_decoded)]
    pub fn is_decoded(self) -> (r: bool)
        ensures
            r == self.spec_is_decoded(),
    {
        match self {
            SensorType::NoSensor | SensorType::I2c | SensorType::Ev3InfraredProximity
            | SensorType::Ev3InfraredSeek => false,
            _ => true,
        }
    }

    /// Length of the exchange that reads a sensor in this mode, header
    /// included; 0 for the modes that are not decoded.
    pub open spec fn spec_transfer_len(self) -> usize {
        match self {
            SensorType::NoSensor => 0,
            SensorType::I2c => 0,
            SensorType::Custom => 10,
            SensorType::Touch => 7,
            SensorType::TouchNxt => 7,
            SensorType::TouchEv3 => 7,
            SensorType::NxtLightOn => 8,
            SensorType::NxtLightOff => 8,
            SensorType::NxtColorRed => 8,
            SensorType::NxtColorGreen => 8,
            SensorType::NxtColorBlue => 8,
            SensorType::NxtColorFull => 12,
            SensorType::NxtColorOff => 8,
            SensorType::NxtUltrasonic => 7,
            SensorType::Ev3GyroAbs => 8,
            SensorType::Ev3GyroDps => 8,
            SensorType::Ev3GyroAbsDps => 10,
            SensorType::Ev3ColorReflected => 7,
            SensorType::Ev3ColorAmbient => 7,
            SensorType::Ev3ColorColor => 7,
            SensorType::Ev3ColorRawReflected => 10,
            SensorType::Ev3ColorColorComponents => 14,
            SensorType::Ev3UltrasonicCm => 8,
            SensorType::Ev3UltrasonicInches => 8,
            SensorType::Ev3UltrasonicListen => 7,
            SensorType::Ev3InfraredProximity => 0,
            SensorType::Ev3InfraredSeek => 0,
            SensorType::Ev3InfraredRemote => 10,
        }
    }

    #[verifier::when_used_as_spec(spec_transfer_len)]
    pub fn transfer_len(self) -> (r: usize)
        ensures
            r == self.spec_transfer_len(),
            self.is_decoded() ==> 7 <= r <= 14,
    {
        match self {
            SensorType::NoSensor => 0,
            SensorType::I2c => 0,
            SensorType::Custom => 10,
            SensorType::Touch => 7,
            SensorType::TouchNxt => 7,
            SensorType::TouchEv3 => 7,
            SensorType::NxtLightOn => 8,
            SensorType::NxtLightOff => 8,
            SensorType::NxtColorRed => 8,
            SensorType::NxtColorGreen => 8,
            SensorType::NxtColorBlue => 8,
            SensorType::NxtColorFull => 12,
            SensorType::NxtColorOff => 8,
            SensorType::NxtUltrasonic => 7,
            SensorType::Ev3GyroAbs => 8,
            SensorType::Ev3GyroDps => 8,
            SensorType::Ev3GyroAbsDps => 10,
            SensorType::Ev3ColorReflected => 7,
            SensorType::Ev3ColorAmbient => 7,
            SensorType::Ev3ColorColor => 7,
            SensorType::Ev3ColorRawReflected => 10,
            SensorType::Ev3ColorColorComponents => 14,
            SensorType::Ev3UltrasonicCm => 8,
            SensorType::Ev3UltrasonicInches => 8,
            SensorType::Ev3UltrasonicListen => 7,
            SensorType::Ev3InfraredProximity => 0,
            SensorType::Ev3InfraredSeek => 0,
            SensorType::Ev3InfraredRemote => 10,
        }
    }
}

/// Configuration bits of the custom and pass-through modes.
#[derive(Debug, Clone, Copy, PartialEq, Eq, Structural)]
pub enum SensorConfigFlags {
    /// Pass-through: send a clock pulse between reading and writing.
    I2cMidClock,
    /// Enable the 9 V pull-up on pin 1.
    Pin1Pull,
    /// Pass-through: keep repeating the same transaction.
    I2cRepeat,
    /// Custom: drive pin 5 as an output.
    Pin5Dir,
    /// Custom: set pin 5 high.
    Pin5State,
    /// Custom: drive pin 6 as an output.
    Pin6Dir,
    /// Custom: set pin 6 high.
    Pin6State,
    /// Custom: report the ADC reading of pin 1.
    Report1Adc,
    /// Custom: report the ADC reading of pin 6.
    Report6Adc,
}

impl SensorConfigFlags {
    pub open spec fn spec_bits(self) -> u16 {
        match self {
            SensorConfigFlags::I2cMidClock => 0x0001,
            SensorConfigFlags::Pin1Pull => 0x0002,
            SensorConfigFlags::I2cRepeat => 0x0004,
            SensorConfigFlags::Pin5Dir => 0x0010,
            SensorConfigFlags::Pin5State => 0x0020,
            SensorConfigFlags::Pin6Dir => 0x0100,
            SensorConfigFlags::Pin6State => 0x0200,
            SensorConfigFlags::Report1Adc => 0x1000,
            SensorConfigFlags::Report6Adc => 0x4000,
        }
    }

    /// The flag's bit in the configuration word.
    #[verifier::when_used_as_spec(spec_bits)]
    pub fn bits(self) -> (r: u16)
        ensures
            r == self.spec_bits(),
    {
        match self {
            SensorConfigFlags::I2cMidClock => 0x0001,
            SensorConfigFlags::Pin1Pull => 0x0002,
            SensorConfigFlags::I2cRepeat => 0x0004,
            SensorConfigFlags::Pin5Dir => 0x0010,
            SensorConfigFlags::Pin5State => 0x0020,
            SensorConfigFlags::Pin6Dir => 0x0100,
            SensorConfigFlags::Pin6State => 0x0200,
            SensorConfigFlags::Report1Adc => 0x1000,
            SensorConfigFlags::Report6Adc => 0x4000,
        }
    }
}

/// Why a sensor could not be configured or read.
#[derive(Debug)]
pub enum SensorError {
    NotConfigured,
    Configuring,
    NoData,
    /// The sensor's own bus failed: no acknowledgement, clock held too long.
    I2cError,
    TypeMismatch,
    SPIError(SPIError),
    NotImplemented,
    UnknownStatusReported(u8),
}

impl From<SPIError> for SensorError {
    fn from(e: SPIError) -> SensorError {
        SensorError::SPIError(e)
    }
}

impl vstd::std_specs::convert::FromSpecImpl<SPIError> for SensorError {
    open spec fn obeys_from_spec() -> bool {
        true
    }

    open spec fn from_spec(e: SPIError) -> SensorError {
        SensorError::SPIError(e)
    }
}

pub const RED_UP: u8 = 0x01;
pub const RED_DOWN: u8 = 0x02;
pub const BLUE_UP: u8 = 0x04;
pub const BLUE_DOWN: u8 = 0x08;
pub const BROADCAST: u8 = 0x10;

/// A set of buttons of the infrared remote, one bit per button
/// (`RED_UP`, `RED_DOWN`, `BLUE_UP`, `BLUE_DOWN`, `BROADCAST`).
#[derive(Debug, Clone, Copy, PartialEq, Eq, Structural)]
pub struct RemoteButtons {
    pub bits: u8,
}

impl RemoteButtons {
    /// The set with no button.
    pub fn empty() -> (r: RemoteButtons)
        ensures
            r.bits == 0,
    {
        RemoteButtons { bits: 0 }
    }

    /// The set whose bits are `bits`.
    pub fn from_bits(bits: u8) -> (r: RemoteButtons)
        ensures
            r.bits == bits,
    {
        RemoteButtons { bits }
    }

    pub fn bits(&self) -> (r: u8)
        ensures
            r == self.bits,
    {
        self.bits
    }

    pub fn is_empty(&self) -> (r: bool)
        ensures
            r == (self.bits == 0),
    {
        self.bits == 0
    }

    /// Whether every button of `flags` is in the set.
    pub fn contains(&self, flags: u8) -> (r: bool)
        ensures
            r == (self.bits & flags == flags),
    {
        self.bits & flags == flags
    }
}

/// The buttons that a code of the remote protocol stands for (the flags
/// are distinct bits, so their sum is their union).
pub open spec fn remote_code_bits(code: u8) -> u8 {
    match code {
        1 => RED_UP,
        2 => RED_DOWN,
        3 => BLUE_UP,
        4 => BLUE_DOWN,
        5 => (RED_UP + BLUE_UP) as u8,
        6 => (RED_UP + BLUE_DOWN) as u8,
        7 => (RED_DOWN + BLUE_UP) as u8,
        8 => (RED_DOWN + BLUE_DOWN) as u8,
        9 => BROADCAST,
        10 => (RED_UP + RED_DOWN) as u8,
        11 => (BLUE_UP + BLUE_DOWN) as u8,
        _ => 0,
    }
}

/// Maps one code of the remote protocol to the buttons it stands for; a code
/// outside the table stands for no button.
pub fn remote_buttons(code: u8) -> (r: RemoteButtons)
    ensures
        r.bits == remote_code_bits(code),
{
    let bits = match code {
        1 => RED_UP,
        2 => RED_DOWN,
        3 => BLUE_UP,
        4 => BLUE_DOWN,
        5 => RED_UP + BLUE_UP,
        6 => RED_UP + BLUE_DOWN,
        7 => RED_DOWN + BLUE_UP,
        8 => RED_DOWN + BLUE_DOWN,
        9 => BROADCAST,
        10 => RED_UP + RED_DOWN,
        11 => BLUE_UP + BLUE_DOWN,
        _ => 0,
    };
    RemoteButtons { bits }
}

/// One reading of a sensor. Which variant comes back depends on the mode
/// that the port was configured for.
#[derive(Debug)]
pub enum SensorData {
    I2c,
    Custom { adc1: u16, adc6: u16, pin5: bool, pin6: bool },
    Touch { pressed: bool },
    LightReflected { brightness: u16 },
    LightAmbient { brightness: u16 },
    Color { color: i8, red: i16, green: i16, blue: i16, ambient: i16 },
    /// A distance, in micrometres.
    UltrasonicDistance { micrometers: i32 },
    UltrasonicPresence { presence: bool },
    Gyro { abs: i16, dps: i16 },
    InfraredProximity { proximity: u8 },
    InfraredSeek { distance: Vec<i8>, heading: Vec<i8> },
    InfraredRemote { remote: Vec<RemoteButtons> },
}

/// Whether a sensor configured as `conf` may report itself as `reported`:
/// the same mode, or one of the two concrete touch sensors for the generic one.
pub open spec fn type_accepted(conf: SensorType, reported: u8) -> bool {
    reported == conf.id() || (conf is Touch && (reported == SensorType::TouchNxt.id()
        || reported == SensorType::TouchEv3.id()))
}

/// The failure that a nonzero status byte stands for.
pub open spec fn status_fault(status: u8) -> SensorError {
    match status {
        1 => SensorError::NotConfigured,
        2 => SensorError::Configuring,
        3 => SensorError::NoData,
        4 => SensorError::I2cError,
        _ => SensorError::UnknownStatusReported(status),
    }
}

/// The signed 16-bit big-endian field at offsets `i` and `i + 1`.
pub open spec fn field16(p: Seq<u8>, i: int) -> i16 {
    signed16(be16(p[i], p[i + 1])) as i16
}

/// One colour channel of the full-colour mode: eight bits from byte `i`,
/// widened by the two bits of byte 7 at `shift`.
pub open spec fn color_channel(p: Seq<u8>, i: int, shift: u16) -> i16 {
    (((p[i] as u16) << 2u16) | (((p[7] as u16) >> shift) & 3u16)) as i16
}

/// A reading with only the given colour fields set.
pub open spec fn color_only(color: i8, red: i16, green: i16, blue: i16, ambient: i16) -> SensorData {
    SensorData::Color { color, red, green, blue, ambient }
}

/// Whether `d` is the reading that the payload `p` of a response carries
/// for a sensor in mode `t`. `p[0]` is the reported mode, `p[1]` the status,
/// the fields start at `p[2]`.
pub open spec fn reading(t: SensorType, p: Seq<u8>, d: SensorData) -> bool {
    match t {
        SensorType::Custom => d == SensorData::Custom {
            adc1: ((((p[4] & 0xfu8) as u16) << 8u16) | (p[5] as u16)),
            adc6: (((p[4] >> 4u8) as u16) | ((p[3] as u16) << 4u16)),
            pin5: p[2] & 1u8 != 0,
            pin6: p[2] & 2u8 != 0,
        },
        SensorType::Touch | SensorType::TouchNxt | SensorType::TouchEv3 => d
            == SensorData::Touch { pressed: p[2] != 0 },
        SensorType::NxtLightOn => d == SensorData::LightReflected {
            brightness: be16(p[2], p[3]) as u16,
        },
        SensorType::NxtLightOff => d == SensorData::LightAmbient {
            brightness: be16(p[2], p[3]) as u16,
        },
        SensorType::NxtColorRed => d == color_only(0, field16(p, 2), 0, 0, 0),
        SensorType::NxtColorGreen => d == color_only(0, 0, field16(p, 2), 0, 0),
        SensorType::NxtColorBlue => d == color_only(0, 0, 0, field16(p, 2), 0),
        SensorType::NxtColorFull => d == color_only(
            signed8(p[2]) as i8,
            color_channel(p, 3, 6),
            color_channel(p, 4, 4),
            color_channel(p, 5, 2),
            color_channel(p, 6, 0),
        ),
        SensorType::NxtColorOff => d == color_only(0, 0, 0, 0, field16(p, 2)),
        SensorType::NxtUltrasonic => d == SensorData::UltrasonicDistance {
            micrometers: (signed8(p[2]) * 10000) as i32,
        },
        SensorType::Ev3GyroAbs => d == SensorData::Gyro { abs: field16(p, 2), dps: 0 },
        SensorType::Ev3GyroDps => d == SensorData::Gyro { abs: 0, dps: field16(p, 2) },
        SensorType::Ev3GyroAbsDps => d == SensorData::Gyro {
            abs: field16(p, 2),
            dps: field16(p, 4),
        },
        SensorType::Ev3ColorReflected => d == color_only(0, signed8(p[2]) as i16, 0, 0, 0),
        SensorType::Ev3ColorAmbient => d == color_only(0, 0, 0, 0, signed8(p[2]) as i16),
        SensorType::Ev3ColorColor => d == color_only(signed8(p[2]) as i8, 0, 0, 0, 0),
        SensorType::Ev3ColorRawReflected => d == color_only(0, field16(p, 2), 0, 0, 0),
        SensorType::Ev3ColorColorComponents => d == color_only(
            0,
            field16(p, 2),
            field16(p, 4),
            field16(p, 6),
            0,
        ),
        SensorType::Ev3UltrasonicCm => d == SensorData::UltrasonicDistance {
            micrometers: (field16(p, 2) * 1000) as i32,
        },
        SensorType::Ev3UltrasonicInches => d == SensorData::UltrasonicDistance {
            micrometers: (field16(p, 2) * 2540) as i32,
        },
        SensorType::Ev3UltrasonicListen => d == SensorData::UltrasonicPresence {
            presence: p[2] != 0,
        },
        SensorType::Ev3InfraredRemote => d matches SensorData::InfraredRemote { remote }
            && remote@.len() == 4 && forall|k: int|
            0 <= k < 4 ==> #[trigger] remote@[k].bits == remote_code_bits(p[2 + k]),
        _ => false,
    }
}

/// What a response payload `p` for a sensor configured as `conf` comes to:
/// a mode mismatch first, then a nonzero status, then the decoded reading.
pub open spec fn sensor_outcome(conf: SensorType, p: Seq<u8>, r: Result<SensorData, SensorError>) -> bool {
    if !type_accepted(conf, p[0]) {
        r == Err::<SensorData, SensorError>(SensorError::TypeMismatch)
    } else if p[1] != 0 {
        r == Err::<SensorData, SensorError>(status_fault(p[1]))
    } else {
        r matches Ok(d) && reading(conf, p, d)
    }
}

/// A status byte of 3 means that the sensor has no data, whatever its mode
/// and its fields, once the mode it reports is accepted.
pub proof fn lemma_status_no_data(conf: SensorType, p: Seq<u8>, r: Result<SensorData, SensorError>)
    requires
        sensor_outcome(conf, p, r),
        type_accepted(conf, p[0]),
        p[1] == 3,
    ensures
        r == Err::<SensorData, SensorError>(SensorError::NoData),
{
}

/// A port configured for the generic touch sensor accepts a response that
/// reports either concrete touch sensor, and rejects one that reports any
/// mode other than these and its own.
pub proof fn lemma_touch_leniency(p: Seq<u8>, r: Result<SensorData, SensorError>)
    requires
        sensor_outcome(SensorType::Touch, p, r),
    ensures
        (p[0] == SensorType::TouchNxt.id() || p[0] == SensorType::TouchEv3.id()) && p[1] == 0 ==> r is Ok,
        p[0] != SensorType::Touch.id() && p[0] != SensorType::TouchNxt.id() && p[0] != SensorType::TouchEv3.id()
            ==> r == Err::<SensorData, SensorError>(SensorError::TypeMismatch),
{
}

/// The signed 16-bit big-endian field at offsets `i` and `i + 1`.
fn read_field16(p: &Vec<u8>, i: usize) -> (r: i16)
    requires
        i < 16,
        i + 1 < p@.len(),
    ensures
        r == field16(p@, i as int),
{
    i16_from_be(p[i], p[i + 1])
}

/// One colour channel of the full-colour mode.
fn read_color_channel(p: &Vec<u8>, i: usize, shift: u16) -> (r: i16)
    requires
        i < p@.len(),
        p@.len() > 7,
        shift < 16,
    ensures
        r == color_channel(p@, i as int, shift),
{
    (((p[i] as u16) << 2u16) | (((p[7] as u16) >> shift) & 3u16)) as i16
}

/// Interprets the fields of a response whose mode and status are accepted.
fn decode_fields(conf: SensorType, p: &Vec<u8>) -> (d: SensorData)
    requires
        conf.is_decoded(),
        p@.len() + 4 == conf.transfer_len(),
    ensures
        reading(conf, p@, d),
{
    match conf {
        SensorType::Custom => SensorData::Custom {
            adc1: ((((p[4] & 0xfu8) as u16) << 8u16) | (p[5] as u16)),
            adc6: (((p[4] >> 4u8) as u16) | ((p[3] as u16) << 4u16)),
            pin5: p[2] & 1u8 != 0,
            pin6: p[2] & 2u8 != 0,
        },
        SensorType::Touch | SensorType::TouchNxt | SensorType::TouchEv3 => SensorData::Touch {
            pressed: p[2] != 0,
        },
        SensorType::NxtLightOn => SensorData::LightReflected { brightness: u16_from_be(p[2], p[3]) },
        SensorType::NxtLightOff => SensorData::LightAmbient { brightness: u16_from_be(p[2], p[3]) },
        SensorType::NxtColorRed => SensorData::Color {
            color: 0,
            red: read_field16(p, 2),
            green: 0,
            blue: 0,
            ambient: 0,
        },
        SensorType::NxtColorGreen => SensorData::Color {
            color: 0,
            red: 0,
            green: read_field16(p, 2),
            blue: 0,
            ambient: 0,
        },
        SensorType::NxtColorBlue => SensorData::Color {
            color: 0,
            red: 0,
            green: 0,
            blue: read_field16(p, 2),
            ambient: 0,
        },
        SensorType::NxtColorFull => SensorData::Color {
            color: i8_from_byte(p[2]),
            red: read_color_channel(p, 3, 6),
            green: read_color_channel(p, 4, 4),
            blue: read_color_channel(p, 5, 2),
            ambient: read_color_channel(p, 6, 0),
        },
        SensorType::NxtColorOff => SensorData::Color {
            color: 0,
            red: 0,
            green: 0,
            blue: 0,
            ambient: read_field16(p, 2),
        },
        SensorType::NxtUltrasonic => SensorData::UltrasonicDistance {
            micrometers: (i8_from_byte(p[2]) as i32) * 10000,
        },
        SensorType::Ev3GyroAbs => SensorData::Gyro { abs: read_field16(p, 2), dps: 0 },
        SensorType::Ev3GyroDps => SensorData::Gyro { abs: 0, dps: read_field16(p, 2) },
        SensorType::Ev3GyroAbsDps => SensorData::Gyro {
            abs: read_field16(p, 2),
            dps: read_field16(p, 4),
        },
        SensorType::Ev3ColorReflected => SensorData::Color {
            color: 0,
            red: i8_from_byte(p[2]) as i16,
            green: 0,
            blue: 0,
            ambient: 0,
        },
        SensorType::Ev3ColorRawReflected => SensorData::Color {
            color: 0,
            red: read_field16(p, 2),
            green: 0,
            blue: 0,
            ambient: 0,
        },
        SensorType::Ev3ColorAmbient => SensorData::Color {
            color: 0,
            red: 0,
            green: 0,
            blue: 0,
            ambient: i8_from_byte(p[2]) as i16,
        },
        SensorType::Ev3ColorColor => SensorData::Color {
            color: i8_from_byte(p[2]),
            red: 0,
            green: 0,
            blue: 0,
            ambient: 0,
        },
        SensorType::Ev3ColorColorComponents => SensorData::Color {
            color: 0,
            red: read_field16(p, 2),
            green: read_field16(p, 4),
            blue: read_field16(p, 6),
            ambient: 0,
        },
        SensorType::Ev3UltrasonicCm => SensorData::UltrasonicDistance {
            micrometers: (read_field16(p, 2) as i32) * 1000,
        },
        SensorType::Ev3UltrasonicInches => SensorData::UltrasonicDistance {
            micrometers: (read_field16(p, 2) as i32) * 2540,
        },
        SensorType::Ev3UltrasonicListen => SensorData::UltrasonicPresence { presence: p[2] != 0 },
        _ => {
            let b0 = remote_buttons(p[2]);
            let b1 = remote_buttons(p[3]);
            let b2 = remote_buttons(p[4]);
            let b3 = remote_buttons(p[5]);
            let remote = vec![b0, b1, b2, b3];
            SensorData::InfraredRemote { remote }
        },
    }
}

/// Checks the reported mode and the status of a sensor response, then
/// decodes its fields. `p` is the response after the acknowledgement marker:
/// the reported mode, the status byte, then the fields.
pub fn decode_reading(conf: SensorType, p: &Vec<u8>) -> (r: Result<SensorData, SensorError>)
    requires
        conf.is_decoded(),
        p@.len() + 4 == conf.transfer_len(),
    ensures
        sensor_outcome(conf, p@, r),
{
    let reported = p[0];
    let accepted = reported == conf.id() || (conf == SensorType::Touch && (reported
        == SensorType::TouchNxt.id() || reported == SensorType::TouchEv3.id()));
    if !accepted {
        return Err(SensorError::TypeMismatch);
    }
    match p[1] {
        0 => Ok(decode_fields(conf, p)),
        1 => Err(SensorError::NotConfigured),
        2 => Err(SensorError::Configuring),
        3 => Err(SensorError::NoData),
        4 => Err(SensorError::I2cError),
        e => Err(SensorError::UnknownStatusReported(e)),
    }
}

} // verus!
