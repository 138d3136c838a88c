use vstd::prelude::*;
use crate::catalog::{GetStringCmd, GetVoltageCmd, ReadU32Cmd, SendArrayCmd, SendReadArrayCmd, WriteU8Cmd};
use crate::frame::{
    acked, build_frame, frame, read_16_request, read_32_request, read_32_response,
    send_read_array_response, zero_bytes, zeros, SPIError, BRICKPI3_ADDRESS,
};
use crate::motor::{
    decode_motor_status, dps_bytes, dps_payload, limits_bytes, limits_payload, motor_status_of,
    position_bytes, position_payload, power_bytes, power_payload, wrap32, wrapping_position,
    MotorStatus, LED_TO_FIRMWARE_CONTROL, MOTOR_FLOAT,
};
use crate::ports::{motor_port_at, sensor_port_at, MotorPort, SensorPort};
use crate::sensor::{decode_reading, sensor_outcome, SensorData, SensorError, SensorType};
use crate::wire::{be32, be_bytes16, i32_from_u32, signed32, u16_to_be};

verus! {

/// Length of the manufacturer, board name and identifier strings.
pub const NAME_LEN: usize = 20;

/// The payload that configures `port` for mode `t`: the port mask, the mode,
/// then the configuration word, big-endian, for the custom mode and zero
/// for every other mode.
pub open spec fn config_payload(port: SensorPort, t: SensorType, flags: u16) -> Seq<u8> {
    seq![port.as_bitfield(), t.id()] + if t is Custom {
        be_bytes16(flags as int)
    } else {
        seq![0u8, 0u8]
    }
}

/// Request `i` of a reset, for `i` below 4: sensor port `i` back to no mode.
pub open spec fn sensor_reset_frame(address: u8, i: int) -> Seq<u8> {
    frame(
        address,
        SendArrayCmd::SetSensorType.id(),
        config_payload(sensor_port_at(i), SensorType::NoSensor, 0),
    )
}

/// Step `step` of the reset of motor `j`: let it float, lift its limits,
/// and hand the LED back to the firmware.
pub open spec fn motor_reset_frame(address: u8, j: int, step: int) -> Seq<u8> {
    if step == 0 {
        frame(address, SendArrayCmd::SetMotorPower.id(), power_payload(motor_port_at(j), MOTOR_FLOAT))
    } else if step == 1 {
        frame(address, SendArrayCmd::SetMotorLimits.id(), limits_payload(motor_port_at(j), 0, 0))
    } else {
        frame(address, WriteU8Cmd::SetLed.id(), seq![LED_TO_FIRMWARE_CONTROL])
    }
}

/// The protocol state of one board: its address and the mode each sensor
/// port was configured for. Every operation is a request built here, one
/// exchange made by the caller, and the response decoded here.
pub struct Board {
    address: u8,
    sensor_type: [SensorType; 4],
}

impl Board {
    pub closed spec fn spec_address(&self) -> u8 {
        self.address
    }

    /// The mode that `port` was last configured for.
    pub closed spec fn configured(&self, port: SensorPort) -> SensorType {
        self.sensor_type@[port.spec_index() as int]
    }

    /// A board at the default address with no sensor port configured.
    pub fn new() -> (r: Board)
        ensures
            r.spec_address() == BRICKPI3_ADDRESS,
            forall|p: SensorPort| #[trigger] r.configured(p) == SensorType::NoSensor,
    {
        Board {
            address: BRICKPI3_ADDRESS,
            sensor_type: [
                SensorType::NoSensor,
                SensorType::NoSensor,
                SensorType::NoSensor,
                SensorType::NoSensor,
            ],
        }
    }

    pub fn address(&self) -> (r: u8)
        ensures
            r == self.spec_address(),
    {
        self.address
    }

    /// The mode that `port` was last configured for.
    pub fn sensor_type(&self, port: SensorPort) -> (r: SensorType)
        ensures
            r == self.configured(port),
    {
        self.sensor_type[port.index()]
    }

    /// A request that carries `payload` and expects no answer.
    fn send_array(&self, cmd: SendArrayCmd, payload: &Vec<u8>) -> (r: Vec<u8>)
        requires
            payload@.len() <= 8,
        ensures
            r@ == frame(self.spec_address(), cmd.id(), payload@),
    {
        build_frame(self.address, cmd.id(), payload)
    }

    /// Configures `port` for mode `t` and returns the request that tells the
    /// board. The pass-through mode is not supported and is refused, with
    /// nothing changed.
    pub fn set_sensor_type(&mut self, port: SensorPort, t: SensorType, flags: u16) -> (r: Result<Vec<u8>, SensorError>)
        ensures
            t is I2c ==> r == Err::<Vec<u8>, SensorError>(SensorError::NotImplemented) && *final(self) == *old(self),
            !(t is I2c) ==> (r matches Ok(f) && f@ == frame(
                old(self).spec_address(),
                SendArrayCmd::SetSensorType.id(),
                config_payload(port, t, flags),
            )),
            !(t is I2c) ==> final(self).configured(port) == t,
            forall|q: SensorPort| q != port ==> #[trigger] final(self).configured(q) == old(self).configured(q),
            final(self).spec_address() == old(self).spec_address(),
    {
        if t == SensorType::I2c {
            return Err(SensorError::NotImplemented);
        }
        self.sensor_type.set(port.index(), t);
        let payload = if t == SensorType::Custom {
            let mut p = vec![port.as_bitfield(), t.id()];
            let mut word = u16_to_be(flags);
            p.append(&mut word);
            p
        } else {
            vec![port.as_bitfield(), t.id(), 0u8, 0u8]
        };
        Ok(self.send_array(SendArrayCmd::SetSensorType, &payload))
    }

    /// The request that reads the sensor on `port`: a zero payload two
    /// bytes shorter than the exchange its mode takes. A port with no mode,
    /// or with a mode this library does not decode, is refused.
    pub fn read_sensor_request(&self, port: SensorPort) -> (r: Result<Vec<u8>, SensorError>)
        ensures
            self.configured(port) is NoSensor ==> r == Err::<Vec<u8>, SensorError>(SensorError::NotConfigured),
            !(self.configured(port) is NoSensor) && !self.configured(port).is_decoded()
                ==> r == Err::<Vec<u8>, SensorError>(SensorError::NotImplemented),
            self.configured(port).is_decoded() ==> (r matches Ok(f) && f@ == frame(
                self.spec_address(),
                (13 + port.index()) as u8,
                zeros((self.configured(port).transfer_len() - 2) as nat),
            )),
    {
        let conf = self.sensor_type[port.index()];
        if conf == SensorType::NoSensor {
            return Err(SensorError::NotConfigured);
        }
        if !conf.is_decoded() {
            return Err(SensorError::NotImplemented);
        }
        let payload = zero_bytes(conf.transfer_len() - 2);
        Ok(build_frame(self.address, SendReadArrayCmd::for_sensor(port).id(), &payload))
    }

    /// Decodes the response to `read_sensor_request`: the acknowledgement
    /// marker first, then the reported mode, the status and the fields.
    pub fn read_sensor_response(&self, port: SensorPort, rx: &Vec<u8>) -> (r: Result<SensorData, SensorError>)
        requires
            self.configured(port).is_decoded(),
            rx@.len() == self.configured(port).transfer_len(),
        ensures
            !acked(rx@) ==> r matches Err(SensorError::SPIError(SPIError::BadResponse)),
            acked(rx@) ==> sensor_outcome(self.configured(port), rx@.subrange(4, rx@.len() as int), r),
    {
        let conf = self.sensor_type[port.index()];
        match send_read_array_response(rx) {
            Err(e) => Err(SensorError::SPIError(e)),
            Ok(p) => decode_reading(conf, &p),
        }
    }

    /// The request that sets the LED.
    pub fn set_led_request(&self, value: u8) -> (r: Vec<u8>)
        ensures
            r@ == frame(self.spec_address(), WriteU8Cmd::SetLed.id(), seq![value]),
    {
        let v = vec![value];
        build_frame(self.address, WriteU8Cmd::SetLed.id(), &v)
    }

    /// The request that reads one supply rail; the answer is in millivolts.
    pub fn voltage_request(&self, rail: GetVoltageCmd) -> (r: Vec<u8>)
        ensures
            r@ == frame(self.spec_address(), rail.id(), zeros(4)),
    {
        read_16_request(self.address, rail)
    }

    /// The request that reads the firmware version.
    pub fn firmware_request(&self) -> (r: Vec<u8>)
        ensures
            r@ == frame(self.spec_address(), ReadU32Cmd::GetFirmwareVersion.id(), zeros(6)),
    {
        read_32_request(self.address, ReadU32Cmd::GetFirmwareVersion)
    }

    /// The request for one of the board's strings, `NAME_LEN` bytes long.
    pub fn string_request(&self, cmd: GetStringCmd) -> (r: Vec<u8>)
        ensures
            r@ == frame(self.spec_address(), cmd.id(), zeros((NAME_LEN + 2) as nat)),
    {
        let z = zero_bytes(NAME_LEN + 2);
        build_frame(self.address, cmd.id(), &z)
    }

    pub fn set_motor_power_request(&self, port: MotorPort, power: i8) -> (r: Vec<u8>)
        ensures
            r@ == frame(self.spec_address(), SendArrayCmd::SetMotorPower.id(), power_payload(port, power)),
    {
        self.send_array(SendArrayCmd::SetMotorPower, &power_bytes(port, power))
    }

    pub fn set_motor_position_request(&self, port: MotorPort, pos: i32) -> (r: Vec<u8>)
        ensures
            r@ == frame(self.spec_address(), SendArrayCmd::SetMotorPosition.id(), position_payload(port, pos)),
    {
        self.send_array(SendArrayCmd::SetMotorPosition, &position_bytes(port, pos))
    }

    /// The request that moves a motor by `delta` from the encoder value
    /// `current` that was just read; the target wraps around as `i32` does.
    pub fn set_motor_position_relative_request(&self, port: MotorPort, current: i32, delta: i32) -> (r: Vec<u8>)
        ensures
            r@ == frame(
                self.spec_address(),
                SendArrayCmd::SetMotorPosition.id(),
                position_payload(port, wrap32(current + delta) as i32),
            ),
    {
        self.set_motor_position_request(port, wrapping_position(current, delta))
    }

    pub fn set_motor_dps_request(&self, port: MotorPort, dps: i16) -> (r: Vec<u8>)
        ensures
            r@ == frame(self.spec_address(), SendArrayCmd::SetMotorDps.id(), dps_payload(port, dps)),
    {
        self.send_array(SendArrayCmd::SetMotorDps, &dps_bytes(port, dps))
    }

    pub fn set_motor_limits_request(&self, port: MotorPort, power: u8, dps: u16) -> (r: Vec<u8>)
        ensures
            r@ == frame(self.spec_address(), SendArrayCmd::SetMotorLimits.id(), limits_payload(port, power, dps)),
    {
        self.send_array(SendArrayCmd::SetMotorLimits, &limits_bytes(port, power, dps))
    }

    /// The request that shifts a motor's encoder so that `position` reads as zero.
    pub fn offset_motor_encoder_request(&self, port: MotorPort, position: i32) -> (r: Vec<u8>)
        ensures
            r@ == frame(self.spec_address(), SendArrayCmd::OffsetMotorEncoder.id(), position_payload(port, position)),
    {
        self.send_array(SendArrayCmd::OffsetMotorEncoder, &position_bytes(port, position))
    }

    pub fn read_motor_encoder_request(&self, port: MotorPort) -> (r: Vec<u8>)
        ensures
            r@ == frame(self.spec_address(), (30 + port.index()) as u8, zeros(6)),
    {
        read_32_request(self.address, ReadU32Cmd::encoder(port))
    }

    /// The request for a motor's status: a ten-byte zero payload.
    pub fn read_motor_status_request(&self, port: MotorPort) -> (r: Vec<u8>)
        ensures
            r@ == frame(self.spec_address(), (34 + port.index()) as u8, zeros(10)),
    {
        let z = zero_bytes(10);
        build_frame(self.address, SendReadArrayCmd::for_motor(port).id(), &z)
    }
}

/// Decodes the answer to an encoder request: the 32-bit value read as signed.
pub fn read_motor_encoder_response(rx: &Vec<u8>) -> (r: Result<i32, SPIError>)
    requires
        rx@.len() == 8,
    ensures
        acked(rx@) <==> r is Ok,
        !acked(rx@) ==> r matches Err(SPIError::BadResponse),
        r matches Ok(v) ==> v == signed32(be32(rx@[4], rx@[5], rx@[6], rx@[7])),
{
    match read_32_response(rx) {
        Ok(u) => Ok(i32_from_u32(u)),
        Err(e) => Err(e),
    }
}

/// Decodes the answer to a motor status request.
pub fn read_motor_status_response(rx: &Vec<u8>) -> (r: Result<MotorStatus, SPIError>)
    requires
        rx@.len() == 12,
    ensures
        acked(rx@) <==> r is Ok,
        !acked(rx@) ==> r matches Err(SPIError::BadResponse),
        r matches Ok(s) ==> s == motor_status_of(rx@.subrange(4, 12)),
{
    match send_read_array_response(rx) {
        Ok(p) => Ok(decode_motor_status(&p)),
        Err(e) => Err(e),
    }
}

} // verus!
