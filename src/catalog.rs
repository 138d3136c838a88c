use vstd::prelude::*;
use crate::ports::{MotorPort, SensorPort};

verus! {

/// Commands answered with a fixed-length byte string.
#[derive(Debug, Clone, Copy, PartialEq, Eq, Structural)]
pub enum GetStringCmd {
    GetManufacturer,
    GetName,
    GetId,
}

/// Commands answered with a version number.
#[derive(Debug, Clone, Copy, PartialEq, Eq, Structural)]
pub enum GetVersionCmd {
    GetHardwareVersion,
    GetFirmwareVersion,
}

/// Commands answered with the voltage of one supply rail, in millivolts.
#[derive(Debug, Clone, Copy, PartialEq, Eq, Structural)]
pub enum GetVoltageCmd {
    Volt3v3,
    Volt5v,
    Volt9v,
    VoltBattery,
}

/// Commands that carry a single byte and expect no answer.
#[derive(Debug, Clone, Copy, PartialEq, Eq, Structural)]
pub enum WriteU8Cmd {
    SetLed,
}

/// Commands that carry a byte array and expect no answer.
#[derive(Debug, Clone, Copy, PartialEq, Eq, Structural)]
pub enum SendArrayCmd {
    SetSensorType,
    SetMotorPower,
    SetMotorPosition,
    SetMotorDps,
    SetMotorLimits,
    OffsetMotorEncoder,
}

/// Commands that carry a byte array and are answered in the same exchange.
#[derive(Debug, Clone, Copy, PartialEq, Eq, Structural)]
pub enum SendReadArrayCmd {
    GetSensor1,
    GetSensor2,
    GetSensor3,
    GetSensor4,
    GetMotorAStatus,
    GetMotorBStatus,
    GetMotorCStatus,
    GetMotorDStatus,
}

/// Commands answered with a 32-bit big-endian integer.
#[derive(Debug, Clone, Copy, PartialEq, Eq, Structural)]
pub enum ReadU32Cmd {
    GetFirmwareVersion,
    GetMotorAEncoder,
    GetMotorBEncoder,
    GetMotorCEncoder,
    GetMotorDEncoder,
}

impl GetStringCmd {
    pub open spec fn spec_id(self) -> u8 {
        match self {
            GetStringCmd::GetManufacturer => 1,
            GetStringCmd::GetName => 2,
            GetStringCmd::GetId => 5,
        }
    }

    /// The command's identifier on the wire.
    #[verifier::when_used_as_spec(spec_id)]
    pub fn id(self) -> (r: u8)
        ensures
            r == self.spec_id(),
    {
        match self {
            GetStringCmd::GetManufacturer => 1,
            GetStringCmd::GetName => 2,
            GetStringCmd::GetId => 5,
        }
    }
}

impl GetVersionCmd {
    pub open spec fn spec_id(self) -> u8 {
        match self {
            GetVersionCmd::GetHardwareVersion => 3,
            GetVersionCmd::GetFirmwareVersion => 4,
        }
    }

    /// The command's identifier on the wire.
    #[verifier::when_used_as_spec(spec_id)]
    pub fn id(self) -> (r: u8)
        ensures
            r == self.spec_id(),
    {
        match self {
            GetVersionCmd::GetHardwareVersion => 3,
            GetVersionCmd::GetFirmwareVersion => 4,
        }
    }
}

impl GetVoltageCmd {
    pub open spec fn spec_id(self) -> u8 {
        match self {
            GetVoltageCmd::Volt3v3 => 7,
            GetVoltageCmd::Volt5v => 8,
            GetVoltageCmd::Volt9v => 9,
            GetVoltageCmd::VoltBattery => 10,
        }
    }

    /// The command's identifier on the wire.
    #[verifier::when_used_as_spec(spec_id)]
    pub fn id(self) -> (r: u8)
        ensures
            r == self.spec_id(),
    {
        match self {
            GetVoltageCmd::Volt3v3 => 7,
            GetVoltageCmd::Volt5v => 8,
            GetVoltageCmd::Volt9v => 9,
            GetVoltageCmd::VoltBattery => 10,
        }
    }
}

impl WriteU8Cmd {
    pub open spec fn spec_id(self) -> u8 {
        match self {
            WriteU8Cmd::SetLed => 6,
        }
    }

    /// The command's identifier on the wire.
    #[verifier::when_used_as_spec(spec_id)]
    pub fn id(self) -> (r: u8)
        ensures
            r == self.spec_id(),
    {
        match self {
            WriteU8Cmd::SetLed => 6,
        }
    }
}

impl SendArrayCmd {
    pub open spec fn spec_id(self) -> u8 {
        match self {
            SendArrayCmd::SetSensorType => 12,
            SendArrayCmd::SetMotorPower => 21,
            SendArrayCmd::SetMotorPosition => 22,
            SendArrayCmd::SetMotorDps => 25,
            SendArrayCmd::SetMotorLimits => 28,
            SendArrayCmd::OffsetMotorEncoder => 29,
        }
    }

    /// The command's identifier on the wire.
    #[verifier::when_used_as_spec(spec_id)]
    pub fn id(self) -> (r: u8)
        ensures
            r == self.spec_id(),
    {
        match self {
            SendArrayCmd::SetSensorType => 12,
            SendArrayCmd::SetMotorPower => 21,
            SendArrayCmd::SetMotorPosition => 22,
            SendArrayCmd::SetMotorDps => 25,
            SendArrayCmd::SetMotorLimits => 28,
            SendArrayCmd::OffsetMotorEncoder => 29,
        }
    }
}

impl SendReadArrayCmd {
    pub open spec fn spec_id(self) -> u8 {
        match self {
            SendReadArrayCmd::GetSensor1 => 13,
            SendReadArrayCmd::GetSensor2 => 14,
            SendReadArrayCmd::GetSensor3 => 15,
            SendReadArrayCmd::GetSensor4 => 16,
            SendReadArrayCmd::GetMotorAStatus => 34,
            SendReadArrayCmd::GetMotorBStatus => 35,
            SendReadArrayCmd::GetMotorCStatus => 36,
            SendReadArrayCmd::GetMotorDStatus => 37,
        }
    }

    /// The command's identifier on the wire.
    #[verifier::when_used_as_spec(spec_id)]
    pub fn id(self) -> (r: u8)
        ensures
            r == self.spec_id(),
    {
        match self {
            SendReadArrayCmd::GetSensor1 => 13,
            SendReadArrayCmd::GetSensor2 => 14,
            SendReadArrayCmd::GetSensor3 => 15,
            SendReadArrayCmd::GetSensor4 => 16,
            SendReadArrayCmd::GetMotorAStatus => 34,
            SendReadArrayCmd::GetMotorBStatus => 35,
            SendReadArrayCmd::GetMotorCStatus => 36,
            SendReadArrayCmd::GetMotorDStatus => 37,
        }
    }

    /// The command that reads the sensor on `port`.
    pub fn for_sensor(port: SensorPort) -> (r: SendReadArrayCmd)
        ensures
            r.id() == 13 + port.index(),
    {
        match port {
            SensorPort::Port1 => SendReadArrayCmd::GetSensor1,
            SensorPort::Port2 => SendReadArrayCmd::GetSensor2,
            SensorPort::Port3 => SendReadArrayCmd::GetSensor3,
            SensorPort::Port4 => SendReadArrayCmd::GetSensor4,
        }
    }

    /// The command that reads the status of the motor on `port`.
    pub fn for_motor(port: MotorPort) -> (r: SendReadArrayCmd)
        ensures
            r.id() == 34 + port.index(),
    {
        match port {
            MotorPort::PortA => SendReadArrayCmd::GetMotorAStatus,
            MotorPort::PortB => SendReadArrayCmd::GetMotorBStatus,
            MotorPort::PortC => SendReadArrayCmd::GetMotorCStatus,
            MotorPort::PortD => SendReadArrayCmd::GetMotorDStatus,
        }
    }
}

impl ReadU32Cmd {
    pub open spec fn spec_id(self) -> u8 {
        match self {
            ReadU32Cmd::GetFirmwareVersion => 4,
            ReadU32Cmd::GetMotorAEncoder => 30,
            ReadU32Cmd::GetMotorBEncoder => 31,
            ReadU32Cmd::GetMotorCEncoder => 32,
            ReadU32Cmd::GetMotorDEncoder => 33,
        }
    }

    /// The command's identifier on the wire.
    #[verifier::when_used_as_spec(spec_id)]
    pub fn id(self) -> (r: u8)
        ensures
            r == self.spec_id(),
    {
        match self {
            ReadU32Cmd::GetFirmwareVersion => 4,
            ReadU32Cmd::GetMotorAEncoder => 30,
            ReadU32Cmd::GetMotorBEncoder => 31,
            ReadU32Cmd::GetMotorCEncoder => 32,
            ReadU32Cmd::GetMotorDEncoder => 33,
        }
    }

    /// The command that reads the encoder of the motor on `port`.
    pub fn encoder(port: MotorPort) -> (r: ReadU32Cmd)
        ensures
            r.id() == 30 + port.index(),
    {
        match port {
            MotorPort::PortA => ReadU32Cmd::GetMotorAEncoder,
            MotorPort::PortB => ReadU32Cmd::GetMotorBEncoder,
            MotorPort::PortC => ReadU32Cmd::GetMotorCEncoder,
            MotorPort::PortD => ReadU32Cmd::GetMotorDEncoder,
        }
    }
}

} // verus!
