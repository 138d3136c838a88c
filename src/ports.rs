use vstd::prelude::*;

verus! {

/// One of the four sensor ports of the board.
#[derive(Debug, Clone, Copy, PartialEq, Eq, Structural)]
pub enum SensorPort {
    Port1,
    Port2,
    Port3,
    Port4,
}

/// One of the four motor ports of the board.
#[derive(Debug, Clone, Copy, PartialEq, Eq, Structural)]
pub enum MotorPort {
    PortA,
    PortB,
    PortC,
    PortD,
}

impl SensorPort {
    /// Position of the port, 0 for `Port1` up to 3 for `Port4`.
    pub open spec fn spec_index(self) -> usize {
        match self {
            SensorPort::Port1 => 0,
            SensorPort::Port2 => 1,
            SensorPort::Port3 => 2,
            SensorPort::Port4 => 3,
        }
    }

    /// The single-bit mask that identifies this port in per-port commands:
    /// the bit whose position is the port's index.
    pub open spec fn spec_bitfield(self) -> u8 {
        match self {
            SensorPort::Port1 => 1,
            SensorPort::Port2 => 2,
            SensorPort::Port3 => 4,
            SensorPort::Port4 => 8,
        }
    }

    #[verifier::when_used_as_spec(spec_index)]
    pub fn index(self) -> (r: usize)
        ensures
            r == self.spec_index(),
            r < 4,
    {
        match self {
            SensorPort::Port1 => 0,
            SensorPort::Port2 => 1,
            SensorPort::Port3 => 2,
            SensorPort::Port4 => 3,
        }
    }

    #[verifier::when_used_as_spec(spec_bitfield)]
    pub fn as_bitfield(self) -> (r: u8)
        ensures
            r == self.spec_bitfield(),
    {
        match self {
            SensorPort::Port1 => 1,
            SensorPort::Port2 => 2,
            SensorPort::Port3 => 4,
            SensorPort::Port4 => 8,
        }
    }

    /// The port at position `i`.
    pub fn from_index(i: usize) -> (r: Self)
        requires
            i < 4,
        ensures
            r == sensor_port_at(i as int),
            r.index() == i,
    {
        if i == 0 {
            SensorPort::Port1
        } else if i == 1 {
            SensorPort::Port2
        } else if i == 2 {
            SensorPort::Port3
        } else {
            SensorPort::Port4
        }
    }
}

/// The sensor port at position `i`, for `i` from 0 to 3.
pub open spec fn sensor_port_at(i: int) -> SensorPort {
    if i == 0 {
        SensorPort::Port1
    } else if i == 1 {
        SensorPort::Port2
    } else if i == 2 {
        SensorPort::Port3
    } else {
        SensorPort::Port4
    }
}

/// The motor port at position `i`, for `i` from 0 to 3.
pub open spec fn motor_port_at(i: int) -> MotorPort {
    if i == 0 {
        MotorPort::PortA
    } else if i == 1 {
        MotorPort::PortB
    } else if i == 2 {
        MotorPort::PortC
    } else {
        MotorPort::PortD
    }
}

impl MotorPort {
    /// Position of the port, 0 for `PortA` up to 3 for `PortD`.
    pub open spec fn spec_index(self) -> usize {
        match self {
            MotorPort::PortA => 0,
            MotorPort::PortB => 1,
            MotorPort::PortC => 2,
            MotorPort::PortD => 3,
        }
    }

    /// The single-bit mask that identifies this port in per-port commands:
    /// the bit whose position is the port's index.
    pub open spec fn spec_bitfield(self) -> u8 {
        match self {
            MotorPort::PortA => 1,
            MotorPort::PortB => 2,
            MotorPort::PortC => 4,
            MotorPort::PortD => 8,
        }
    }

    #[verifier::when_used_as_spec(spec_index)]
    pub fn index(self) -> (r: usize)
        ensures
            r == self.spec_index(),
            r < 4,
    {
        match self {
            MotorPort::PortA => 0,
            MotorPort::PortB => 1,
            MotorPort::PortC => 2,
            MotorPort::PortD => 3,
        }
    }

    #[verifier::when_used_as_spec(spec_bitfield)]
    pub fn as_bitfield(self) -> (r: u8)
        ensures
            r == self.spec_bitfield(),
    {
        match self {
            MotorPort::PortA => 1,
            MotorPort::PortB => 2,
            MotorPort::PortC => 4,
            MotorPort::PortD => 8,
        }
    }

    /// The port at position `i`.
    pub fn from_index(i: usize) -> (r: Self)
        requires
            i < 4,
        ensures
            r == motor_port_at(i as int),
            r.index() == i,
    {
        if i == 0 {
            MotorPort::PortA
        } else if i == 1 {
            MotorPort::PortB
        } else if i == 2 {
            MotorPort::PortC
        } else {
            MotorPort::PortD
        }
    }
}

} // verus!
