//! Protocol engine for the BrickPi3 motor and sensor expansion board.
//!
//! The library builds the request frames that go over the SPI bus,
//! validates the board's responses and decodes their payloads into typed
//! readings. Performing the exchange itself is left to the caller: every
//! operation is split into a pure request builder and a pure response
//! decoder, so that the whole protocol can be checked without hardware.
pub mod catalog;
pub mod device;
pub mod frame;
pub mod ident;
pub mod motor;
pub mod ports;
pub mod reset;
pub mod sensor;
pub mod wire;

pub use catalog::{
    GetStringCmd, GetVersionCmd, GetVoltageCmd, ReadU32Cmd, SendArrayCmd, SendReadArrayCmd,
    WriteU8Cmd,
};
pub use device::{read_motor_encoder_response, read_motor_status_response, Board, NAME_LEN};
pub use frame::{SPIError, ACK, BRICKPI3_ADDRESS, LONGEST_SPI_TRANSFER};
pub use ident::{version_as_String, Ident};
pub use motor::{MotorStatus, LED_TO_FIRMWARE_CONTROL, MOTOR_FLOAT};
pub use ports::{MotorPort, SensorPort};
pub use reset::{ResetAll, RESET_STEPS};
pub use sensor::{
    decode_reading, remote_buttons, RemoteButtons, SensorConfigFlags, SensorData, SensorError,
    SensorType, BLUE_DOWN, BLUE_UP, BROADCAST, RED_DOWN, RED_UP,
};
