//! A simple Modbus engine component.
//!
//! This engine implements coils and registers for use in a multi-threaded environment. It is meant
//! to provide part of a larger application system, such as a Modbus TCP server or similar.
//! Commands arrive over an mpsc channel; each command is answered on the reply channel that
//! travels with it, following the Modbus protocol (writes are echoed, reads return values,
//! refused requests are answered with a Modbus exception).

pub mod channel;
pub mod laws;
pub mod mbcore;
pub mod mbtypes;

pub use mbcore::{MbCore, MbState, ServeOutcome, MAX_COIL, MAX_REG, NUM_COILS, NUM_REGS};
pub use mbtypes::{
    MbAddress, MbByteCount, MbExtent, MbFuncError, MbFuncResult, MbMessage, MbMessageCmd,
    MbMessageReply, MbPacket, MbQuantity, MbValue, ModbusException, ModbusProtoExcepCode,
};
