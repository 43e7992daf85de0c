//! The value, command and reply types of the Modbus engine, with their
//! mathematical views.
use std::sync::mpsc::Sender;
use vstd::prelude::*;

verus! {

/// Represents an address (coil or register)
pub type MbAddress = u16;

/// Represents a quantity of coils or registers
pub type MbQuantity = u16;

/// Represents a quantity of bytes
pub type MbByteCount = u16;

/// Represents a Modbus value, one of single or multiple coils or registers
#[derive(Debug, Clone, PartialEq)]
pub enum MbValue {
    /// A single coil (bit)
    SingleCoil(bool),
    /// A Vec of coils (bits)
    MultiCoil(Vec<bool>),
    /// A single register
    SingleReg(u16),
    /// A Vec of registers
    MultiReg(Vec<u16>),
}

/// The mathematical view of an [`MbValue`]: the vectors become sequences.
pub enum MbValueView {
    SingleCoil(bool),
    MultiCoil(Seq<bool>),
    SingleReg(u16),
    MultiReg(Seq<u16>),
}

impl View for MbValue {
    type V = MbValueView;

    open spec fn view(&self) -> MbValueView {
        match self {
            MbValue::SingleCoil(b) => MbValueView::SingleCoil(*b),
            MbValue::MultiCoil(v) => MbValueView::MultiCoil(v@),
            MbValue::SingleReg(r) => MbValueView::SingleReg(*r),
            MbValue::MultiReg(v) => MbValueView::MultiReg(v@),
        }
    }
}

/// Represents a range of registers or coils, starting at addr.
/// Does not contain the values themselves.
#[derive(Debug, Clone, Copy, PartialEq, Eq, Structural)]
pub struct MbExtent {
    /// Address of the start of the extent
    pub addr: MbAddress,
    /// The number of registers or coils in the extent
    pub quantity: MbQuantity,
}

/// Represents a value, coming from or destined for addr.
#[derive(Debug, Clone, PartialEq)]
pub struct MbPacket {
    /// Address of the register or coil: i.e., where the value
    /// is coming from or going to.
    pub addr: MbAddress,
    /// Value of the register or coil
    pub value: MbValue,
}

/// The mathematical view of an [`MbPacket`].
pub struct MbPacketView {
    pub addr: MbAddress,
    pub value: MbValueView,
}

impl View for MbPacket {
    type V = MbPacketView;

    open spec fn view(&self) -> MbPacketView {
        MbPacketView { addr: self.addr, value: self.value@ }
    }
}

/// Messages that may be sent over the command channel
pub enum MbMessageCmd {
    /// Read holding registers (Modbus function 0x03)
    ReadHoldingRegs(MbExtent),
    /// Read coils (Modbus function 0x01)
    ReadCoils(MbExtent),
    /// Write a single holding register (Modbus function 0x06)
    WriteSingleHoldingReg(MbPacket),
    /// Write a single coil (Modbus function 0x05)
    WriteSingleCoil(MbPacket),
    /// Write a block of holding registers (Modbus function 0x10)
    WriteMultipleHoldingRegs(MbPacket),
    /// Write a block of coils (Modbus function 0x0f)
    WriteMultipleCoils(MbPacket),
    /// Request shutdown of the Modbus Process
    Shutdown,
}

/// The mathematical view of an [`MbMessageCmd`].
pub enum MbMessageCmdView {
    ReadHoldingRegs(MbExtent),
    ReadCoils(MbExtent),
    WriteSingleHoldingReg(MbPacketView),
    WriteSingleCoil(MbPacketView),
    WriteMultipleHoldingRegs(MbPacketView),
    WriteMultipleCoils(MbPacketView),
    Shutdown,
}

impl View for MbMessageCmd {
    type V = MbMessageCmdView;

    open spec fn view(&self) -> MbMessageCmdView {
        match self {
            MbMessageCmd::ReadHoldingRegs(e) => MbMessageCmdView::ReadHoldingRegs(*e),
            MbMessageCmd::ReadCoils(e) => MbMessageCmdView::ReadCoils(*e),
            MbMessageCmd::WriteSingleHoldingReg(p) => MbMessageCmdView::WriteSingleHoldingReg(p@),
            MbMessageCmd::WriteSingleCoil(p) => MbMessageCmdView::WriteSingleCoil(p@),
            MbMessageCmd::WriteMultipleHoldingRegs(p) => MbMessageCmdView::WriteMultipleHoldingRegs(p@),
            MbMessageCmd::WriteMultipleCoils(p) => MbMessageCmdView::WriteMultipleCoils(p@),
            MbMessageCmd::Shutdown => MbMessageCmdView::Shutdown,
        }
    }
}

/// The Modbus function code of a command, as the protocol numbers it
/// (shutdown is no Modbus function and has none).
pub open spec fn function_code(cmd: MbMessageCmdView) -> Option<u8> {
    match cmd {
        MbMessageCmdView::ReadHoldingRegs(_) => Some(0x03u8),
        MbMessageCmdView::ReadCoils(_) => Some(0x01u8),
        MbMessageCmdView::WriteSingleHoldingReg(_) => Some(0x06u8),
        MbMessageCmdView::WriteSingleCoil(_) => Some(0x05u8),
        MbMessageCmdView::WriteMultipleHoldingRegs(_) => Some(0x10u8),
        MbMessageCmdView::WriteMultipleCoils(_) => Some(0x0fu8),
        MbMessageCmdView::Shutdown => None,
    }
}

/// Messages that may be sent over the reply channel
#[derive(Debug, PartialEq)]
pub enum MbMessageReply {
    /// The functionality requested is not implemented
    NotImplemented,
    /// An internal error occurred
    InternalError(MbFuncError),
    /// A Reply to a ReadCoils cmd
    ReadCoils(MbPacket),
    /// A Reply to a WriteSingleCoil cmd
    WriteSingleCoil(MbPacket),
    /// A Reply to a WriteSingleHoldingReg cmd
    WriteSingleHoldingReg(MbPacket),
    /// A reply to a ReadHoldingRegs cmd
    ReadHoldingRegs(MbPacket),
    /// A reply to a WriteMultipleHoldingRegs cmd
    WriteMultipleHoldingRegs(MbExtent),
    /// A reply to a WriteMultipleCoils cmd
    WriteMultipleCoils(MbExtent),
    /// A Modbus exception occurred
    ModbusException(ModbusException),
}

/// The mathematical view of an [`MbMessageReply`].
pub enum MbMessageReplyView {
    NotImplemented,
    InternalError(MbFuncError),
    ReadCoils(MbPacketView),
    WriteSingleCoil(MbPacketView),
    WriteSingleHoldingReg(MbPacketView),
    ReadHoldingRegs(MbPacketView),
    WriteMultipleHoldingRegs(MbExtent),
    WriteMultipleCoils(MbExtent),
    ModbusException(ModbusException),
}

impl View for MbMessageReply {
    type V = MbMessageReplyView;

    open spec fn view(&self) -> MbMessageReplyView {
        match self {
            MbMessageReply::NotImplemented => MbMessageReplyView::NotImplemented,
            MbMessageReply::InternalError(e) => MbMessageReplyView::InternalError(*e),
            MbMessageReply::ReadCoils(p) => MbMessageReplyView::ReadCoils(p@),
            MbMessageReply::WriteSingleCoil(p) => MbMessageReplyView::WriteSingleCoil(p@),
            MbMessageReply::WriteSingleHoldingReg(p) => MbMessageReplyView::WriteSingleHoldingReg(p@),
            MbMessageReply::ReadHoldingRegs(p) => MbMessageReplyView::ReadHoldingRegs(p@),
            MbMessageReply::WriteMultipleHoldingRegs(e) => MbMessageReplyView::WriteMultipleHoldingRegs(*e),
            MbMessageReply::WriteMultipleCoils(e) => MbMessageReplyView::WriteMultipleCoils(*e),
            MbMessageReply::ModbusException(x) => MbMessageReplyView::ModbusException(*x),
        }
    }
}

/// A message with an optional return channel
pub struct MbMessage {
    /// The command component of the message
    pub cmd: MbMessageCmd,
    /// The return mpsc channel for any replies
    pub reply_tx: Option<Sender<MbMessageReply>>,
}

/// Represents possible Modbus protocol exception codes, following the Modbus specification
#[derive(Debug, Clone, Copy, PartialEq, Eq, Structural)]
pub enum ModbusProtoExcepCode {
    /// Illegal function call (0x01)
    IllegalFunction,
    /// Illegal data address (0x02)
    IllegalDataAddress,
    /// Illegal data value (0x03)
    IllegalDataValue,
    /// Server device failure (0x04)
    ServerDeviceFailure,
    /// Acknowledge (0x05)
    Acknowledge,
    /// Server device busy (0x06)
    ServerDeviceBusy,
    /// Memory Parity Error (0x08)
    MemoryParityError,
    /// Gateway path unavailable (0x0a)
    GatewayPathUnavailable,
    /// Gateway target device not responding (0x0b)
    GatewayTargetDeviceNotResponding,
}

impl ModbusProtoExcepCode {
    /// The number that the Modbus specification gives this exception code.
    pub open spec fn spec_code(self) -> u8 {
        match self {
            ModbusProtoExcepCode::IllegalFunction => 0x01u8,
            ModbusProtoExcepCode::IllegalDataAddress => 0x02u8,
            ModbusProtoExcepCode::IllegalDataValue => 0x03u8,
            ModbusProtoExcepCode::ServerDeviceFailure => 0x04u8,
            ModbusProtoExcepCode::Acknowledge => 0x05u8,
            ModbusProtoExcepCode::ServerDeviceBusy => 0x06u8,
            ModbusProtoExcepCode::MemoryParityError => 0x08u8,
            ModbusProtoExcepCode::GatewayPathUnavailable => 0x0au8,
            ModbusProtoExcepCode::GatewayTargetDeviceNotResponding => 0x0bu8,
        }
    }

    /// The number that the Modbus specification gives this exception code.
    pub fn code(&self) -> (c: u8)
        ensures
            c == self.spec_code(),
    {
        match self {
            ModbusProtoExcepCode::IllegalFunction => 0x01,
            ModbusProtoExcepCode::IllegalDataAddress => 0x02,
            ModbusProtoExcepCode::IllegalDataValue => 0x03,
            ModbusProtoExcepCode::ServerDeviceFailure => 0x04,
            ModbusProtoExcepCode::Acknowledge => 0x05,
            ModbusProtoExcepCode::ServerDeviceBusy => 0x06,
            ModbusProtoExcepCode::MemoryParityError => 0x08,
            ModbusProtoExcepCode::GatewayPathUnavailable => 0x0a,
            ModbusProtoExcepCode::GatewayTargetDeviceNotResponding => 0x0b,
        }
    }
}

/// Represents a Modbus error and exception
#[derive(Debug, Clone, Copy, PartialEq, Eq, Structural)]
pub struct ModbusException {
    /// The error code component of an error. Usually this is (function_code | 0x80)
    pub error_code: u8,
    /// The exception code component of an error
    pub exception_code: ModbusProtoExcepCode,
}

/// A wrapper for MbCore Err() values
#[derive(Debug, Clone, Copy, PartialEq, Eq, Structural)]
pub enum MbFuncError {
    /// A Modbus exception occurred
    MbProtoExcep(ModbusProtoExcepCode),
    /// An error occurred trying to transmit on the mpsc channel
    TransmitError,
    /// An invalid or out of range address was provided to a bulk load function
    BadLoadAddress,
    /// A packet type arrived that is malformed, e.g., the value does not match the request type
    BadPacketType,
}

/// Convenience type for MbCore function results
pub type MbFuncResult = Result<MbMessageReply, MbFuncError>;

/// The mathematical view of an [`MbFuncResult`].
pub open spec fn result_view(r: MbFuncResult) -> Result<MbMessageReplyView, MbFuncError> {
    match r {
        Ok(m) => Ok(m@),
        Err(e) => Err(e),
    }
}

} // verus!
