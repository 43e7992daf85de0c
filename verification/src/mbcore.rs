//! Core of the Modbus engine.
//!
//! MbCore implements a simple request-reply system over sync::mpsc channels. The core component is
//! intended to be a backing system for a Modbus interface presented over TCP/IP or another
//! protocol.
//!
//! The device is modelled by [`MbState`]: the coils and the holding registers as sequences.
//! Each operation is a spec function on that model, and the executable operations of
//! [`MbCore`] are proved to follow them.
use std::sync::mpsc::{Receiver, Sender};
use vstd::prelude::*;

use crate::channel::{open_channel, try_receive, Incoming};
use crate::mbtypes::{
    result_view, MbExtent, MbFuncError, MbFuncResult, MbMessage, MbMessageCmd,
    MbMessageCmdView, MbMessageReply, MbMessageReplyView, MbPacket, MbPacketView, MbValue,
    MbValueView, ModbusException, ModbusProtoExcepCode,
};

verus! {

/// Number of coils of the device (addresses 0x0 to 0xffff).
pub const NUM_COILS: usize = 65536;

/// Number of holding registers of the device (addresses 0x0 to 0xffff).
pub const NUM_REGS: usize = 65536;

/// Highest coil address.
pub const MAX_COIL: usize = NUM_COILS - 1;

/// Highest holding register address.
pub const MAX_REG: usize = NUM_REGS - 1;

/// Most coils that one read may return.
pub const MAX_READ_COILS: usize = 0x07d0;

/// Most holding registers that one read may return.
pub const MAX_READ_REGS: usize = 0x07d;

/// Most coils that one write may set.
pub const MAX_WRITE_COILS: usize = 0x07b0;

/// Most holding registers that one write may set.
pub const MAX_WRITE_REGS: usize = 0x07b;

/// The abstract state of the device: its coils and its holding registers.
pub struct MbState {
    pub coils: Seq<bool>,
    pub holding_regs: Seq<u16>,
}

/// `base` with the elements from index `at` on replaced by `vals`, its length unchanged.
pub open spec fn splice<T>(base: Seq<T>, at: int, vals: Seq<T>) -> Seq<T> {
    Seq::new(base.len(), |i: int| if at <= i < at + vals.len() { vals[i - at] } else { base[i] })
}

/// The reply that answers the result of a command: a success is sent as it is, a protocol
/// exception becomes a Modbus exception with the given error code, any other error an
/// internal error.
pub open spec fn reply_of(
    error_code: u8,
    r: Result<MbMessageReplyView, MbFuncError>,
) -> MbMessageReplyView {
    match r {
        Ok(m) => m,
        Err(MbFuncError::MbProtoExcep(e)) => MbMessageReplyView::ModbusException(
            ModbusException { error_code, exception_code: e },
        ),
        Err(e) => MbMessageReplyView::InternalError(e),
    }
}

/// The view of an optional reply.
pub open spec fn reply_option_view(r: Option<MbMessageReply>) -> Option<MbMessageReplyView> {
    match r {
        Some(m) => Some(m@),
        None => None,
    }
}

impl MbState {
    /// The device has exactly its 64Ki coils and 64Ki holding registers.
    pub open spec fn wf(self) -> bool {
        &&& self.coils.len() == NUM_COILS
        &&& self.holding_regs.len() == NUM_REGS
    }

    /// A fresh device: every coil off, every register zero.
    pub open spec fn initial() -> MbState {
        MbState {
            coils: Seq::new(NUM_COILS as nat, |i: int| false),
            holding_regs: Seq::new(NUM_REGS as nat, |i: int| 0u16),
        }
    }

    /// Read coils (function 0x01): the extent must lie below the highest coil address and
    /// hold between 1 and 0x7d0 coils.
    pub open spec fn read_coils(self, e: MbExtent) -> Result<MbMessageReplyView, MbFuncError> {
        let a: int = e.addr as int;
        let q: int = e.quantity as int;
        if a + q > MAX_COIL {
            Err(MbFuncError::MbProtoExcep(ModbusProtoExcepCode::IllegalDataAddress))
        } else if q == 0 || q > MAX_READ_COILS {
            Err(MbFuncError::MbProtoExcep(ModbusProtoExcepCode::IllegalDataValue))
        } else {
            Ok(
                MbMessageReplyView::ReadCoils(
                    MbPacketView {
                        addr: e.addr,
                        value: MbValueView::MultiCoil(self.coils.subrange(a, a + q)),
                    },
                ),
            )
        }
    }

    /// Read holding registers (function 0x03): the extent must lie below the highest register
    /// address and hold between 1 and 0x7d registers.
    pub open spec fn read_holding_regs(self, e: MbExtent) -> Result<
        MbMessageReplyView,
        MbFuncError,
    > {
        let a: int = e.addr as int;
        let q: int = e.quantity as int;
        if a + q > MAX_REG {
            Err(MbFuncError::MbProtoExcep(ModbusProtoExcepCode::IllegalDataAddress))
        } else if q == 0 || q > MAX_READ_REGS {
            Err(MbFuncError::MbProtoExcep(ModbusProtoExcepCode::IllegalDataValue))
        } else {
            Ok(
                MbMessageReplyView::ReadHoldingRegs(
                    MbPacketView {
                        addr: e.addr,
                        value: MbValueView::MultiReg(self.holding_regs.subrange(a, a + q)),
                    },
                ),
            )
        }
    }

    /// Write a single coil (function 0x05); the reply echoes the packet.
    pub open spec fn write_single_coil(self, p: MbPacketView) -> (
        MbState,
        Result<MbMessageReplyView, MbFuncError>,
    ) {
        match p.value {
            MbValueView::SingleCoil(v) => (
                MbState { coils: self.coils.update(p.addr as int, v), ..self },
                Ok(MbMessageReplyView::WriteSingleCoil(p)),
            ),
            _ => (self, Err(MbFuncError::BadPacketType)),
        }
    }

    /// Write a single holding register (function 0x06); the reply echoes the packet.
    pub open spec fn write_single_holding_reg(self, p: MbPacketView) -> (
        MbState,
        Result<MbMessageReplyView, MbFuncError>,
    ) {
        match p.value {
            MbValueView::SingleReg(v) => (
                MbState { holding_regs: self.holding_regs.update(p.addr as int, v), ..self },
                Ok(MbMessageReplyView::WriteSingleHoldingReg(p)),
            ),
            _ => (self, Err(MbFuncError::BadPacketType)),
        }
    }

    /// Write a block of holding registers (function 0x10): the block must lie below the
    /// highest register address and hold between 1 and 0x7b registers; the reply gives the
    /// extent written.
    pub open spec fn write_multiple_holding_regs(self, p: MbPacketView) -> (
        MbState,
        Result<MbMessageReplyView, MbFuncError>,
    ) {
        match p.value {
            MbValueView::MultiReg(vals) => {
                let a: int = p.addr as int;
                let q: int = vals.len() as int;
                if a + q > MAX_REG {
                    (
                        self,
                        Err(MbFuncError::MbProtoExcep(ModbusProtoExcepCode::IllegalDataAddress)),
                    )
                } else if q == 0 || q > MAX_WRITE_REGS {
                    (
                        self,
                        Err(MbFuncError::MbProtoExcep(ModbusProtoExcepCode::IllegalDataValue)),
                    )
                } else {
                    (
                        MbState { holding_regs: splice(self.holding_regs, a, vals), ..self },
                        Ok(
                            MbMessageReplyView::WriteMultipleHoldingRegs(
                                MbExtent { addr: p.addr, quantity: q as u16 },
                            ),
                        ),
                    )
                }
            },
            _ => (self, Err(MbFuncError::BadPacketType)),
        }
    }

    /// Write a block of coils (function 0x0f): the block must lie below the highest register
    /// address and hold between 1 and 0x7b0 coils; the reply gives the extent written.
    pub open spec fn write_multiple_coils(self, p: MbPacketView) -> (
        MbState,
        Result<MbMessageReplyView, MbFuncError>,
    ) {
        match p.value {
            MbValueView::MultiCoil(vals) => {
                let a: int = p.addr as int;
                let q: int = vals.len() as int;
                if a + q > MAX_REG {
                    (
                        self,
                        Err(MbFuncError::MbProtoExcep(ModbusProtoExcepCode::IllegalDataAddress)),
                    )
                } else if q == 0 || q > MAX_WRITE_COILS {
                    (
                        self,
                        Err(MbFuncError::MbProtoExcep(ModbusProtoExcepCode::IllegalDataValue)),
                    )
                } else {
                    (
                        MbState { coils: splice(self.coils, a, vals), ..self },
                        Ok(
                            MbMessageReplyView::WriteMultipleCoils(
                                MbExtent { addr: p.addr, quantity: q as u16 },
                            ),
                        ),
                    )
                }
            },
            _ => (self, Err(MbFuncError::BadPacketType)),
        }
    }

    /// Bulk load of coils or registers, not bound by the protocol's length limits: an error
    /// comes only if the number of values plus the offset is greater than NUM_COILS.
    pub open spec fn load_bulk(self, p: MbPacketView) -> (MbState, Result<(), MbFuncError>) {
        match p.value {
            MbValueView::MultiReg(regs) => {
                if regs.len() + p.addr > NUM_COILS {
                    (self, Err(MbFuncError::BadLoadAddress))
                } else {
                    (
                        MbState {
                            holding_regs: splice(self.holding_regs, p.addr as int, regs),
                            ..self
                        },
                        Ok(()),
                    )
                }
            },
            MbValueView::MultiCoil(coils) => {
                if coils.len() + p.addr > NUM_COILS {
                    (self, Err(MbFuncError::BadLoadAddress))
                } else {
                    (MbState { coils: splice(self.coils, p.addr as int, coils), ..self }, Ok(()))
                }
            },
            _ => (self, Err(MbFuncError::BadPacketType)),
        }
    }

    /// One command processed: the next state and the reply (none for shutdown).
    /// A refused request is answered with its function code with the high bit set.
    pub open spec fn step(self, cmd: MbMessageCmdView) -> (MbState, Option<MbMessageReplyView>) {
        match cmd {
            MbMessageCmdView::ReadHoldingRegs(e) => (
                self,
                Some(reply_of(0x83, self.read_holding_regs(e))),
            ),
            MbMessageCmdView::ReadCoils(e) => (self, Some(reply_of(0x81, self.read_coils(e)))),
            MbMessageCmdView::WriteSingleHoldingReg(p) => {
                let (s, r) = self.write_single_holding_reg(p);
                (s, Some(reply_of(0x86, r)))
            },
            MbMessageCmdView::WriteSingleCoil(p) => {
                let (s, r) = self.write_single_coil(p);
                (s, Some(reply_of(0x85, r)))
            },
            MbMessageCmdView::WriteMultipleHoldingRegs(p) => {
                let (s, r) = self.write_multiple_holding_regs(p);
                (s, Some(reply_of(0x90, r)))
            },
            MbMessageCmdView::WriteMultipleCoils(p) => {
                let (s, r) = self.write_multiple_coils(p);
                (s, Some(reply_of(0x8f, r)))
            },
            MbMessageCmdView::Shutdown => (self, None),
        }
    }
}

/// What became of one message taken from the command channel.
#[derive(Debug)]
pub enum ServeOutcome {
    /// A command was processed; the reply that answers it is to go out on the channel
    /// that came with the command.
    Reply(MbMessageReply, Sender<MbMessageReply>),
    /// A command without a reply channel arrived; it was ignored.
    Silent,
    /// No message was waiting.
    Idle,
    /// A shutdown command arrived.
    Shutdown,
    /// Every sender has gone: no message can arrive any more.
    Disconnected,
}

/// Provides data and functionality for a simulated Modbus device.
pub struct MbCore {
    coils: Vec<bool>,
    holding_regs: Vec<u16>,
    cmd_rx: Receiver<MbMessage>,
    cmd_tx: Sender<MbMessage>,
}

impl View for MbCore {
    type V = MbState;

    closed spec fn view(&self) -> MbState {
        MbState { coils: self.coils@, holding_regs: self.holding_regs@ }
    }
}

impl MbCore {
    #[verifier::type_invariant]
    spec fn inv(self) -> bool {
        &&& self.coils@.len() == NUM_COILS
        &&& self.holding_regs@.len() == NUM_REGS
    }

    /// Initialize a new MbCore
    pub fn new() -> (core: MbCore)
        ensures
            core@ == MbState::initial(),
            core@.wf(),
            forall|i: int| 0 <= i < NUM_COILS ==> core@.coils[i] == false,
            forall|i: int| 0 <= i < NUM_REGS ==> core@.holding_regs[i] == 0,
    {
        let (channel_tx, channel_rx) = open_channel();
        let coils = vec![false; NUM_COILS];
        let holding_regs = vec![0u16; NUM_REGS];
        assert(coils@ =~= MbState::initial().coils);
        assert(holding_regs@ =~= MbState::initial().holding_regs);
        MbCore { coils, holding_regs, cmd_rx: channel_rx, cmd_tx: channel_tx }
    }

    /// Handle the read_coils request.
    pub fn read_coils(&self, extent: &MbExtent) -> (r: MbFuncResult)
        ensures
            result_view(r) == self@.read_coils(*extent),
            self@.wf(),
    {
        proof {
            use_type_invariant(self);
        }
        let addr: usize = extent.addr as usize;
        let quantity: usize = extent.quantity as usize;

        if addr > MAX_COIL || addr > MAX_COIL - quantity {
            return Err(MbFuncError::MbProtoExcep(ModbusProtoExcepCode::IllegalDataAddress));
        }
        if quantity == 0 || quantity > MAX_READ_COILS {
            return Err(MbFuncError::MbProtoExcep(ModbusProtoExcepCode::IllegalDataValue));
        }
        let mut coils: Vec<bool> = Vec::with_capacity(quantity);
        let mut i: usize = 0;
        while i < quantity
            invariant
                i <= quantity,
                addr + quantity <= MAX_COIL,
                self.coils@.len() == NUM_COILS,
                coils@ =~= self.coils@.subrange(addr as int, addr + i),
            decreases quantity - i,
        {
            coils.push(self.coils[addr + i]);
            i += 1;
        }
        let packet = MbPacket { addr: extent.addr, value: MbValue::MultiCoil(coils) };
        Ok(MbMessageReply::ReadCoils(packet))
    }

    /// Handle the read_holding_regs request.
    pub fn read_holding_regs(&self, extent: &MbExtent) -> (r: MbFuncResult)
        ensures
            result_view(r) == self@.read_holding_regs(*extent),
            self@.wf(),
    {
        proof {
            use_type_invariant(self);
        }
        let addr: usize = extent.addr as usize;
        let quantity: usize = extent.quantity as usize;

        if addr > MAX_REG || addr > MAX_REG - quantity {
            return Err(MbFuncError::MbProtoExcep(ModbusProtoExcepCode::IllegalDataAddress));
        }
        if quantity == 0 || quantity > MAX_READ_REGS {
            return Err(MbFuncError::MbProtoExcep(ModbusProtoExcepCode::IllegalDataValue));
        }
        let mut regs: Vec<u16> = Vec::with_capacity(quantity);
        let mut i: usize = 0;
        while i < quantity
            invariant
                i <= quantity,
                addr + quantity <= MAX_REG,
                self.holding_regs@.len() == NUM_REGS,
                regs@ =~= self.holding_regs@.subrange(addr as int, addr + i),
            decreases quantity - i,
        {
            regs.push(self.holding_regs[addr + i]);
            i += 1;
        }
        let packet = MbPacket { addr: extent.addr, value: MbValue::MultiReg(regs) };
        Ok(MbMessageReply::ReadHoldingRegs(packet))
    }

    /// Handle the write_single_coil request.
    pub fn write_single_coil(&mut self, packet: MbPacket) -> (r: MbFuncResult)
        ensures
            (final(self)@, result_view(r)) == old(self)@.write_single_coil(packet@),
            old(self)@.wf(),
            final(self)@.wf(),
    {
        proof {
            use_type_invariant(&*self);
        }
        let addr: usize = packet.addr as usize;
        if addr > MAX_COIL {
            return Err(MbFuncError::MbProtoExcep(ModbusProtoExcepCode::IllegalDataAddress));
        }
        if let MbValue::SingleCoil(value) = packet.value {
            self.coils[addr] = value;
            Ok(MbMessageReply::WriteSingleCoil(packet))
        } else {
            Err(MbFuncError::BadPacketType)
        }
    }

    /// Handle the write_single_reg request.
    pub fn write_single_holding_reg(&mut self, packet: MbPacket) -> (r: MbFuncResult)
        ensures
            (final(self)@, result_view(r)) == old(self)@.write_single_holding_reg(packet@),
            old(self)@.wf(),
            final(self)@.wf(),
    {
        proof {
            use_type_invariant(&*self);
        }
        let addr: usize = packet.addr as usize;
        if addr > MAX_REG {
            return Err(MbFuncError::MbProtoExcep(ModbusProtoExcepCode::IllegalDataAddress));
        }
        if let MbValue::SingleReg(value) = packet.value {
            self.holding_regs[addr] = value;
            Ok(MbMessageReply::WriteSingleHoldingReg(packet))
        } else {
            Err(MbFuncError::BadPacketType)
        }
    }
    /// Handle the write_multiple_holding_regs request.
    pub fn write_multiple_holding_regs(&mut self, packet: MbPacket) -> (r: MbFuncResult)
        ensures
            (final(self)@, result_view(r)) == old(self)@.write_multiple_holding_regs(packet@),
            old(self)@.wf(),
            final(self)@.wf(),
    {
        proof {
            use_type_invariant(&*self);
        }
        let addr: usize = packet.addr as usize;

        if let MbValue::MultiReg(values) = packet.value {
            let quantity: usize = values.len();
            if addr > MAX_REG || quantity > MAX_REG - addr {
                return Err(MbFuncError::MbProtoExcep(ModbusProtoExcepCode::IllegalDataAddress));
            }
            if quantity == 0 || quantity > MAX_WRITE_REGS {
                return Err(MbFuncError::MbProtoExcep(ModbusProtoExcepCode::IllegalDataValue));
            }
            let mut i: usize = 0;
            while i < quantity
                invariant
                    i <= quantity,
                    quantity == values@.len(),
                    addr + quantity <= MAX_REG,
                    self.coils@ == old(self).coils@,
                    self.holding_regs@ =~= splice(
                        old(self).holding_regs@,
                        addr as int,
                        values@.take(i as int),
                    ),
                    old(self).holding_regs@.len() == NUM_REGS,
                    self.holding_regs@.len() == NUM_REGS,
                    self.coils@.len() == NUM_COILS,
                decreases quantity - i,
            {
                self.holding_regs[addr + i] = values[i];
                i += 1;
            }
            assert(values@.take(quantity as int) =~= values@);
            let extent = MbExtent { addr: packet.addr, quantity: quantity as u16 };
            Ok(MbMessageReply::WriteMultipleHoldingRegs(extent))
        } else {
            Err(MbFuncError::BadPacketType)
        }
    }

    /// Handle the write_multiple_coils request.
    pub fn write_multiple_coils(&mut self, packet: MbPacket) -> (r: MbFuncResult)
        ensures
            (final(self)@, result_view(r)) == old(self)@.write_multiple_coils(packet@),
            old(self)@.wf(),
            final(self)@.wf(),
    {
        proof {
            use_type_invariant(&*self);
        }
        let addr: usize = packet.addr as usize;

        if let MbValue::MultiCoil(values) = packet.value {
            let quantity: usize = values.len();
            if addr > MAX_REG || quantity > MAX_REG - addr {
                return Err(MbFuncError::MbProtoExcep(ModbusProtoExcepCode::IllegalDataAddress));
            }
            if quantity == 0 || quantity > MAX_WRITE_COILS {
                return Err(MbFuncError::MbProtoExcep(ModbusProtoExcepCode::IllegalDataValue));
            }
            let mut i: usize = 0;
            while i < quantity
                invariant
                    i <= quantity,
                    quantity == values@.len(),
                    addr + quantity <= MAX_REG,
                    self.holding_regs@ == old(self).holding_regs@,
                    self.coils@ =~= splice(old(self).coils@, addr as int, values@.take(i as int)),
                    old(self).coils@.len() == NUM_COILS,
                    self.holding_regs@.len() == NUM_REGS,
                    self.coils@.len() == NUM_COILS,
                decreases quantity - i,
            {
                self.coils[addr + i] = values[i];
                i += 1;
            }
            assert(values@.take(quantity as int) =~= values@);
            let extent = MbExtent { addr: packet.addr, quantity: quantity as u16 };
            Ok(MbMessageReply::WriteMultipleCoils(extent))
        } else {
            Err(MbFuncError::BadPacketType)
        }
    }
    /// Bulk load coils or registers.
    ///
    /// Unlike the regular WriteMultipleX commands, this function is not constrained by protocol
    /// length limitations.
    ///
    /// Returns an error if the provided MbValue is not a Multi-type value or
    /// if the number of registers plus the offset is greater than NUM_COILS.
    pub fn load_bulk(&mut self, packet: MbPacket) -> (r: Result<(), MbFuncError>)
        ensures
            (final(self)@, r) == old(self)@.load_bulk(packet@),
            old(self)@.wf(),
            final(self)@.wf(),
    {
        proof {
            use_type_invariant(&*self);
        }
        let addr: usize = packet.addr as usize;
        match packet.value {
            MbValue::MultiReg(regs) => {
                if regs.len() > NUM_COILS - addr {
                    return Err(MbFuncError::BadLoadAddress);
                }
                let mut i: usize = 0;
                while i < regs.len()
                    invariant
                        i <= regs@.len(),
                        addr + regs@.len() <= NUM_COILS,
                        self.coils@ == old(self).coils@,
                        self.holding_regs@ =~= splice(
                            old(self).holding_regs@,
                            addr as int,
                            regs@.take(i as int),
                        ),
                        old(self).holding_regs@.len() == NUM_REGS,
                        self.holding_regs@.len() == NUM_REGS,
                        self.coils@.len() == NUM_COILS,
                    decreases regs@.len() - i,
                {
                    self.holding_regs[i + addr] = regs[i];
                    i += 1;
                }
                assert(regs@.take(regs@.len() as int) =~= regs@);
                Ok(())
            },
            MbValue::MultiCoil(coils) => {
                if coils.len() > NUM_COILS - addr {
                    return Err(MbFuncError::BadLoadAddress);
                }
                let mut i: usize = 0;
                while i < coils.len()
                    invariant
                        i <= coils@.len(),
                        addr + coils@.len() <= NUM_COILS,
                        self.holding_regs@ == old(self).holding_regs@,
                        self.coils@ =~= splice(old(self).coils@, addr as int, coils@.take(i as int)),
                        old(self).coils@.len() == NUM_COILS,
                        self.holding_regs@.len() == NUM_REGS,
                        self.coils@.len() == NUM_COILS,
                    decreases coils@.len() - i,
                {
                    self.coils[i + addr] = coils[i];
                    i += 1;
                }
                assert(coils@.take(coils@.len() as int) =~= coils@);
                Ok(())
            },
            _ => Err(MbFuncError::BadPacketType),
        }
    }

    /// The reply that answers a command's result: a success as it is, a Modbus protocol
    /// exception with the given error code, any other error as an internal error.
    fn reply_for(error_code: u8, result: MbFuncResult) -> (reply: MbMessageReply)
        ensures
            reply@ == reply_of(error_code, result_view(result)),
    {
        match result {
            Ok(msg) => msg,
            Err(MbFuncError::MbProtoExcep(exception_code)) => {
                MbMessageReply::ModbusException(ModbusException { error_code, exception_code })
            },
            Err(error) => MbMessageReply::InternalError(error),
        }
    }

    /// Process one command: run it against the device and give the reply that answers it
    /// (none for shutdown). Errors of the Modbus protocol are answered as Modbus exceptions
    /// carrying the function code with its high bit set; other errors as internal errors.
    pub fn handle_command(&mut self, cmd: MbMessageCmd) -> (reply: Option<MbMessageReply>)
        ensures
            (final(self)@, reply_option_view(reply)) == old(self)@.step(cmd@),
            old(self)@.wf(),
            final(self)@.wf(),
    {
        proof {
            use_type_invariant(&*self);
        }
        let reply = match cmd {
            MbMessageCmd::ReadHoldingRegs(extent) => {
                Some(Self::reply_for(0x83, self.read_holding_regs(&extent)))
            },
            MbMessageCmd::ReadCoils(extent) => Some(Self::reply_for(0x81, self.read_coils(&extent))),
            MbMessageCmd::WriteSingleHoldingReg(packet) => {
                Some(Self::reply_for(0x86, self.write_single_holding_reg(packet)))
            },
            MbMessageCmd::WriteSingleCoil(packet) => {
                Some(Self::reply_for(0x85, self.write_single_coil(packet)))
            },
            MbMessageCmd::WriteMultipleHoldingRegs(packet) => {
                Some(Self::reply_for(0x90, self.write_multiple_holding_regs(packet)))
            },
            MbMessageCmd::WriteMultipleCoils(packet) => {
                Some(Self::reply_for(0x8f, self.write_multiple_coils(packet)))
            },
            MbMessageCmd::Shutdown => None,
        };
        proof {
            use_type_invariant(&*self);
        }
        reply
    }

    /// Process one message. A shutdown command stops processing. Any other command is run,
    /// and its reply is handed back with the reply channel it is to go out on; a command
    /// without a reply channel is ignored.
    pub fn handle_message(&mut self, msg: MbMessage) -> (outcome: ServeOutcome)
        ensures
            old(self)@.wf(),
            final(self)@.wf(),
            msg.cmd@ is Shutdown ==> outcome is Shutdown && final(self)@ == old(self)@,
            !(msg.cmd@ is Shutdown) && msg.reply_tx is None ==> outcome is Silent && final(self)@
                == old(self)@,
            !(msg.cmd@ is Shutdown) && msg.reply_tx is Some ==> {
                &&& outcome matches ServeOutcome::Reply(reply, reply_tx) && {
                    &&& Some(reply@) == old(self)@.step(msg.cmd@).1
                    &&& reply_tx == msg.reply_tx->0
                }
                &&& final(self)@ == old(self)@.step(msg.cmd@).0
            },
    {
        proof {
            use_type_invariant(&*self);
        }
        let cmd = msg.cmd;
        if let MbMessageCmd::Shutdown = cmd {
            return ServeOutcome::Shutdown;
        }
        match msg.reply_tx {
            Some(reply_tx) => match self.handle_command(cmd) {
                Some(reply) => ServeOutcome::Reply(reply, reply_tx),
                None => ServeOutcome::Shutdown,
            },
            None => ServeOutcome::Silent,
        }
    }

    /// Take the next waiting message from the command channel, if there is one, and process
    /// it. Which message comes depends on the senders; whatever came, the device changes at
    /// most by the one command processed, and a reply handed back answers that command.
    pub fn serve_one(&mut self) -> (outcome: ServeOutcome)
        ensures
            old(self)@.wf(),
            final(self)@.wf(),
            !(outcome is Reply) ==> final(self)@ == old(self)@,
            outcome matches ServeOutcome::Reply(reply, _) ==> exists|cmd: MbMessageCmdView|
                {
                    &&& #[trigger] old(self)@.step(cmd).0 == final(self)@
                    &&& old(self)@.step(cmd).1 == Some(reply@)
                },
    {
        proof {
            use_type_invariant(&*self);
        }
        match try_receive(&self.cmd_rx) {
            Incoming::Message(msg) => {
                let ghost cmd = msg.cmd@;
                let outcome = self.handle_message(msg);
                assert(outcome matches ServeOutcome::Reply(reply, _) ==> old(self)@.step(cmd).0
                    == self@ && old(self)@.step(cmd).1 == Some(reply@));
                outcome
            },
            Incoming::Empty => ServeOutcome::Idle,
            Incoming::Disconnected => ServeOutcome::Disconnected,
        }
    }

    /// Obtain a clone of the Sender channel.
    /// Calls `Sender::clone`; nothing is stated of the sender it gives.
    #[verifier::external_body]
    pub fn get_channel(&self) -> Sender<MbMessage> {
        self.cmd_tx.clone()
    }
}

} // verus!
