//! What holds of the device across commands: reads give back what writes wrote, a command
//! touches only the addresses it names, refused commands change nothing, and replies follow
//! the Modbus protocol.
use vstd::prelude::*;

use crate::mbcore::{
    splice, MbState, MAX_COIL, MAX_READ_COILS, MAX_READ_REGS, MAX_REG, MAX_WRITE_COILS,
    MAX_WRITE_REGS, NUM_COILS, NUM_REGS,
};
use crate::mbtypes::{
    function_code, MbExtent, MbFuncError, MbMessageCmdView, MbMessageReplyView, MbPacketView,
    MbValueView, ModbusException, ModbusProtoExcepCode,
};

verus! {

/// Whether the command, when accepted, may set the coil at address `i`.
pub open spec fn writes_coil(cmd: MbMessageCmdView, i: int) -> bool {
    match cmd {
        MbMessageCmdView::WriteSingleCoil(p) => i == p.addr,
        MbMessageCmdView::WriteMultipleCoils(p) => match p.value {
            MbValueView::MultiCoil(v) => p.addr <= i < p.addr + v.len(),
            _ => false,
        },
        _ => false,
    }
}

/// Whether the command, when accepted, may set the holding register at address `i`.
pub open spec fn writes_reg(cmd: MbMessageCmdView, i: int) -> bool {
    match cmd {
        MbMessageCmdView::WriteSingleHoldingReg(p) => i == p.addr,
        MbMessageCmdView::WriteMultipleHoldingRegs(p) => match p.value {
            MbValueView::MultiReg(v) => p.addr <= i < p.addr + v.len(),
            _ => false,
        },
        _ => false,
    }
}

/// Processing any command keeps the device's 64Ki coils and 64Ki registers.
pub proof fn lemma_step_preserves_wf(s: MbState, cmd: MbMessageCmdView)
    requires
        s.wf(),
    ensures
        s.step(cmd).0.wf(),
{
}

/// A bulk load keeps the device's 64Ki coils and 64Ki registers.
pub proof fn lemma_load_bulk_preserves_wf(s: MbState, p: MbPacketView)
    requires
        s.wf(),
    ensures
        s.load_bulk(p).0.wf(),
{
}

/// A command changes no coil and no register outside the addresses it writes: reads and
/// shutdown change nothing, coil writes no register, register writes no coil.
pub proof fn lemma_step_touches_only_its_footprint(s: MbState, cmd: MbMessageCmdView)
    requires
        s.wf(),
    ensures
        forall|i: int|
            0 <= i < NUM_COILS && !writes_coil(cmd, i) ==> #[trigger] s.step(cmd).0.coils[i]
                == s.coils[i],
        forall|i: int|
            0 <= i < NUM_REGS && !writes_reg(cmd, i) ==> #[trigger] s.step(cmd).0.holding_regs[i]
                == s.holding_regs[i],
{
}

/// A refused command, answered with a Modbus exception or an internal error, leaves the
/// device as it was.
pub proof fn lemma_refused_command_changes_nothing(s: MbState, cmd: MbMessageCmdView)
    requires
        s.step(cmd).1 matches Some(r) && (r is ModbusException || r is InternalError),
    ensures
        s.step(cmd).0 == s,
{
}

/// A Modbus exception answers with the command's function code with its high bit set.
pub proof fn lemma_exception_carries_function_code(s: MbState, cmd: MbMessageCmdView)
    requires
        s.step(cmd).1 matches Some(r) && r is ModbusException,
    ensures
        function_code(cmd) is Some,
        s.step(cmd).1->0->ModbusException_0.error_code == function_code(cmd)->0 + 0x80,
        s.step(cmd).1->0->ModbusException_0.error_code == function_code(cmd)->0 | 0x80u8,
{
    let fc: u8 = function_code(cmd)->0;
    assert(fc == 0x01u8 || fc == 0x03u8 || fc == 0x05u8 || fc == 0x06u8 || fc == 0x0fu8 || fc
        == 0x10u8);
    assert(0x01u8 | 0x80u8 == 0x81u8) by (bit_vector);
    assert(0x03u8 | 0x80u8 == 0x83u8) by (bit_vector);
    assert(0x05u8 | 0x80u8 == 0x85u8) by (bit_vector);
    assert(0x06u8 | 0x80u8 == 0x86u8) by (bit_vector);
    assert(0x0fu8 | 0x80u8 == 0x8fu8) by (bit_vector);
    assert(0x10u8 | 0x80u8 == 0x90u8) by (bit_vector);
}

/// A coil read that is accepted returns exactly the stored coils of the extent, in order.
pub proof fn lemma_read_coils_returns_stored(s: MbState, e: MbExtent)
    requires
        s.wf(),
        s.read_coils(e) is Ok,
    ensures
        s.read_coils(e)->Ok_0 matches MbMessageReplyView::ReadCoils(p) && {
            &&& p.addr == e.addr
            &&& p.value matches MbValueView::MultiCoil(v) && {
                &&& v.len() == e.quantity
                &&& forall|i: int| 0 <= i < e.quantity ==> v[i] == s.coils[e.addr + i]
            }
        },
{
}

/// A register read that is accepted returns exactly the stored registers of the extent,
/// in order.
pub proof fn lemma_read_regs_returns_stored(s: MbState, e: MbExtent)
    requires
        s.wf(),
        s.read_holding_regs(e) is Ok,
    ensures
        s.read_holding_regs(e)->Ok_0 matches MbMessageReplyView::ReadHoldingRegs(p) && {
            &&& p.addr == e.addr
            &&& p.value matches MbValueView::MultiReg(v) && {
                &&& v.len() == e.quantity
                &&& forall|i: int| 0 <= i < e.quantity ==> v[i] == s.holding_regs[e.addr + i]
            }
        },
{
}

/// Writing a single coil is echoed, and reading that coil back gives the value written.
/// (The coil at the highest address cannot be read back: every read must end below it.)
pub proof fn lemma_write_coil_then_read(s: MbState, addr: u16, v: bool)
    requires
        s.wf(),
        addr < MAX_COIL,
    ensures
        ({
            let p = MbPacketView { addr, value: MbValueView::SingleCoil(v) };
            let (s2, reply) = s.step(MbMessageCmdView::WriteSingleCoil(p));
            &&& reply == Some(MbMessageReplyView::WriteSingleCoil(p))
            &&& s2.step(MbMessageCmdView::ReadCoils(MbExtent { addr, quantity: 1 })).1 == Some(
                MbMessageReplyView::ReadCoils(
                    MbPacketView { addr, value: MbValueView::MultiCoil(seq![v]) },
                ),
            )
        }),
{
    let p = MbPacketView { addr, value: MbValueView::SingleCoil(v) };
    let s2 = s.step(MbMessageCmdView::WriteSingleCoil(p)).0;
    assert(s2.coils.subrange(addr as int, addr + 1) =~= seq![v]);
}

/// Writing a single holding register is echoed, and reading that register back gives the
/// value written. (The register at the highest address cannot be read back.)
pub proof fn lemma_write_reg_then_read(s: MbState, addr: u16, v: u16)
    requires
        s.wf(),
        addr < MAX_REG,
    ensures
        ({
            let p = MbPacketView { addr, value: MbValueView::SingleReg(v) };
            let (s2, reply) = s.step(MbMessageCmdView::WriteSingleHoldingReg(p));
            &&& reply == Some(MbMessageReplyView::WriteSingleHoldingReg(p))
            &&& s2.step(MbMessageCmdView::ReadHoldingRegs(MbExtent { addr, quantity: 1 })).1
                == Some(
                MbMessageReplyView::ReadHoldingRegs(
                    MbPacketView { addr, value: MbValueView::MultiReg(seq![v]) },
                ),
            )
        }),
{
    let p = MbPacketView { addr, value: MbValueView::SingleReg(v) };
    let s2 = s.step(MbMessageCmdView::WriteSingleHoldingReg(p)).0;
    assert(s2.holding_regs.subrange(addr as int, addr + 1) =~= seq![v]);
}

/// A block of coils within the protocol's limits is accepted, answered with the extent
/// written, and reading that extent back gives the coils written.
pub proof fn lemma_write_coils_then_read(s: MbState, addr: u16, vals: Seq<bool>)
    requires
        s.wf(),
        1 <= vals.len() <= MAX_WRITE_COILS,
        addr + vals.len() <= MAX_REG,
    ensures
        ({
            let p = MbPacketView { addr, value: MbValueView::MultiCoil(vals) };
            let e = MbExtent { addr, quantity: vals.len() as u16 };
            let (s2, reply) = s.step(MbMessageCmdView::WriteMultipleCoils(p));
            &&& reply == Some(MbMessageReplyView::WriteMultipleCoils(e))
            &&& s2.step(MbMessageCmdView::ReadCoils(e)).1 == Some(
                MbMessageReplyView::ReadCoils(
                    MbPacketView { addr, value: MbValueView::MultiCoil(vals) },
                ),
            )
        }),
{
    let p = MbPacketView { addr, value: MbValueView::MultiCoil(vals) };
    let s2 = s.step(MbMessageCmdView::WriteMultipleCoils(p)).0;
    assert(MAX_WRITE_COILS <= MAX_READ_COILS);
    assert(s2.coils.subrange(addr as int, addr + vals.len()) =~= vals);
}

/// A block of holding registers within the protocol's limits is accepted, answered with
/// the extent written, and reading that extent back gives the registers written.
pub proof fn lemma_write_regs_then_read(s: MbState, addr: u16, vals: Seq<u16>)
    requires
        s.wf(),
        1 <= vals.len() <= MAX_WRITE_REGS,
        addr + vals.len() <= MAX_REG,
    ensures
        ({
            let p = MbPacketView { addr, value: MbValueView::MultiReg(vals) };
            let e = MbExtent { addr, quantity: vals.len() as u16 };
            let (s2, reply) = s.step(MbMessageCmdView::WriteMultipleHoldingRegs(p));
            &&& reply == Some(MbMessageReplyView::WriteMultipleHoldingRegs(e))
            &&& s2.step(MbMessageCmdView::ReadHoldingRegs(e)).1 == Some(
                MbMessageReplyView::ReadHoldingRegs(
                    MbPacketView { addr, value: MbValueView::MultiReg(vals) },
                ),
            )
        }),
{
    let p = MbPacketView { addr, value: MbValueView::MultiReg(vals) };
    let s2 = s.step(MbMessageCmdView::WriteMultipleHoldingRegs(p)).0;
    assert(MAX_WRITE_REGS <= MAX_READ_REGS);
    assert(s2.holding_regs.subrange(addr as int, addr + vals.len()) =~= vals);
}

/// Coils bulk-loaded so that they end at or below NUM_COILS are loaded and stored in order;
/// the last coil address can be loaded. When they also lie within what one read may return,
/// a read of them gives them back.
pub proof fn lemma_load_coils_then_read(s: MbState, addr: u16, vals: Seq<bool>)
    requires
        s.wf(),
        addr + vals.len() <= NUM_COILS,
    ensures
        ({
            let (s2, r) = s.load_bulk(MbPacketView { addr, value: MbValueView::MultiCoil(vals) });
            &&& r == Ok::<(), crate::mbtypes::MbFuncError>(())
            &&& s2.coils.subrange(addr as int, addr + vals.len()) == vals
            &&& s2.holding_regs == s.holding_regs
            &&& (1 <= vals.len() <= MAX_READ_COILS && addr + vals.len() <= MAX_COIL) ==> s2.step(
                MbMessageCmdView::ReadCoils(MbExtent { addr, quantity: vals.len() as u16 }),
            ).1 == Some(
                MbMessageReplyView::ReadCoils(
                    MbPacketView { addr, value: MbValueView::MultiCoil(vals) },
                ),
            )
        }),
{
    let s2 = s.load_bulk(MbPacketView { addr, value: MbValueView::MultiCoil(vals) }).0;
    assert(s2.coils.subrange(addr as int, addr + vals.len()) =~= vals);
}

/// Registers bulk-loaded so that they end at or below NUM_COILS are loaded and stored in
/// order; the last register can be loaded. When they also lie within what one read may
/// return, a read of them gives them back.
pub proof fn lemma_load_regs_then_read(s: MbState, addr: u16, vals: Seq<u16>)
    requires
        s.wf(),
        addr + vals.len() <= NUM_COILS,
    ensures
        ({
            let (s2, r) = s.load_bulk(MbPacketView { addr, value: MbValueView::MultiReg(vals) });
            &&& r == Ok::<(), crate::mbtypes::MbFuncError>(())
            &&& s2.holding_regs.subrange(addr as int, addr + vals.len()) == vals
            &&& s2.coils == s.coils
            &&& (1 <= vals.len() <= MAX_READ_REGS && addr + vals.len() <= MAX_REG) ==> s2.step(
                MbMessageCmdView::ReadHoldingRegs(
                    MbExtent { addr, quantity: vals.len() as u16 },
                ),
            ).1 == Some(
                MbMessageReplyView::ReadHoldingRegs(
                    MbPacketView { addr, value: MbValueView::MultiReg(vals) },
                ),
            )
        }),
{
    let s2 = s.load_bulk(MbPacketView { addr, value: MbValueView::MultiReg(vals) }).0;
    assert(s2.holding_regs.subrange(addr as int, addr + vals.len()) =~= vals);
}

/// A bulk load is refused exactly when its values would end beyond NUM_COILS, or when it
/// carries a single value; a refused load changes nothing.
pub proof fn lemma_load_bulk_refusals(s: MbState, p: MbPacketView)
    ensures
        s.load_bulk(p).1 == Err::<(), crate::mbtypes::MbFuncError>(
            crate::mbtypes::MbFuncError::BadLoadAddress,
        ) <==> match p.value {
            MbValueView::MultiReg(v) => v.len() + p.addr > NUM_COILS,
            MbValueView::MultiCoil(v) => v.len() + p.addr > NUM_COILS,
            _ => false,
        },
        s.load_bulk(p).1 is Err ==> s.load_bulk(p).0 == s,
{
}

/// Of two single-coil writes to one address, the later one wins: the device ends as if
/// only the later write had been made.
pub proof fn lemma_coil_rewrite_overrides(s: MbState, addr: u16, v1: bool, v2: bool)
    requires
        s.wf(),
    ensures
        s.step(
            MbMessageCmdView::WriteSingleCoil(
                MbPacketView { addr, value: MbValueView::SingleCoil(v1) },
            ),
        ).0.step(
            MbMessageCmdView::WriteSingleCoil(
                MbPacketView { addr, value: MbValueView::SingleCoil(v2) },
            ),
        ).0 == s.step(
            MbMessageCmdView::WriteSingleCoil(
                MbPacketView { addr, value: MbValueView::SingleCoil(v2) },
            ),
        ).0,
{
    let s1 = s.step(
        MbMessageCmdView::WriteSingleCoil(MbPacketView { addr, value: MbValueView::SingleCoil(v1) }),
    ).0;
    assert(s1.coils.update(addr as int, v2) =~= s.coils.update(addr as int, v2));
}

/// Of two single-register writes to one address, the later one wins: the device ends as
/// if only the later write had been made.
pub proof fn lemma_reg_rewrite_overrides(s: MbState, addr: u16, v1: u16, v2: u16)
    requires
        s.wf(),
    ensures
        s.step(
            MbMessageCmdView::WriteSingleHoldingReg(
                MbPacketView { addr, value: MbValueView::SingleReg(v1) },
            ),
        ).0.step(
            MbMessageCmdView::WriteSingleHoldingReg(
                MbPacketView { addr, value: MbValueView::SingleReg(v2) },
            ),
        ).0 == s.step(
            MbMessageCmdView::WriteSingleHoldingReg(
                MbPacketView { addr, value: MbValueView::SingleReg(v2) },
            ),
        ).0,
{
    let s1 = s.step(
        MbMessageCmdView::WriteSingleHoldingReg(
            MbPacketView { addr, value: MbValueView::SingleReg(v1) },
        ),
    ).0;
    assert(s1.holding_regs.update(addr as int, v2) =~= s.holding_regs.update(addr as int, v2));
}

/// The device after a sequence of commands processed one after another, in order, from `s`,
/// and the replies in that order.
pub open spec fn run(s: MbState, cmds: Seq<MbMessageCmdView>) -> (
    MbState,
    Seq<Option<MbMessageReplyView>>,
)
    decreases cmds.len(),
{
    if cmds.len() == 0 {
        (s, Seq::empty())
    } else {
        let (s1, replies) = run(s, cmds.drop_last());
        let (s2, reply) = s1.step(cmds.last());
        (s2, replies.push(reply))
    }
}

/// Processing two sequences of commands one after the other is processing their
/// concatenation: the second starts from the state the first left, and the replies follow
/// one another.
pub proof fn lemma_run_append(s: MbState, a: Seq<MbMessageCmdView>, b: Seq<MbMessageCmdView>)
    ensures
        run(s, a + b).0 == run(run(s, a).0, b).0,
        run(s, a + b).1 == run(s, a).1 + run(run(s, a).0, b).1,
    decreases b.len(),
{
    if b.len() == 0 {
        assert(a + b =~= a);
        assert(run(s, a).1 + run(run(s, a).0, b).1 =~= run(s, a).1);
    } else {
        lemma_run_append(s, a, b.drop_last());
        assert((a + b).drop_last() =~= a + b.drop_last());
        assert((a + b).last() == b.last());
        let mid = run(s, a).0;
        let rest = run(mid, b.drop_last());
        let (s2, reply) = rest.0.step(b.last());
        assert(run(s, a).1 + rest.1.push(reply) =~= (run(s, a).1 + rest.1).push(reply));
    }
}

/// Each command of a sequence sees every effect of the commands before it and none of those
/// after it: its reply is the one it gets in the state the earlier commands left.
pub proof fn lemma_run_reply_sees_earlier_commands(
    s: MbState,
    cmds: Seq<MbMessageCmdView>,
    i: int,
)
    requires
        0 <= i < cmds.len(),
    ensures
        run(s, cmds).1.len() == cmds.len(),
        run(s, cmds).1[i] == run(s, cmds.take(i)).0.step(cmds[i]).1,
{
    lemma_run_len(s, cmds);
    let a = cmds.take(i + 1);
    let b = cmds.skip(i + 1);
    assert(a + b =~= cmds);
    lemma_run_append(s, a, b);
    lemma_run_len(s, a);
    assert(a.drop_last() =~= cmds.take(i));
    assert(a.last() == cmds[i]);
}

/// Processing a sequence gives one reply slot per command.
pub proof fn lemma_run_len(s: MbState, cmds: Seq<MbMessageCmdView>)
    ensures
        run(s, cmds).1.len() == cmds.len(),
    decreases cmds.len(),
{
    if cmds.len() > 0 {
        lemma_run_len(s, cmds.drop_last());
    }
}

/// Processing any sequence of commands keeps the device's 64Ki coils and 64Ki registers.
pub proof fn lemma_run_preserves_wf(s: MbState, cmds: Seq<MbMessageCmdView>)
    requires
        s.wf(),
    ensures
        run(s, cmds).0.wf(),
    decreases cmds.len(),
{
    if cmds.len() > 0 {
        lemma_run_preserves_wf(s, cmds.drop_last());
        lemma_step_preserves_wf(run(s, cmds.drop_last()).0, cmds.last());
    }
}

/// A new device has all its 64Ki coils off and all its 64Ki registers zero.
pub proof fn lemma_initial_device_is_blank()
    ensures
        MbState::initial().wf(),
        forall|i: int| 0 <= i < NUM_COILS ==> MbState::initial().coils[i] == false,
        forall|i: int| 0 <= i < NUM_REGS ==> MbState::initial().holding_regs[i] == 0,
{
}

/// A successful bulk load stores its values in order from its address, and changes no
/// coil or register outside that range, nor anything of the other kind.
pub proof fn lemma_load_bulk_stores_only_its_range(s: MbState, p: MbPacketView)
    requires
        s.wf(),
        s.load_bulk(p).1 is Ok,
    ensures
        match p.value {
            MbValueView::MultiCoil(v) => {
                &&& s.load_bulk(p).0.holding_regs == s.holding_regs
                &&& s.load_bulk(p).0.coils.len() == NUM_COILS
                &&& forall|j: int|
                    0 <= j < NUM_COILS ==> #[trigger] s.load_bulk(p).0.coils[j] == if p.addr <= j
                        < p.addr + v.len() {
                        v[j - p.addr]
                    } else {
                        s.coils[j]
                    }
            },
            MbValueView::MultiReg(v) => {
                &&& s.load_bulk(p).0.coils == s.coils
                &&& s.load_bulk(p).0.holding_regs.len() == NUM_REGS
                &&& forall|j: int|
                    0 <= j < NUM_REGS ==> #[trigger] s.load_bulk(p).0.holding_regs[j] == if p.addr
                        <= j < p.addr + v.len() {
                        v[j - p.addr]
                    } else {
                        s.holding_regs[j]
                    }
            },
            _ => false,
        },
{
}

/// Every coil address, the highest included, can be written singly: the reply echoes the
/// packet, that coil takes the value, and nothing else changes.
pub proof fn lemma_single_coil_write_any_address(s: MbState, addr: u16, v: bool)
    requires
        s.wf(),
    ensures
        ({
            let p = MbPacketView { addr, value: MbValueView::SingleCoil(v) };
            let (s2, reply) = s.step(MbMessageCmdView::WriteSingleCoil(p));
            &&& reply == Some(MbMessageReplyView::WriteSingleCoil(p))
            &&& s2.coils.len() == NUM_COILS
            &&& s2.coils[addr as int] == v
            &&& forall|j: int| 0 <= j < NUM_COILS && j != addr ==> #[trigger] s2.coils[j] == s.coils[j]
            &&& s2.holding_regs == s.holding_regs
        }),
{
}

/// Every register address, the highest included, can be written singly: the reply echoes
/// the packet, that register takes the value, and nothing else changes.
pub proof fn lemma_single_reg_write_any_address(s: MbState, addr: u16, v: u16)
    requires
        s.wf(),
    ensures
        ({
            let p = MbPacketView { addr, value: MbValueView::SingleReg(v) };
            let (s2, reply) = s.step(MbMessageCmdView::WriteSingleHoldingReg(p));
            &&& reply == Some(MbMessageReplyView::WriteSingleHoldingReg(p))
            &&& s2.holding_regs.len() == NUM_REGS
            &&& s2.holding_regs[addr as int] == v
            &&& forall|j: int|
                0 <= j < NUM_REGS && j != addr ==> #[trigger] s2.holding_regs[j] == s.holding_regs[j]
            &&& s2.coils == s.coils
        }),
{
}

/// The Modbus exception that answers a command with the given function code.
pub open spec fn exception_reply(code: u8, e: ModbusProtoExcepCode) -> Option<MbMessageReplyView> {
    Some(MbMessageReplyView::ModbusException(ModbusException { error_code: code, exception_code: e }))
}

/// How each read is refused, by its extent alone: an extent that reaches the highest address
/// is an illegal address (0x81 for coils, 0x83 for registers); otherwise an empty one, or one
/// longer than a read may return, is an illegal value. Reads never change the device.
pub proof fn lemma_read_refusals(s: MbState, e: MbExtent)
    ensures
        s.step(MbMessageCmdView::ReadCoils(e)).0 == s,
        s.step(MbMessageCmdView::ReadHoldingRegs(e)).0 == s,
        e.addr + e.quantity > MAX_COIL ==> s.step(MbMessageCmdView::ReadCoils(e)).1
            == exception_reply(0x81, ModbusProtoExcepCode::IllegalDataAddress),
        e.addr + e.quantity <= MAX_COIL && (e.quantity == 0 || e.quantity > MAX_READ_COILS)
            ==> s.step(MbMessageCmdView::ReadCoils(e)).1 == exception_reply(
            0x81,
            ModbusProtoExcepCode::IllegalDataValue,
        ),
        e.addr + e.quantity > MAX_REG ==> s.step(MbMessageCmdView::ReadHoldingRegs(e)).1
            == exception_reply(0x83, ModbusProtoExcepCode::IllegalDataAddress),
        e.addr + e.quantity <= MAX_REG && (e.quantity == 0 || e.quantity > MAX_READ_REGS)
            ==> s.step(MbMessageCmdView::ReadHoldingRegs(e)).1 == exception_reply(
            0x83,
            ModbusProtoExcepCode::IllegalDataValue,
        ),
{
}

/// How each block write is refused, by its packet alone: a block that reaches the highest
/// address is an illegal address; otherwise an empty one, or one longer than a write may
/// set, is an illegal value (0x90 for registers, 0x8f for coils); a value of the wrong kind is
/// an internal error. A refused write changes nothing.
pub proof fn lemma_block_write_refusals(s: MbState, p: MbPacketView)
    ensures
        match p.value {
            MbValueView::MultiReg(v) => {
                let (s2, r) = s.step(MbMessageCmdView::WriteMultipleHoldingRegs(p));
                &&& p.addr + v.len() > MAX_REG ==> r == exception_reply(
                    0x90,
                    ModbusProtoExcepCode::IllegalDataAddress,
                ) && s2 == s
                &&& p.addr + v.len() <= MAX_REG && (v.len() == 0 || v.len() > MAX_WRITE_REGS)
                    ==> r == exception_reply(0x90, ModbusProtoExcepCode::IllegalDataValue) && s2
                    == s
            },
            _ => s.step(MbMessageCmdView::WriteMultipleHoldingRegs(p)) == (
                s,
                Some(MbMessageReplyView::InternalError(MbFuncError::BadPacketType)),
            ),
        },
        match p.value {
            MbValueView::MultiCoil(v) => {
                let (s2, r) = s.step(MbMessageCmdView::WriteMultipleCoils(p));
                &&& p.addr + v.len() > MAX_REG ==> r == exception_reply(
                    0x8f,
                    ModbusProtoExcepCode::IllegalDataAddress,
                ) && s2 == s
                &&& p.addr + v.len() <= MAX_REG && (v.len() == 0 || v.len() > MAX_WRITE_COILS)
                    ==> r == exception_reply(0x8f, ModbusProtoExcepCode::IllegalDataValue) && s2
                    == s
            },
            _ => s.step(MbMessageCmdView::WriteMultipleCoils(p)) == (
                s,
                Some(MbMessageReplyView::InternalError(MbFuncError::BadPacketType)),
            ),
        },
{
}

/// A single write with a value of the wrong kind is an internal error and changes nothing.
pub proof fn lemma_single_write_refusals(s: MbState, p: MbPacketView)
    ensures
        !(p.value is SingleCoil) ==> s.step(MbMessageCmdView::WriteSingleCoil(p)) == (
            s,
            Some(MbMessageReplyView::InternalError(MbFuncError::BadPacketType)),
        ),
        !(p.value is SingleReg) ==> s.step(MbMessageCmdView::WriteSingleHoldingReg(p)) == (
            s,
            Some(MbMessageReplyView::InternalError(MbFuncError::BadPacketType)),
        ),
{
}

/// A read whose extent ends below the highest address and holds between one value and what
/// a read may return is accepted, and returns the stored values of the extent in order.
pub proof fn lemma_reads_accept_valid_extents(s: MbState, e: MbExtent)
    requires
        s.wf(),
    ensures
        e.addr + e.quantity <= MAX_COIL && 1 <= e.quantity <= MAX_READ_COILS ==> s.step(
            MbMessageCmdView::ReadCoils(e),
        ).1 == Some(
            MbMessageReplyView::ReadCoils(
                MbPacketView {
                    addr: e.addr,
                    value: MbValueView::MultiCoil(
                        Seq::new(e.quantity as nat, |k: int| s.coils[e.addr + k]),
                    ),
                },
            ),
        ),
        e.addr + e.quantity <= MAX_REG && 1 <= e.quantity <= MAX_READ_REGS ==> s.step(
            MbMessageCmdView::ReadHoldingRegs(e),
        ).1 == Some(
            MbMessageReplyView::ReadHoldingRegs(
                MbPacketView {
                    addr: e.addr,
                    value: MbValueView::MultiReg(
                        Seq::new(e.quantity as nat, |k: int| s.holding_regs[e.addr + k]),
                    ),
                },
            ),
        ),
{
    let a = e.addr as int;
    let q = e.quantity as int;
    if a + q <= MAX_COIL {
        assert(s.coils.subrange(a, a + q) =~= Seq::new(e.quantity as nat, |k: int| s.coils[a + k]));
        assert(s.holding_regs.subrange(a, a + q) =~= Seq::new(
            e.quantity as nat,
            |k: int| s.holding_regs[a + k],
        ));
    }
}

/// An accepted block write stores its values in order from its address and changes no
/// other coil or register.
pub proof fn lemma_block_write_stores_values(s: MbState, p: MbPacketView)
    requires
        s.wf(),
    ensures
        match p.value {
            MbValueView::MultiCoil(v) => p.addr + v.len() <= MAX_REG && 1 <= v.len()
                <= MAX_WRITE_COILS ==> {
                let s2 = s.step(MbMessageCmdView::WriteMultipleCoils(p)).0;
                &&& s2.holding_regs == s.holding_regs
                &&& s2.coils.len() == NUM_COILS
                &&& forall|j: int|
                    0 <= j < NUM_COILS ==> #[trigger] s2.coils[j] == if p.addr <= j < p.addr
                        + v.len() {
                        v[j - p.addr]
                    } else {
                        s.coils[j]
                    }
            },
            MbValueView::MultiReg(v) => p.addr + v.len() <= MAX_REG && 1 <= v.len()
                <= MAX_WRITE_REGS ==> {
                let s2 = s.step(MbMessageCmdView::WriteMultipleHoldingRegs(p)).0;
                &&& s2.coils == s.coils
                &&& s2.holding_regs.len() == NUM_REGS
                &&& forall|j: int|
                    0 <= j < NUM_REGS ==> #[trigger] s2.holding_regs[j] == if p.addr <= j
                        < p.addr + v.len() {
                        v[j - p.addr]
                    } else {
                        s.holding_regs[j]
                    }
            },
            _ => true,
        },
{
}

/// The numbers the Modbus specification gives the exception codes.
pub proof fn lemma_exception_code_numbers()
    ensures
        ModbusProtoExcepCode::IllegalFunction.spec_code() == 0x01,
        ModbusProtoExcepCode::IllegalDataAddress.spec_code() == 0x02,
        ModbusProtoExcepCode::IllegalDataValue.spec_code() == 0x03,
        ModbusProtoExcepCode::ServerDeviceFailure.spec_code() == 0x04,
        ModbusProtoExcepCode::Acknowledge.spec_code() == 0x05,
        ModbusProtoExcepCode::ServerDeviceBusy.spec_code() == 0x06,
        ModbusProtoExcepCode::MemoryParityError.spec_code() == 0x08,
        ModbusProtoExcepCode::GatewayPathUnavailable.spec_code() == 0x0a,
        ModbusProtoExcepCode::GatewayTargetDeviceNotResponding.spec_code() == 0x0b,
{
}

} // verus!
