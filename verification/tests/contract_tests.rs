//! Edge cases, error variants and the laws of the engine, on concrete values.
use std::sync::mpsc;
use std::time::Duration;

use simplemodbus::{
    MbCore, MbExtent, MbFuncError, MbMessage, MbMessageCmd, MbMessageReply, MbPacket, MbValue,
    ModbusException, ModbusProtoExcepCode, ServeOutcome, MAX_COIL, MAX_REG,
};

fn read_coils(core: &MbCore, addr: u16, quantity: u16) -> Vec<bool> {
    match core.read_coils(&MbExtent { addr, quantity }) {
        Ok(MbMessageReply::ReadCoils(MbPacket { value: MbValue::MultiCoil(v), .. })) => v,
        other => panic!("unexpected read result {:?}", other),
    }
}

fn read_regs(core: &MbCore, addr: u16, quantity: u16) -> Vec<u16> {
    match core.read_holding_regs(&MbExtent { addr, quantity }) {
        Ok(MbMessageReply::ReadHoldingRegs(MbPacket { value: MbValue::MultiReg(v), .. })) => v,
        other => panic!("unexpected read result {:?}", other),
    }
}

fn exception(code: u8, e: ModbusProtoExcepCode) -> MbMessageReply {
    MbMessageReply::ModbusException(ModbusException { error_code: code, exception_code: e })
}

#[test]
fn new_core_is_all_off_and_zero() {
    let core = MbCore::new();
    assert_eq!(read_coils(&core, 0, 0x7d0), vec![false; 0x7d0]);
    assert_eq!(read_regs(&core, 65534 - 0x7d + 1, 0x7d), vec![0u16; 0x7d]);
}

#[test]
fn load_bulk_errors() {
    let mut core = MbCore::new();
    // ending beyond NUM_COILS is refused
    let p = MbPacket { addr: MAX_REG as u16, value: MbValue::MultiReg(vec![1, 2]) };
    assert_eq!(core.load_bulk(p), Err(MbFuncError::BadLoadAddress));
    let p = MbPacket { addr: 65530, value: MbValue::MultiCoil(vec![true; 7]) };
    assert_eq!(core.load_bulk(p), Err(MbFuncError::BadLoadAddress));
    assert_eq!(read_coils(&core, 65529, 6), vec![false; 6]);
    // ending exactly at NUM_COILS is accepted
    let p = MbPacket { addr: 65530, value: MbValue::MultiCoil(vec![true; 6]) };
    assert_eq!(core.load_bulk(p), Ok(()));
    assert_eq!(read_coils(&core, 65529, 6), vec![false, true, true, true, true, true]);
    // an empty load at the highest address changes nothing
    let p = MbPacket { addr: MAX_REG as u16, value: MbValue::MultiReg(vec![]) };
    assert_eq!(core.load_bulk(p), Ok(()));
    // single values cannot be bulk-loaded
    let p = MbPacket { addr: 0, value: MbValue::SingleReg(7) };
    assert_eq!(core.load_bulk(p), Err(MbFuncError::BadPacketType));
    let p = MbPacket { addr: 0, value: MbValue::SingleCoil(true) };
    assert_eq!(core.load_bulk(p), Err(MbFuncError::BadPacketType));
}

#[test]
fn last_register_can_be_loaded() {
    let mut core = MbCore::new();
    let p = MbPacket { addr: 65535, value: MbValue::MultiReg(vec![42]) };
    assert_eq!(core.load_bulk(p), Ok(()));
    // it cannot be read back: every read must end below it
    assert_eq!(
        core.read_holding_regs(&MbExtent { addr: 65535, quantity: 1 }),
        Err(MbFuncError::MbProtoExcep(ModbusProtoExcepCode::IllegalDataAddress))
    );
    // the last coil can be loaded too
    let p = MbPacket { addr: 65535, value: MbValue::MultiCoil(vec![true]) };
    assert_eq!(core.load_bulk(p), Ok(()));
}

#[test]
fn load_bulk_is_not_bound_by_protocol_limits() {
    let mut core = MbCore::new();
    let regs: Vec<u16> = (0..1000).collect();
    let p = MbPacket { addr: 100, value: MbValue::MultiReg(regs.clone()) };
    assert_eq!(core.load_bulk(p), Ok(()));
    assert_eq!(read_regs(&core, 100, 0x7d), regs[..0x7d].to_vec());
    assert_eq!(read_regs(&core, 1000, 0x7d), regs[900..1000].iter().copied().chain(std::iter::repeat(0).take(0x7d - 100)).collect::<Vec<u16>>());
}

#[test]
fn read_limits() {
    let core = MbCore::new();
    let addr_err = Err(MbFuncError::MbProtoExcep(ModbusProtoExcepCode::IllegalDataAddress));
    let value_err = Err(MbFuncError::MbProtoExcep(ModbusProtoExcepCode::IllegalDataValue));
    assert_eq!(core.read_coils(&MbExtent { addr: 0, quantity: 0 }), value_err);
    assert_eq!(core.read_coils(&MbExtent { addr: 0, quantity: 0x7d1 }), value_err);
    assert_eq!(core.read_coils(&MbExtent { addr: MAX_COIL as u16, quantity: 1 }), addr_err);
    assert_eq!(core.read_coils(&MbExtent { addr: 65000, quantity: 600 }), addr_err);
    // the address check comes first
    assert_eq!(core.read_coils(&MbExtent { addr: MAX_COIL as u16, quantity: 0 }), value_err);
    assert_eq!(core.read_coils(&MbExtent { addr: 65535, quantity: 0x7d1 }), addr_err);
    assert_eq!(read_coils(&core, 65534, 1), vec![false]);

    assert_eq!(core.read_holding_regs(&MbExtent { addr: 0, quantity: 0 }), value_err);
    assert_eq!(core.read_holding_regs(&MbExtent { addr: 0, quantity: 0x7e }), value_err);
    assert_eq!(core.read_holding_regs(&MbExtent { addr: 65535, quantity: 1 }), addr_err);
    assert_eq!(read_regs(&core, 0, 0x7d).len(), 0x7d);
}

#[test]
fn write_limits() {
    let mut core = MbCore::new();
    let addr_err = Err(MbFuncError::MbProtoExcep(ModbusProtoExcepCode::IllegalDataAddress));
    let value_err = Err(MbFuncError::MbProtoExcep(ModbusProtoExcepCode::IllegalDataValue));

    let p = MbPacket { addr: 0, value: MbValue::MultiReg(vec![1; 0x7c]) };
    assert_eq!(core.write_multiple_holding_regs(p), value_err);
    let p = MbPacket { addr: 0, value: MbValue::MultiReg(vec![]) };
    assert_eq!(core.write_multiple_holding_regs(p), value_err);
    let p = MbPacket { addr: 65530, value: MbValue::MultiReg(vec![1; 6]) };
    assert_eq!(core.write_multiple_holding_regs(p), addr_err);
    let p = MbPacket { addr: 0, value: MbValue::MultiCoil(vec![true]) };
    assert_eq!(core.write_multiple_holding_regs(p), Err(MbFuncError::BadPacketType));

    let p = MbPacket { addr: 0, value: MbValue::MultiCoil(vec![true; 0x7b1]) };
    assert_eq!(core.write_multiple_coils(p), value_err);
    let p = MbPacket { addr: 0, value: MbValue::MultiCoil(vec![true; 0x7b0]) };
    assert_eq!(
        core.write_multiple_coils(p),
        Ok(MbMessageReply::WriteMultipleCoils(MbExtent { addr: 0, quantity: 0x7b0 }))
    );
    let p = MbPacket { addr: 0, value: MbValue::MultiReg(vec![1]) };
    assert_eq!(core.write_multiple_coils(p), Err(MbFuncError::BadPacketType));

    let p = MbPacket { addr: 3, value: MbValue::SingleReg(9) };
    assert_eq!(core.write_single_coil(p), Err(MbFuncError::BadPacketType));
    let p = MbPacket { addr: 3, value: MbValue::SingleCoil(true) };
    assert_eq!(core.write_single_holding_reg(p), Err(MbFuncError::BadPacketType));

    // the highest address can be written singly
    let p = MbPacket { addr: 65535, value: MbValue::SingleReg(0xbeef) };
    assert_eq!(
        core.write_single_holding_reg(p.clone()),
        Ok(MbMessageReply::WriteSingleHoldingReg(p))
    );
}

#[test]
fn exception_replies_carry_function_code_with_high_bit() {
    let mut core = MbCore::new();
    let bad_extent = MbExtent { addr: 0, quantity: 0 };
    assert_eq!(
        core.handle_command(MbMessageCmd::ReadCoils(bad_extent)),
        Some(exception(0x81, ModbusProtoExcepCode::IllegalDataValue))
    );
    assert_eq!(
        core.handle_command(MbMessageCmd::ReadHoldingRegs(bad_extent)),
        Some(exception(0x83, ModbusProtoExcepCode::IllegalDataValue))
    );
    let p = MbPacket { addr: 65535, value: MbValue::MultiReg(vec![1, 2]) };
    assert_eq!(
        core.handle_command(MbMessageCmd::WriteMultipleHoldingRegs(p)),
        Some(exception(0x90, ModbusProtoExcepCode::IllegalDataAddress))
    );
    let p = MbPacket { addr: 65535, value: MbValue::MultiCoil(vec![true]) };
    assert_eq!(
        core.handle_command(MbMessageCmd::WriteMultipleCoils(p)),
        Some(exception(0x8f, ModbusProtoExcepCode::IllegalDataAddress))
    );
    let p = MbPacket { addr: 1, value: MbValue::SingleReg(1) };
    assert_eq!(
        core.handle_command(MbMessageCmd::WriteSingleCoil(p)),
        Some(MbMessageReply::InternalError(MbFuncError::BadPacketType))
    );
    assert_eq!(core.handle_command(MbMessageCmd::Shutdown), None);
}

#[test]
fn exception_code_numbers() {
    assert_eq!(ModbusProtoExcepCode::IllegalFunction.code(), 0x01);
    assert_eq!(ModbusProtoExcepCode::IllegalDataAddress.code(), 0x02);
    assert_eq!(ModbusProtoExcepCode::IllegalDataValue.code(), 0x03);
    assert_eq!(ModbusProtoExcepCode::ServerDeviceFailure.code(), 0x04);
    assert_eq!(ModbusProtoExcepCode::Acknowledge.code(), 0x05);
    assert_eq!(ModbusProtoExcepCode::ServerDeviceBusy.code(), 0x06);
    assert_eq!(ModbusProtoExcepCode::MemoryParityError.code(), 0x08);
    assert_eq!(ModbusProtoExcepCode::GatewayPathUnavailable.code(), 0x0a);
    assert_eq!(ModbusProtoExcepCode::GatewayTargetDeviceNotResponding.code(), 0x0b);
}

#[test]
fn write_then_read_single_values() {
    let mut core = MbCore::new();
    let p = MbPacket { addr: 65534, value: MbValue::SingleCoil(true) };
    assert_eq!(core.handle_command(MbMessageCmd::WriteSingleCoil(p.clone())), Some(MbMessageReply::WriteSingleCoil(p)));
    assert_eq!(read_coils(&core, 65534, 1), vec![true]);
    let p = MbPacket { addr: 7, value: MbValue::SingleReg(0x1234) };
    assert_eq!(core.handle_command(MbMessageCmd::WriteSingleHoldingReg(p.clone())), Some(MbMessageReply::WriteSingleHoldingReg(p)));
    assert_eq!(read_regs(&core, 7, 1), vec![0x1234]);
}

#[test]
fn writes_touch_only_their_addresses() {
    let mut core = MbCore::new();
    let p = MbPacket { addr: 0, value: MbValue::MultiCoil(vec![true; 20]) };
    assert!(core.load_bulk(p).is_ok());
    let p = MbPacket { addr: 0, value: MbValue::MultiReg(vec![5; 20]) };
    assert!(core.load_bulk(p).is_ok());

    let p = MbPacket { addr: 10, value: MbValue::MultiCoil(vec![false, false, false]) };
    assert!(core.handle_command(MbMessageCmd::WriteMultipleCoils(p)).is_some());
    let mut expected = vec![true; 20];
    expected[10] = false;
    expected[11] = false;
    expected[12] = false;
    assert_eq!(read_coils(&core, 0, 20), expected);
    assert_eq!(read_regs(&core, 0, 20), vec![5; 20]);

    let p = MbPacket { addr: 4, value: MbValue::SingleReg(9) };
    assert!(core.handle_command(MbMessageCmd::WriteSingleHoldingReg(p)).is_some());
    let mut expected_regs = vec![5u16; 20];
    expected_regs[4] = 9;
    assert_eq!(read_regs(&core, 0, 20), expected_regs);
    assert_eq!(read_coils(&core, 0, 20), expected);
}

#[test]
fn refused_commands_change_nothing() {
    let mut core = MbCore::new();
    let p = MbPacket { addr: 65530, value: MbValue::MultiCoil(vec![true; 10]) };
    assert!(matches!(
        core.handle_command(MbMessageCmd::WriteMultipleCoils(p)),
        Some(MbMessageReply::ModbusException(_))
    ));
    let p = MbPacket { addr: 0, value: MbValue::MultiReg(vec![3; 0x7c]) };
    assert!(matches!(
        core.handle_command(MbMessageCmd::WriteMultipleHoldingRegs(p)),
        Some(MbMessageReply::ModbusException(_))
    ));
    let p = MbPacket { addr: 0, value: MbValue::MultiCoil(vec![true; 3]) };
    assert!(matches!(
        core.handle_command(MbMessageCmd::WriteSingleCoil(p)),
        Some(MbMessageReply::InternalError(MbFuncError::BadPacketType))
    ));
    assert_eq!(read_coils(&core, 0, 0x7d0), vec![false; 0x7d0]);
    assert_eq!(read_coils(&core, 65534 - 0x7d0 + 1, 0x7d0), vec![false; 0x7d0]);
    assert_eq!(read_regs(&core, 0, 0x7d), vec![0; 0x7d]);
}

#[test]
fn later_single_write_wins() {
    let mut core = MbCore::new();
    for v in [true, false, true] {
        let p = MbPacket { addr: 42, value: MbValue::SingleCoil(v) };
        core.handle_command(MbMessageCmd::WriteSingleCoil(p));
    }
    assert_eq!(read_coils(&core, 42, 1), vec![true]);
    for v in [1u16, 2, 3] {
        let p = MbPacket { addr: 42, value: MbValue::SingleReg(v) };
        core.handle_command(MbMessageCmd::WriteSingleHoldingReg(p));
    }
    assert_eq!(read_regs(&core, 42, 1), vec![3]);
}

#[test]
fn message_without_reply_channel_is_ignored() {
    let mut core = MbCore::new();
    let p = MbPacket { addr: 5, value: MbValue::SingleCoil(true) };
    let msg = MbMessage { cmd: MbMessageCmd::WriteSingleCoil(p), reply_tx: None };
    assert!(matches!(core.handle_message(msg), ServeOutcome::Silent));
    assert_eq!(read_coils(&core, 5, 1), vec![false]);
}

#[test]
fn message_reply_goes_with_its_channel() {
    let mut core = MbCore::new();
    let (tx, rx) = mpsc::channel();
    let p = MbPacket { addr: 5, value: MbValue::SingleCoil(true) };
    let msg = MbMessage { cmd: MbMessageCmd::WriteSingleCoil(p.clone()), reply_tx: Some(tx) };
    match core.handle_message(msg) {
        ServeOutcome::Reply(reply, reply_tx) => {
            assert_eq!(reply, MbMessageReply::WriteSingleCoil(p));
            reply_tx.send(reply).unwrap();
        }
        other => panic!("unexpected outcome {:?}", other),
    }
    assert!(rx.recv_timeout(Duration::from_millis(50)).is_ok());
    assert_eq!(read_coils(&core, 5, 1), vec![true]);
}

#[test]
fn overlong_writes_are_refused_as_bad_address() {
    let mut core = MbCore::new();
    let addr_err = Err(MbFuncError::MbProtoExcep(ModbusProtoExcepCode::IllegalDataAddress));
    let p = MbPacket { addr: 0, value: MbValue::MultiCoil(vec![true; 65536]) };
    assert_eq!(core.write_multiple_coils(p), addr_err);
    let p = MbPacket { addr: 0, value: MbValue::MultiReg(vec![1; 70000]) };
    assert_eq!(core.write_multiple_holding_regs(p), addr_err);
    let p = MbPacket { addr: 0, value: MbValue::MultiReg(vec![1; 65536]) };
    assert_eq!(
        core.handle_command(MbMessageCmd::WriteMultipleHoldingRegs(p)),
        Some(exception(0x90, ModbusProtoExcepCode::IllegalDataAddress))
    );
    assert_eq!(read_coils(&core, 0, 1), vec![false]);
    assert_eq!(read_regs(&core, 0, 1), vec![0]);
}

#[test]
fn shutdown_message_stops_even_with_reply_channel() {
    let mut core = MbCore::new();
    let (tx, rx) = mpsc::channel();
    let msg = MbMessage { cmd: MbMessageCmd::Shutdown, reply_tx: Some(tx) };
    assert!(matches!(core.handle_message(msg), ServeOutcome::Shutdown));
    assert!(rx.recv_timeout(Duration::from_millis(50)).is_err());
}

#[test]
fn serve_one_is_idle_on_empty_channel() {
    let mut core = MbCore::new();
    assert!(matches!(core.serve_one(), ServeOutcome::Idle));
}

#[test]
fn serve_one_takes_messages_in_order() {
    let mut core = MbCore::new();
    let cmd_tx = core.get_channel();
    let (tx, rx) = mpsc::channel();
    let p = MbPacket { addr: 3, value: MbValue::SingleReg(77) };
    cmd_tx
        .send(MbMessage { cmd: MbMessageCmd::WriteSingleHoldingReg(p.clone()), reply_tx: Some(tx.clone()) })
        .unwrap();
    cmd_tx
        .send(MbMessage { cmd: MbMessageCmd::ReadHoldingRegs(MbExtent { addr: 3, quantity: 1 }), reply_tx: Some(tx) })
        .unwrap();
    for _ in 0..2 {
        match core.serve_one() {
            ServeOutcome::Reply(reply, reply_tx) => reply_tx.send(reply).unwrap(),
            other => panic!("unexpected outcome {:?}", other),
        }
    }
    assert!(matches!(core.serve_one(), ServeOutcome::Idle));
    assert_eq!(rx.recv().unwrap(), MbMessageReply::WriteSingleHoldingReg(p));
    assert_eq!(
        rx.recv().unwrap(),
        MbMessageReply::ReadHoldingRegs(MbPacket { addr: 3, value: MbValue::MultiReg(vec![77]) })
    );
}

#[test]
fn load_then_read_back() {
    let mut core = MbCore::new();
    let coils = vec![true, false, false, true, true];
    let p = MbPacket { addr: 60000, value: MbValue::MultiCoil(coils.clone()) };
    assert_eq!(core.load_bulk(p), Ok(()));
    assert_eq!(read_coils(&core, 60000, 5), coils);
    let regs = vec![0xffff, 0, 0x8000];
    let p = MbPacket { addr: 65532, value: MbValue::MultiReg(regs.clone()) };
    assert_eq!(core.load_bulk(p), Ok(()));
    assert_eq!(read_regs(&core, 65532, 3), regs);
}
