use xous_core::i2c::{startup, I2cAction, I2cOpcode, I2cServer};
use xous_core::message::{Args, Body};

const NO_ARGS: Args = Args { arg1: 0, arg2: 0, arg3: 0, arg4: 0 };

fn scalar(arg1: usize) -> Body {
    Body::Scalar(Args { arg1, ..NO_ARGS })
}

fn suspend(token: usize) -> Vec<I2cAction> {
    vec![I2cAction::Suspend, I2cAction::SuspendUntilResume { token }, I2cAction::Resume]
}

#[test]
fn an_idle_bus_is_suspended_at_once() {
    let mut server = I2cServer::new();
    let id = I2cOpcode::SuspendResume.to_usize();
    assert_eq!(server.handle(id, scalar(7), false), suspend(7));
    assert_eq!(server.suspend_pending_token, None);
}

#[test]
fn a_busy_bus_is_suspended_when_it_is_done() {
    for (done, report) in [
        (I2cOpcode::IrqI2cTxrxWriteDone, I2cAction::ReportWriteDone),
        (I2cOpcode::IrqI2cTxrxReadDone, I2cAction::ReportReadDone),
    ] {
        let mut server = I2cServer::new();
        assert_eq!(server.handle(I2cOpcode::SuspendResume.to_usize(), scalar(7), true), vec![]);
        assert_eq!(server.suspend_pending_token, Some(7));
        let busy = server.handle(I2cOpcode::I2cIsBusy.to_usize(), Body::BlockingScalar(NO_ARGS), true);
        assert_eq!(busy, vec![I2cAction::Reply { value: 1 }]);
        let mut expected = suspend(7);
        expected.push(report);
        assert_eq!(server.handle(done.to_usize(), scalar(0), true), expected);
        assert_eq!(server.handle(done.to_usize(), scalar(0), true), vec![report]);
    }
}

#[test]
fn a_second_suspend_takes_the_place_of_the_first() {
    let mut server = I2cServer::new();
    server.handle(I2cOpcode::SuspendResume.to_usize(), scalar(1), true);
    server.handle(I2cOpcode::SuspendResume.to_usize(), scalar(2), true);
    assert_eq!(server.suspend_pending_token, Some(2));
}

#[test]
fn transactions_are_started() {
    let mut server = I2cServer::new();
    let id = I2cOpcode::I2cTxRx.to_usize();
    assert!(I2cServer::accepts(id, Body::Memory));
    assert!(!I2cServer::accepts(id, scalar(0)));
    assert!(I2cServer::accepts(99, scalar(0)));
    assert_eq!(server.handle(id, Body::Memory, false), vec![I2cAction::Initiate]);
    let idle = server.handle(I2cOpcode::I2cIsBusy.to_usize(), Body::BlockingScalar(NO_ARGS), false);
    assert_eq!(idle, vec![I2cAction::Reply { value: 0 }]);
}

#[test]
fn i2c_messages_of_the_wrong_kind_are_noted() {
    let mut server = I2cServer::new();
    server.handle(I2cOpcode::SuspendResume.to_usize(), scalar(3), true);
    for opcode in [
        I2cOpcode::SuspendResume,
        I2cOpcode::IrqI2cTxrxWriteDone,
        I2cOpcode::IrqI2cTxrxReadDone,
        I2cOpcode::I2cIsBusy,
    ] {
        let noted = server.handle(opcode.to_usize(), Body::Memory, false);
        assert_eq!(noted, vec![I2cAction::NoteWrongKind]);
    }
    assert_eq!(server.handle(6, scalar(0), false), vec![I2cAction::NoteUnknownOpcode]);
    assert_eq!(server.suspend_pending_token, Some(3));
}

#[test]
fn the_i2c_server_quits() {
    let mut server = I2cServer::new();
    let end = server.handle(I2cOpcode::Quit.to_usize(), Body::Memory, true);
    assert_eq!(end, vec![I2cAction::UnregisterServer, I2cAction::DestroyServer]);
    assert!(!server.running);
}

#[test]
fn numbers_of_the_i2c_opcodes() {
    for id in 0..6 {
        assert_eq!(I2cOpcode::from_usize(id).map(|opcode| opcode.to_usize()), Some(id));
    }
    assert_eq!(I2cOpcode::from_usize(6), None);
}

#[test]
fn start_of_the_i2c_server() {
    let id = I2cOpcode::SuspendResume.to_usize();
    assert_eq!(startup(), vec![I2cAction::OpenBus, I2cAction::HookSuspend { id, late: false }]);
}
