use xous_core::callbacks::{EventCallback, ScalarHook, ScalarMessage};
use xous_core::llio::{
    answer, connect_request, startup, Action, AdcInput, BoardCommand, Config, EventSource, Llio, Opcode, Query,
    Reading, Service,
};
use xous_core::message::{Args, Body};
use xous_core::i2c::I2cOpcode;
use xous_core::rtc::{AlarmRequest, RegisterWrite};

const HARDWARE: Config = Config { hosted: false, tts: false, wfi_off: false };
const HOSTED: Config = Config { hosted: true, tts: false, wfi_off: false };

fn args(arg1: usize, arg2: usize) -> Args {
    Args { arg1, arg2, arg3: 0, arg4: 0 }
}

fn scalar(arg1: usize) -> Body {
    Body::Scalar(args(arg1, 0))
}

fn blocking(arg1: usize) -> Body {
    Body::BlockingScalar(args(arg1, 0))
}

fn handle(llio: &mut Llio, opcode: Opcode, body: Body) -> Vec<Action> {
    assert!(llio.accepts(opcode.to_usize(), body));
    llio.handle(opcode.to_usize(), body)
}

fn hook(n: u32) -> ScalarHook {
    ScalarHook { sid: (n, n, n, n), id: 100 + n, cid: 200 + n }
}

fn event(n: u32, which: usize) -> Action {
    Action::TrySend(ScalarMessage {
        connection: n,
        opcode: EventCallback::Event,
        args: (200 + n as usize, 100 + n as usize, which, 0),
    })
}

fn farewell(n: u32) -> Action {
    Action::SendAndDisconnect(ScalarMessage {
        connection: n,
        opcode: EventCallback::Drop,
        args: (0, 0, 0, 0),
    })
}

fn clock(register: u8, value: u8) -> Action {
    Action::WriteClock(RegisterWrite { device: 0x68, register, value })
}

#[test]
fn numbers_of_the_opcodes() {
    for id in 0..57 {
        assert_eq!(Opcode::from_usize(id).map(|opcode| opcode.to_usize()), Some(id));
    }
    assert_eq!(Opcode::from_usize(57), None);
    assert_eq!(Opcode::from_usize(usize::MAX), None);
}

#[test]
fn start_of_the_server() {
    let mut expected = vec![
        Action::RegisterServer { service: Service::Llio, max_connections: None },
        Action::RegisterServer { service: Service::I2c, max_connections: Some(3) },
        Action::StartI2cServer,
        Action::OpenBoard,
        Action::Board(BoardCommand::EcPowerOn),
        Action::HookSuspend { id: Opcode::SuspendResume.to_usize(), late: true },
        Action::OpenClock,
    ];
    assert_eq!(startup(HARDWARE), expected);
    expected.insert(5, Action::Board(BoardCommand::WfiOverride(true)));
    assert_eq!(startup(Config { wfi_off: true, ..HARDWARE }), expected);
}

#[test]
fn plain_commands() {
    let mut llio = Llio::new(HARDWARE);
    let cases = [
        (Opcode::GpioDataOut, 5, BoardCommand::GpioDout(5)),
        (Opcode::GpioDataDrive, 6, BoardCommand::GpioDrive(6)),
        (Opcode::GpioIntMask, 7, BoardCommand::GpioIntMask(7)),
        (Opcode::GpioIntAsFalling, 8, BoardCommand::GpioIntAsFalling(8)),
        (Opcode::GpioIntEna, 9, BoardCommand::GpioIntEna(9)),
        (Opcode::DebugPowerdown, 0, BoardCommand::DebugPowerdown(false)),
        (Opcode::DebugPowerdown, 2, BoardCommand::DebugPowerdown(true)),
        (Opcode::DebugWakeup, 1, BoardCommand::DebugWakeup(true)),
        (Opcode::UartMux, 2, BoardCommand::SetUartMux(2)),
        (Opcode::PowerSelf, 0, BoardCommand::PowerSelf(false)),
        (Opcode::PowerBoostMode, 1, BoardCommand::PowerBoostMode(true)),
        (Opcode::EcSnoopAllow, 1, BoardCommand::EcSnoopAllow(true)),
        (Opcode::EcReset, 1, BoardCommand::EcReset),
        (Opcode::EcPowerOn, 0, BoardCommand::EcPowerOn),
        (Opcode::SelfDestruct, 0x2718_2818, BoardCommand::SelfDestruct(0x2718_2818)),
        (Opcode::Vibe, 1, BoardCommand::Vibe(1)),
        (Opcode::EventComEnable, 1, BoardCommand::ComIntEna(true)),
        (Opcode::EventRtcEnable, 0, BoardCommand::RtcIntEna(false)),
        (Opcode::EventUsbAttachEnable, 1, BoardCommand::UsbIntEna(true)),
    ];
    for (opcode, arg, command) in cases {
        assert_eq!(handle(&mut llio, opcode, scalar(arg)), vec![Action::Board(command)]);
        let noted = handle(&mut llio, opcode, blocking(arg));
        assert_eq!(noted, vec![Action::NoteWrongKind]);
    }
}

#[test]
fn confirmed_commands() {
    let mut llio = Llio::new(HARDWARE);
    let cases = [
        (Opcode::PowerAudio, 0, BoardCommand::PowerAudio(false)),
        (Opcode::PowerCrypto, 1, BoardCommand::PowerCrypto(true)),
        (Opcode::WfiOverride, 9, BoardCommand::WfiOverride(true)),
    ];
    for (opcode, arg, command) in cases {
        let actions = handle(&mut llio, opcode, blocking(arg));
        assert_eq!(actions, vec![Action::Board(command), Action::Reply { value: 0 }]);
        let noted = handle(&mut llio, opcode, scalar(arg));
        assert_eq!(noted, vec![Action::NoteWrongKind]);
    }
}

#[test]
fn queries() {
    let mut llio = Llio::new(HARDWARE);
    let cases = [
        (Opcode::GpioDataIn, Query::GpioDin),
        (Opcode::GpioIntPending, Query::GpioIntPending),
        (Opcode::InfoDna, Query::InfoDna),
        (Opcode::InfoGit, Query::InfoGit),
        (Opcode::InfoPlatform, Query::InfoPlatform),
        (Opcode::InfoTarget, Query::InfoTarget),
        (Opcode::PowerCryptoStatus, Query::PowerCryptoStatus),
        (Opcode::AdcVbus, Query::Adc(AdcInput::Vbus)),
        (Opcode::AdcVccInt, Query::Adc(AdcInput::VccInt)),
        (Opcode::AdcVccAux, Query::Adc(AdcInput::VccAux)),
        (Opcode::AdcVccBram, Query::Adc(AdcInput::VccBram)),
        (Opcode::AdcUsbN, Query::Adc(AdcInput::UsbN)),
        (Opcode::AdcUsbP, Query::Adc(AdcInput::UsbP)),
        (Opcode::AdcTemperature, Query::Adc(AdcInput::Temperature)),
        (Opcode::AdcGpio5, Query::Adc(AdcInput::Gpio5)),
        (Opcode::AdcGpio2, Query::Adc(AdcInput::Gpio2)),
    ];
    for (opcode, query) in cases {
        assert_eq!(handle(&mut llio, opcode, blocking(0)), vec![Action::Ask(query)]);
        assert_eq!(handle(&mut llio, opcode, Body::Memory), vec![Action::NoteWrongKind]);
    }
}

#[test]
fn answers_to_queries() {
    let word = answer(Query::Adc(AdcInput::Vbus), Reading::Word(1234));
    assert_eq!(word, Action::Reply { value: 1234 });
    let pair = answer(Query::InfoDna, Reading::Pair(1, 2));
    assert_eq!(pair, Action::Reply2 { first: 1, second: 2 });
    let flags = [false, true];
    for sha in flags {
        for engine in flags {
            for force in flags {
                let reading = Reading::Crypto { sha, engine, force };
                let value = sha as usize | (engine as usize) << 1 | (force as usize) << 2;
                assert_eq!(answer(Query::PowerCryptoStatus, reading), Action::Reply { value });
            }
        }
    }
}

#[test]
fn alarms_over_messages() {
    let mut llio = Llio::new(HARDWARE);
    assert_eq!(
        handle(&mut llio, Opcode::SetWakeupAlarm, blocking(5)),
        vec![
            clock(2, 0),
            clock(0x12, 0x72),
            clock(0x13, 5),
            clock(1, 1),
            clock(0xf, 0x39),
            Action::Reply { value: 0 },
        ]
    );
    assert_eq!(
        handle(&mut llio, Opcode::SetRtcAlarm, blocking(6)),
        vec![
            clock(2, 0),
            clock(0x10, 0x72),
            clock(0x11, 6),
            clock(1, 3),
            clock(0xf, 0xbb),
            Action::Reply { value: 0 },
        ]
    );
    let note = |request| Action::NoteDelayTooLong { request, max_delay: 255 };
    assert_eq!(
        handle(&mut llio, Opcode::SetRtcAlarm, blocking(256)),
        vec![note(AlarmRequest::SetRtcAlarm { delay: 256 }), Action::Reply { value: 1 }]
    );
    assert_eq!(
        handle(&mut llio, Opcode::SetWakeupAlarm, blocking(1000)),
        vec![note(AlarmRequest::SetWakeupAlarm { delay: 1000 }), Action::Reply { value: 1 }]
    );
    assert_eq!(
        handle(&mut llio, Opcode::ClearRtcAlarm, blocking(0)),
        vec![clock(0xf, 0x79), clock(1, 1), Action::Reply { value: 0 }]
    );
    assert_eq!(
        handle(&mut llio, Opcode::ClearWakeupAlarm, blocking(0)),
        vec![clock(2, 0), clock(0xf, 0x38), clock(1, 0), Action::Reply { value: 0 }]
    );
    let count = handle(&mut llio, Opcode::GetRtcCount, blocking(0));
    assert_eq!(count, vec![Action::Reply2 { first: 0, second: 0 }]);
    assert_eq!(handle(&mut llio, Opcode::GetSessionOffset, blocking(0)), vec![]);
}

#[test]
fn redraw_is_forced_once_after_a_suspend() {
    let mut llio = Llio::new(HARDWARE);
    let ask = |force_update| Action::Ask(Query::UsbDisable { force_update });
    assert_eq!(handle(&mut llio, Opcode::DebugUsbOp, blocking(0)), vec![ask(true)]);
    assert_eq!(handle(&mut llio, Opcode::DebugUsbOp, blocking(0)), vec![ask(false)]);
    assert_eq!(
        handle(&mut llio, Opcode::SuspendResume, scalar(77)),
        vec![
            Action::Board(BoardCommand::Suspend),
            Action::SuspendUntilResume { token: 77 },
            Action::Board(BoardCommand::Resume),
        ]
    );
    assert_eq!(
        handle(&mut llio, Opcode::DebugUsbOp, Body::BlockingScalar(args(1, 1))),
        vec![Action::Board(BoardCommand::SetUsbDisable(true)), ask(true)]
    );
    assert_eq!(
        handle(&mut llio, Opcode::DebugUsbOp, Body::BlockingScalar(args(1, 0))),
        vec![Action::Board(BoardCommand::SetUsbDisable(false)), ask(false)]
    );
    let unlocked = answer(Query::UsbDisable { force_update: true }, Reading::Flag(false));
    assert_eq!(unlocked, Action::Reply2 { first: 0, second: 1 });
    let locked = answer(Query::UsbDisable { force_update: false }, Reading::Flag(true));
    assert_eq!(locked, Action::Reply2 { first: 1, second: 0 });
}

#[test]
fn sleep_is_indicated_while_suspended() {
    let mut llio = Llio::new(Config { tts: true, ..HARDWARE });
    assert_eq!(
        handle(&mut llio, Opcode::SuspendResume, scalar(1)),
        vec![
            Action::Board(BoardCommand::Suspend),
            Action::Board(BoardCommand::TtsSleepIndicate),
            Action::SuspendUntilResume { token: 1 },
            Action::Board(BoardCommand::Resume),
            Action::Board(BoardCommand::VibeDouble),
        ]
    );
}

#[test]
fn activity_is_the_latest_one() {
    let mut llio = Llio::new(HARDWARE);
    assert_eq!(handle(&mut llio, Opcode::EventActivityHappened, scalar(4321)), vec![]);
    let query = Query::ActivityPeriod { latest_activity: 4321 };
    assert_eq!(handle(&mut llio, Opcode::GetActivity, blocking(0)), vec![Action::Ask(query)]);
    let reply = answer(query, Reading::Word(9000));
    assert_eq!(reply, Action::Reply2 { first: 4321, second: 9000 });
}

#[test]
fn hosted_activity_is_made_up() {
    let mut llio = Llio::new(HOSTED);
    for n in 0..45usize {
        let first = (n * 600) % 12_000;
        assert_eq!(
            handle(&mut llio, Opcode::GetActivity, blocking(0)),
            vec![Action::Reply2 { first, second: 12_000 }]
        );
    }
    handle(&mut llio, Opcode::EventActivityHappened, scalar(u32::MAX as usize));
    assert!(!llio.accepts(Opcode::GetActivity.to_usize(), blocking(0)));
}

#[test]
fn subscribers_hear_of_their_source_only() {
    let mut llio = Llio::new(HARDWARE);
    let cases = [
        (Opcode::EventUsbAttachSubscribe, Opcode::EventUsbHappened, EventSource::Usb),
        (Opcode::EventComSubscribe, Opcode::EventComHappened, EventSource::Com),
        (Opcode::EventRtcSubscribe, Opcode::EventRtcHappened, EventSource::Rtc),
        (Opcode::GpioIntSubscribe, Opcode::GpioIntHappened, EventSource::Gpio),
    ];
    for (n, (subscribe, happened, source)) in cases.into_iter().enumerate() {
        let n = n as u32;
        assert_eq!(handle(&mut llio, happened, scalar(17)), vec![]);
        let connect = handle(&mut llio, subscribe, Body::Memory);
        assert_eq!(connect, vec![Action::TakeHook { source }]);
        assert_eq!(
            connect_request(source, hook(n)),
            Action::Connect { sid: (n, n, n, n), source, hookdata: hook(n) }
        );
        assert!(llio.do_hook(source, hook(n), n));
        let which = if source == EventSource::Gpio { 17 } else { 0 };
        assert_eq!(handle(&mut llio, happened, scalar(17)), vec![event(n, which)]);
    }
}

#[test]
fn a_table_of_subscribers_fills_up() {
    let mut llio = Llio::new(HARDWARE);
    for n in 0..32 {
        assert!(llio.do_hook(EventSource::Com, hook(n), n));
    }
    assert!(!llio.do_hook(EventSource::Com, hook(32), 32));
    assert!(llio.do_hook(EventSource::Rtc, hook(32), 32));
    assert_eq!(handle(&mut llio, Opcode::EventComHappened, Body::Memory).len(), 32);
}

#[test]
fn quitting_tells_every_subscriber() {
    let mut llio = Llio::new(HARDWARE);
    llio.do_hook(EventSource::Usb, hook(1), 1);
    llio.do_hook(EventSource::Com, hook(2), 2);
    llio.do_hook(EventSource::Com, hook(3), 3);
    llio.do_hook(EventSource::Rtc, hook(4), 4);
    llio.do_hook(EventSource::Gpio, hook(5), 5);
    assert_eq!(
        handle(&mut llio, Opcode::Quit, scalar(0)),
        vec![
            Action::SendToI2cServer { id: I2cOpcode::Quit.to_usize(), args: args(0, 0) },
            farewell(2),
            farewell(3),
            farewell(4),
            farewell(1),
            farewell(5),
            Action::UnregisterServer,
            Action::DestroyServer,
            Action::Terminate { code: 0 },
        ]
    );
    assert!(!llio.running);
    assert!(llio.com_cb_conns.iter().all(|slot| slot.is_none()));
}

#[test]
fn messages_that_cannot_be_taken() {
    let llio = Llio::new(HARDWARE);
    assert!(!llio.accepts(Opcode::EventComSubscribe.to_usize(), scalar(0)));
    assert!(!llio.accepts(Opcode::GpioIntSubscribe.to_usize(), blocking(0)));
    assert!(!llio.accepts(Opcode::CrgMode.to_usize(), scalar(0)));
    assert!(llio.accepts(Opcode::CrgMode.to_usize(), blocking(0)));
}

#[test]
fn odd_messages_are_noted() {
    let mut llio = Llio::new(HARDWARE);
    assert_eq!(llio.handle(57, scalar(0)), vec![Action::NoteUnknownOpcode]);
    for opcode in [Opcode::CrgMode, Opcode::SuspendResume, Opcode::EventActivityHappened] {
        assert_eq!(handle(&mut llio, opcode, blocking(3)), vec![Action::NoteWrongKind]);
    }
    for opcode in [Opcode::GetActivity, Opcode::DebugUsbOp, Opcode::SetRtcAlarm] {
        assert_eq!(handle(&mut llio, opcode, scalar(3)), vec![Action::NoteWrongKind]);
    }
    assert_eq!(llio.latest_activity, 0);
    assert!(llio.lockstatus_force_update);
}

#[test]
fn redraw_stays_due_until_somebody_asks() {
    let mut llio = Llio::new(HARDWARE);
    let ask = |force_update| Action::Ask(Query::UsbDisable { force_update });
    handle(&mut llio, Opcode::GpioDataOut, scalar(1));
    // a request of the wrong kind does not count
    handle(&mut llio, Opcode::DebugUsbOp, scalar(0));
    assert_eq!(handle(&mut llio, Opcode::DebugUsbOp, blocking(0)), vec![ask(true)]);
    handle(&mut llio, Opcode::SuspendResume, scalar(1));
    handle(&mut llio, Opcode::SetRtcAlarm, blocking(3));
    handle(&mut llio, Opcode::SuspendResume, scalar(2));
    handle(&mut llio, Opcode::EventComHappened, Body::Memory);
    assert_eq!(handle(&mut llio, Opcode::DebugUsbOp, blocking(0)), vec![ask(true)]);
    handle(&mut llio, Opcode::GetActivity, blocking(0));
    assert_eq!(handle(&mut llio, Opcode::DebugUsbOp, blocking(0)), vec![ask(false)]);
}

#[test]
fn reported_activity_is_remembered() {
    let mut llio = Llio::new(HARDWARE);
    let ask = |latest_activity| Action::Ask(Query::ActivityPeriod { latest_activity });
    assert_eq!(handle(&mut llio, Opcode::GetActivity, blocking(0)), vec![ask(0)]);
    handle(&mut llio, Opcode::EventActivityHappened, scalar(8));
    handle(&mut llio, Opcode::EventActivityHappened, scalar(9));
    handle(&mut llio, Opcode::SuspendResume, scalar(0));
    for _ in 0..2 {
        assert_eq!(handle(&mut llio, Opcode::GetActivity, blocking(0)), vec![ask(9)]);
    }
}

#[test]
fn shared_registers_follow_the_last_requests() {
    let mut llio = Llio::new(HARDWARE);
    let mut registers = [0xaau8; 32];
    let requests = [
        (Opcode::SetWakeupAlarm, 7, 0x01, 0x39),
        (Opcode::SetRtcAlarm, 300, 0x01, 0x39),
        (Opcode::SetRtcAlarm, 9, 0x03, 0xbb),
        (Opcode::ClearRtcAlarm, 0, 0x01, 0x79),
        (Opcode::ClearWakeupAlarm, 0, 0x00, 0x38),
        (Opcode::ClearRtcAlarm, 0, 0x00, 0x38),
    ];
    for (opcode, delay, control2, config) in requests {
        for action in handle(&mut llio, opcode, blocking(delay)) {
            if let Action::WriteClock(write) = action {
                registers[write.register as usize] = write.value;
            }
        }
        handle(&mut llio, Opcode::GpioDataOut, scalar(1));
        assert_eq!((registers[1], registers[2], registers[0xf]), (control2, 0, config));
    }
}
