//! What each request to the low-level I/O server leads to, in terms of the
//! numbers in the message.
use vstd::prelude::*;
use crate::callbacks::{EventCallback, ScalarCallback, ScalarHook, ScalarMessage, CID};
use crate::callbacks;
use crate::i2c::I2cOpcode;
use crate::i2c;
use crate::llio::{
    Action, AdcInput, BoardCommand, Config, EventSource, LlioState, Opcode, Query, Reading,
};
use crate::llio;
use crate::llio_laws;
use crate::message::{Args, Body};
use crate::rtc::{AlarmRequest, RegisterWrite, RtcAlarms};
use crate::rtc;

verus! {

/// A message that switches something turns it on if its first number is not
/// zero, and off if it is. Nothing else is done, and nothing else changes.
pub proof fn law_switches(state: LlioState, args: Args)
    ensures
        llio::actions_after(state, Some(Opcode::DebugPowerdown), Body::Scalar(args)) == seq![
            Action::Board(BoardCommand::DebugPowerdown(args.arg1 != 0)),
        ],
        llio::state_after(state, Some(Opcode::DebugPowerdown), Body::Scalar(args)) == state,
        llio::actions_after(state, Some(Opcode::DebugWakeup), Body::Scalar(args)) == seq![
            Action::Board(BoardCommand::DebugWakeup(args.arg1 != 0)),
        ],
        llio::state_after(state, Some(Opcode::DebugWakeup), Body::Scalar(args)) == state,
        llio::actions_after(state, Some(Opcode::PowerSelf), Body::Scalar(args)) == seq![
            Action::Board(BoardCommand::PowerSelf(args.arg1 != 0)),
        ],
        llio::state_after(state, Some(Opcode::PowerSelf), Body::Scalar(args)) == state,
        llio::actions_after(state, Some(Opcode::PowerBoostMode), Body::Scalar(args)) == seq![
            Action::Board(BoardCommand::PowerBoostMode(args.arg1 != 0)),
        ],
        llio::state_after(state, Some(Opcode::PowerBoostMode), Body::Scalar(args)) == state,
        llio::actions_after(state, Some(Opcode::EcSnoopAllow), Body::Scalar(args)) == seq![
            Action::Board(BoardCommand::EcSnoopAllow(args.arg1 != 0)),
        ],
        llio::state_after(state, Some(Opcode::EcSnoopAllow), Body::Scalar(args)) == state,
        llio::actions_after(state, Some(Opcode::EventComEnable), Body::Scalar(args)) == seq![
            Action::Board(BoardCommand::ComIntEna(args.arg1 != 0)),
        ],
        llio::state_after(state, Some(Opcode::EventComEnable), Body::Scalar(args)) == state,
        llio::actions_after(state, Some(Opcode::EventRtcEnable), Body::Scalar(args)) == seq![
            Action::Board(BoardCommand::RtcIntEna(args.arg1 != 0)),
        ],
        llio::state_after(state, Some(Opcode::EventRtcEnable), Body::Scalar(args)) == state,
        llio::actions_after(state, Some(Opcode::EventUsbAttachEnable), Body::Scalar(args)) == seq![
            Action::Board(BoardCommand::UsbIntEna(args.arg1 != 0)),
        ],
        llio::state_after(state, Some(Opcode::EventUsbAttachEnable), Body::Scalar(args)) == state,
{
}

/// A message that switches something and waits does the same, and is answered
/// zero once it is done.
pub proof fn law_confirmed_switches(state: LlioState, args: Args)
    ensures
        llio::actions_after(state, Some(Opcode::PowerAudio), Body::BlockingScalar(args)) == seq![
            Action::Board(BoardCommand::PowerAudio(args.arg1 != 0)),
            Action::Reply { value: 0 },
        ],
        llio::state_after(state, Some(Opcode::PowerAudio), Body::BlockingScalar(args)) == state,
        llio::actions_after(state, Some(Opcode::PowerCrypto), Body::BlockingScalar(args)) == seq![
            Action::Board(BoardCommand::PowerCrypto(args.arg1 != 0)),
            Action::Reply { value: 0 },
        ],
        llio::state_after(state, Some(Opcode::PowerCrypto), Body::BlockingScalar(args)) == state,
        llio::actions_after(state, Some(Opcode::WfiOverride), Body::BlockingScalar(args)) == seq![
            Action::Board(BoardCommand::WfiOverride(args.arg1 != 0)),
            Action::Reply { value: 0 },
        ],
        llio::state_after(state, Some(Opcode::WfiOverride), Body::BlockingScalar(args)) == state,
{
}

/// A message that sets pins, their interrupts or the code of self-destruction
/// hands on the low 32 bits of its first number; the multiplexer and the
/// vibrator get all of it, and the embedded controller needs none.
pub proof fn law_settings(state: LlioState, args: Args)
    ensures
        llio::actions_after(state, Some(Opcode::GpioDataOut), Body::Scalar(args)) == seq![
            Action::Board(BoardCommand::GpioDout(args.arg1 as u32)),
        ],
        llio::state_after(state, Some(Opcode::GpioDataOut), Body::Scalar(args)) == state,
        llio::actions_after(state, Some(Opcode::GpioDataDrive), Body::Scalar(args)) == seq![
            Action::Board(BoardCommand::GpioDrive(args.arg1 as u32)),
        ],
        llio::state_after(state, Some(Opcode::GpioDataDrive), Body::Scalar(args)) == state,
        llio::actions_after(state, Some(Opcode::GpioIntMask), Body::Scalar(args)) == seq![
            Action::Board(BoardCommand::GpioIntMask(args.arg1 as u32)),
        ],
        llio::state_after(state, Some(Opcode::GpioIntMask), Body::Scalar(args)) == state,
        llio::actions_after(state, Some(Opcode::GpioIntAsFalling), Body::Scalar(args)) == seq![
            Action::Board(BoardCommand::GpioIntAsFalling(args.arg1 as u32)),
        ],
        llio::state_after(state, Some(Opcode::GpioIntAsFalling), Body::Scalar(args)) == state,
        llio::actions_after(state, Some(Opcode::GpioIntEna), Body::Scalar(args)) == seq![
            Action::Board(BoardCommand::GpioIntEna(args.arg1 as u32)),
        ],
        llio::state_after(state, Some(Opcode::GpioIntEna), Body::Scalar(args)) == state,
        llio::actions_after(state, Some(Opcode::SelfDestruct), Body::Scalar(args)) == seq![
            Action::Board(BoardCommand::SelfDestruct(args.arg1 as u32)),
        ],
        llio::state_after(state, Some(Opcode::SelfDestruct), Body::Scalar(args)) == state,
        llio::actions_after(state, Some(Opcode::UartMux), Body::Scalar(args)) == seq![
            Action::Board(BoardCommand::SetUartMux(args.arg1)),
        ],
        llio::state_after(state, Some(Opcode::UartMux), Body::Scalar(args)) == state,
        llio::actions_after(state, Some(Opcode::Vibe), Body::Scalar(args)) == seq![
            Action::Board(BoardCommand::Vibe(args.arg1)),
        ],
        llio::state_after(state, Some(Opcode::Vibe), Body::Scalar(args)) == state,
        llio::actions_after(state, Some(Opcode::EcReset), Body::Scalar(args)) == seq![
            Action::Board(BoardCommand::EcReset),
        ],
        llio::state_after(state, Some(Opcode::EcReset), Body::Scalar(args)) == state,
        llio::actions_after(state, Some(Opcode::EcPowerOn), Body::Scalar(args)) == seq![
            Action::Board(BoardCommand::EcPowerOn),
        ],
        llio::state_after(state, Some(Opcode::EcPowerOn), Body::Scalar(args)) == state,
        (args.arg1 as u32) as int == args.arg1 as int % 0x1_0000_0000,
{
    let value = args.arg1 as u64;
    assert(value as u32 == value % 0x1_0000_0000) by (bit_vector);
}

/// A question about the board reads what it asks for, and nothing else.
pub proof fn law_questions(state: LlioState, args: Args)
    ensures
        llio::actions_after(state, Some(Opcode::GpioDataIn), Body::BlockingScalar(args)) == seq![
            Action::Ask(Query::GpioDin),
        ],
        llio::state_after(state, Some(Opcode::GpioDataIn), Body::BlockingScalar(args)) == state,
        llio::actions_after(
            state,
            Some(Opcode::GpioIntPending),
            Body::BlockingScalar(args),
        ) == seq![
            Action::Ask(Query::GpioIntPending),
        ],
        llio::state_after(state, Some(Opcode::GpioIntPending), Body::BlockingScalar(args)) == state,
        llio::actions_after(state, Some(Opcode::InfoDna), Body::BlockingScalar(args)) == seq![
            Action::Ask(Query::InfoDna),
        ],
        llio::state_after(state, Some(Opcode::InfoDna), Body::BlockingScalar(args)) == state,
        llio::actions_after(state, Some(Opcode::InfoGit), Body::BlockingScalar(args)) == seq![
            Action::Ask(Query::InfoGit),
        ],
        llio::state_after(state, Some(Opcode::InfoGit), Body::BlockingScalar(args)) == state,
        llio::actions_after(state, Some(Opcode::InfoPlatform), Body::BlockingScalar(args)) == seq![
            Action::Ask(Query::InfoPlatform),
        ],
        llio::state_after(state, Some(Opcode::InfoPlatform), Body::BlockingScalar(args)) == state,
        llio::actions_after(state, Some(Opcode::InfoTarget), Body::BlockingScalar(args)) == seq![
            Action::Ask(Query::InfoTarget),
        ],
        llio::state_after(state, Some(Opcode::InfoTarget), Body::BlockingScalar(args)) == state,
        llio::actions_after(
            state,
            Some(Opcode::PowerCryptoStatus),
            Body::BlockingScalar(args),
        ) == seq![
            Action::Ask(Query::PowerCryptoStatus),
        ],
        llio::state_after(
            state,
            Some(Opcode::PowerCryptoStatus),
            Body::BlockingScalar(args),
        ) == state,
        llio::actions_after(state, Some(Opcode::AdcVbus), Body::BlockingScalar(args)) == seq![
            Action::Ask(Query::Adc(AdcInput::Vbus)),
        ],
        llio::state_after(state, Some(Opcode::AdcVbus), Body::BlockingScalar(args)) == state,
        llio::actions_after(state, Some(Opcode::AdcVccInt), Body::BlockingScalar(args)) == seq![
            Action::Ask(Query::Adc(AdcInput::VccInt)),
        ],
        llio::state_after(state, Some(Opcode::AdcVccInt), Body::BlockingScalar(args)) == state,
        llio::actions_after(state, Some(Opcode::AdcVccAux), Body::BlockingScalar(args)) == seq![
            Action::Ask(Query::Adc(AdcInput::VccAux)),
        ],
        llio::state_after(state, Some(Opcode::AdcVccAux), Body::BlockingScalar(args)) == state,
        llio::actions_after(state, Some(Opcode::AdcVccBram), Body::BlockingScalar(args)) == seq![
            Action::Ask(Query::Adc(AdcInput::VccBram)),
        ],
        llio::state_after(state, Some(Opcode::AdcVccBram), Body::BlockingScalar(args)) == state,
        llio::actions_after(state, Some(Opcode::AdcUsbN), Body::BlockingScalar(args)) == seq![
            Action::Ask(Query::Adc(AdcInput::UsbN)),
        ],
        llio::state_after(state, Some(Opcode::AdcUsbN), Body::BlockingScalar(args)) == state,
        llio::actions_after(state, Some(Opcode::AdcUsbP), Body::BlockingScalar(args)) == seq![
            Action::Ask(Query::Adc(AdcInput::UsbP)),
        ],
        llio::state_after(state, Some(Opcode::AdcUsbP), Body::BlockingScalar(args)) == state,
        llio::actions_after(
            state,
            Some(Opcode::AdcTemperature),
            Body::BlockingScalar(args),
        ) == seq![
            Action::Ask(Query::Adc(AdcInput::Temperature)),
        ],
        llio::state_after(state, Some(Opcode::AdcTemperature), Body::BlockingScalar(args)) == state,
        llio::actions_after(state, Some(Opcode::AdcGpio5), Body::BlockingScalar(args)) == seq![
            Action::Ask(Query::Adc(AdcInput::Gpio5)),
        ],
        llio::state_after(state, Some(Opcode::AdcGpio5), Body::BlockingScalar(args)) == state,
        llio::actions_after(state, Some(Opcode::AdcGpio2), Body::BlockingScalar(args)) == seq![
            Action::Ask(Query::Adc(AdcInput::Gpio2)),
        ],
        llio::state_after(state, Some(Opcode::AdcGpio2), Body::BlockingScalar(args)) == state,
{
}

/// What a question is answered is what was read: a number as it is, a pair in its
/// order, the power of the crypto units as a bit for each, and whether the debug
/// port is locked, with whether it has to be drawn again.
pub proof fn law_answers(
    query: Query,
    word: u32,
    first: usize,
    second: usize,
    a: bool,
    b: bool,
    c: bool,
    activity: u32,
)
    ensures
        !(query is ActivityPeriod) ==> (llio::answer_to(
            query,
            Reading::Word(word),
        ) matches Action::Reply { value } && value as int == word),
        llio::answer_to(
            Query::ActivityPeriod { latest_activity: activity },
            Reading::Word(word),
        ) matches Action::Reply2 { first: f, second: s } && f as int == activity && s as int
            == word,
        llio::answer_to(query, Reading::Pair(first, second)) == (Action::Reply2 { first, second }),
        llio::answer_to(
            query,
            Reading::Crypto { sha: a, engine: b, force: c },
        ) matches Action::Reply { value } && value as int == (if a { 1int } else { 0 }) + (if b {
            2int
        } else {
            0
        }) + (if c { 4int } else { 0 }),
        llio::answer_to(
            Query::UsbDisable { force_update: b },
            Reading::Flag(a),
        ) matches Action::Reply2 { first: f, second: s } && f as int == (if a { 1int } else { 0 })
            && s as int == (if b { 1int } else { 0 }),
{
}

/// The kind of reading that answers each question.
pub proof fn law_readings(query: Query, reading: Reading)
    ensures
        llio::answers(query, reading) <==> match reading {
            Reading::Word(_) => query is GpioDin || query is GpioIntPending || query is Adc || query
                is ActivityPeriod,
            Reading::Pair(_, _) => query is InfoDna || query is InfoGit || query is InfoPlatform
                || query is InfoTarget,
            Reading::Crypto { .. } => query is PowerCryptoStatus,
            Reading::Flag(_) => query is UsbDisable,
        },
{
}

/// Setting the wakeup alarm puts the first number of the message into the count of
/// timer B, in seconds, and turns that timer and its interrupt on, with the RTC
/// alarm kept as it is. The sender is then told that it is done.
pub proof fn law_set_wakeup_alarm(state: LlioState, args: Args)
    requires
        args.arg1 <= 255,
    ensures
        llio::actions_after(
            state,
            Some(Opcode::SetWakeupAlarm),
            Body::BlockingScalar(args),
        ) == seq![
            Action::WriteClock(RegisterWrite { device: 0x68, register: 0x02, value: 0 }),
            Action::WriteClock(RegisterWrite { device: 0x68, register: 0x12, value: 0x72 }),
            Action::WriteClock(
                RegisterWrite {
                    device: 0x68,
                    register: 0x13,
                    value: args.arg1 as u8,
                },
            ),
            Action::WriteClock(
                RegisterWrite {
                    device: 0x68,
                    register: 0x01,
                    value: if state.alarms.rtc_alarm_enabled { 0x03 } else { 0x01 },
                },
            ),
            Action::WriteClock(
                RegisterWrite {
                    device: 0x68,
                    register: 0x0f,
                    value: if state.alarms.rtc_alarm_enabled { 0xbb } else { 0x39 },
                },
            ),
            Action::Reply { value: 0 },
        ],
        llio::state_after(
            state,
            Some(Opcode::SetWakeupAlarm),
            Body::BlockingScalar(args),
        ) == (LlioState {
            alarms: RtcAlarms {
                wakeup_alarm_enabled: true,
                rtc_alarm_enabled: state.alarms.rtc_alarm_enabled,
            },
            ..state
        }),
        (args.arg1 as u8) as int == args.arg1,
{
    let actions = llio::actions_after(
        state,
        Some(Opcode::SetWakeupAlarm),
        Body::BlockingScalar(args),
    );
    rtc::law_set_wakeup_alarm_in_bytes(state.alarms, args.arg1);
    assert(actions =~= seq![
        Action::WriteClock(RegisterWrite { device: 0x68, register: 0x02, value: 0 }),
        Action::WriteClock(RegisterWrite { device: 0x68, register: 0x12, value: 0x72 }),
        Action::WriteClock(RegisterWrite { device: 0x68, register: 0x13, value: args.arg1 as u8 }),
        Action::WriteClock(
            RegisterWrite {
                device: 0x68,
                register: 0x01,
                value: if state.alarms.rtc_alarm_enabled { 0x03 } else { 0x01 },
            },
        ),
        Action::WriteClock(
            RegisterWrite {
                device: 0x68,
                register: 0x0f,
                value: if state.alarms.rtc_alarm_enabled { 0xbb } else { 0x39 },
            },
        ),
        Action::Reply { value: 0 },
    ]);
}

/// Clearing the wakeup alarm turns timer B and its interrupt off, with the RTC
/// alarm kept as it is.
pub proof fn law_clear_wakeup_alarm(state: LlioState, args: Args)
    ensures
        llio::actions_after(
            state,
            Some(Opcode::ClearWakeupAlarm),
            Body::BlockingScalar(args),
        ) == seq![
            Action::WriteClock(RegisterWrite { device: 0x68, register: 0x02, value: 0 }),
            Action::WriteClock(
                RegisterWrite {
                    device: 0x68,
                    register: 0x0f,
                    value: if state.alarms.rtc_alarm_enabled { 0xba } else { 0x38 },
                },
            ),
            Action::WriteClock(
                RegisterWrite {
                    device: 0x68,
                    register: 0x01,
                    value: if state.alarms.rtc_alarm_enabled { 0x02 } else { 0x00 },
                },
            ),
            Action::Reply { value: 0 },
        ],
        llio::state_after(
            state,
            Some(Opcode::ClearWakeupAlarm),
            Body::BlockingScalar(args),
        ) == (LlioState {
            alarms: RtcAlarms {
                wakeup_alarm_enabled: false,
                rtc_alarm_enabled: state.alarms.rtc_alarm_enabled,
            },
            ..state
        }),
{
    let actions = llio::actions_after(
        state,
        Some(Opcode::ClearWakeupAlarm),
        Body::BlockingScalar(args),
    );
    rtc::law_clear_wakeup_alarm_in_bytes(state.alarms);
    assert(actions =~= seq![
        Action::WriteClock(RegisterWrite { device: 0x68, register: 0x02, value: 0 }),
        Action::WriteClock(
            RegisterWrite {
                device: 0x68,
                register: 0x0f,
                value: if state.alarms.rtc_alarm_enabled { 0xba } else { 0x38 },
            },
        ),
        Action::WriteClock(
            RegisterWrite {
                device: 0x68,
                register: 0x01,
                value: if state.alarms.rtc_alarm_enabled { 0x02 } else { 0x00 },
            },
        ),
        Action::Reply { value: 0 },
    ]);
}

/// Setting the RTC alarm puts the first number of the message into the count of
/// timer A, in seconds, and turns that timer and its interrupt on, with the
/// wakeup alarm kept as it is.
pub proof fn law_set_rtc_alarm(state: LlioState, args: Args)
    requires
        args.arg1 <= 255,
    ensures
        llio::actions_after(state, Some(Opcode::SetRtcAlarm), Body::BlockingScalar(args)) == seq![
            Action::WriteClock(RegisterWrite { device: 0x68, register: 0x02, value: 0 }),
            Action::WriteClock(RegisterWrite { device: 0x68, register: 0x10, value: 0x72 }),
            Action::WriteClock(
                RegisterWrite {
                    device: 0x68,
                    register: 0x11,
                    value: args.arg1 as u8,
                },
            ),
            Action::WriteClock(
                RegisterWrite {
                    device: 0x68,
                    register: 0x01,
                    value: if state.alarms.wakeup_alarm_enabled { 0x03 } else { 0x02 },
                },
            ),
            Action::WriteClock(
                RegisterWrite {
                    device: 0x68,
                    register: 0x0f,
                    value: if state.alarms.wakeup_alarm_enabled { 0xbb } else { 0xba },
                },
            ),
            Action::Reply { value: 0 },
        ],
        llio::state_after(
            state,
            Some(Opcode::SetRtcAlarm),
            Body::BlockingScalar(args),
        ) == (LlioState {
            alarms: RtcAlarms {
                rtc_alarm_enabled: true,
                wakeup_alarm_enabled: state.alarms.wakeup_alarm_enabled,
            },
            ..state
        }),
        (args.arg1 as u8) as int == args.arg1,
{
    let actions = llio::actions_after(state, Some(Opcode::SetRtcAlarm), Body::BlockingScalar(args));
    rtc::law_set_rtc_alarm_in_bytes(state.alarms, args.arg1);
    assert(actions =~= seq![
        Action::WriteClock(RegisterWrite { device: 0x68, register: 0x02, value: 0 }),
        Action::WriteClock(RegisterWrite { device: 0x68, register: 0x10, value: 0x72 }),
        Action::WriteClock(RegisterWrite { device: 0x68, register: 0x11, value: args.arg1 as u8 }),
        Action::WriteClock(
            RegisterWrite {
                device: 0x68,
                register: 0x01,
                value: if state.alarms.wakeup_alarm_enabled { 0x03 } else { 0x02 },
            },
        ),
        Action::WriteClock(
            RegisterWrite {
                device: 0x68,
                register: 0x0f,
                value: if state.alarms.wakeup_alarm_enabled { 0xbb } else { 0xba },
            },
        ),
        Action::Reply { value: 0 },
    ]);
}

/// Clearing the RTC alarm turns timer A and its interrupt off, with the wakeup
/// alarm kept as it is.
pub proof fn law_clear_rtc_alarm(state: LlioState, args: Args)
    ensures
        llio::actions_after(state, Some(Opcode::ClearRtcAlarm), Body::BlockingScalar(args)) == seq![
            Action::WriteClock(
                RegisterWrite {
                    device: 0x68,
                    register: 0x0f,
                    value: if state.alarms.wakeup_alarm_enabled { 0x79 } else { 0x38 },
                },
            ),
            Action::WriteClock(
                RegisterWrite {
                    device: 0x68,
                    register: 0x01,
                    value: if state.alarms.wakeup_alarm_enabled { 0x01 } else { 0x00 },
                },
            ),
            Action::Reply { value: 0 },
        ],
        llio::state_after(
            state,
            Some(Opcode::ClearRtcAlarm),
            Body::BlockingScalar(args),
        ) == (LlioState {
            alarms: RtcAlarms {
                rtc_alarm_enabled: false,
                wakeup_alarm_enabled: state.alarms.wakeup_alarm_enabled,
            },
            ..state
        }),
{
    let actions = llio::actions_after(
        state,
        Some(Opcode::ClearRtcAlarm),
        Body::BlockingScalar(args),
    );
    rtc::law_clear_rtc_alarm_in_bytes(state.alarms);
    assert(actions =~= seq![
        Action::WriteClock(
            RegisterWrite {
                device: 0x68,
                register: 0x0f,
                value: if state.alarms.wakeup_alarm_enabled { 0x79 } else { 0x38 },
            },
        ),
        Action::WriteClock(
            RegisterWrite {
                device: 0x68,
                register: 0x01,
                value: if state.alarms.wakeup_alarm_enabled { 0x01 } else { 0x00 },
            },
        ),
        Action::Reply { value: 0 },
    ]);
}

/// A delay of more than 255 seconds is noted and answered one; the clock is not
/// touched, and no alarm changes.
pub proof fn law_long_delay(state: LlioState, args: Args)
    requires
        args.arg1 > 255,
    ensures
        llio::actions_after(
            state,
            Some(Opcode::SetWakeupAlarm),
            Body::BlockingScalar(args),
        ) == seq![
            Action::NoteDelayTooLong {
                request: AlarmRequest::SetWakeupAlarm { delay: args.arg1 },
                max_delay: 255,
            },
            Action::Reply { value: 1 },
        ],
        llio::state_after(state, Some(Opcode::SetWakeupAlarm), Body::BlockingScalar(args)) == state,
        llio::actions_after(state, Some(Opcode::SetRtcAlarm), Body::BlockingScalar(args)) == seq![
            Action::NoteDelayTooLong {
                request: AlarmRequest::SetRtcAlarm { delay: args.arg1 },
                max_delay: 255,
            },
            Action::Reply { value: 1 },
        ],
        llio::state_after(state, Some(Opcode::SetRtcAlarm), Body::BlockingScalar(args)) == state,
{
}

/// After a request to set an alarm that is not refused, the timer of that alarm
/// holds the first number of the message, whatever was in the registers, and so
/// two requests with different numbers leave different counts.
pub proof fn law_timer_holds_the_number_in_the_message(
    state: LlioState,
    args: Args,
    registers: Map<u8, u8>,
)
    requires
        args.arg1 <= 255,
    ensures
        rtc::programmed(
            registers,
            llio_laws::clock_writes_in(
                llio::actions_after(state, Some(Opcode::SetWakeupAlarm), Body::BlockingScalar(args)),
            ),
        )[0x13] as int == args.arg1,
        rtc::programmed(
            registers,
            llio_laws::clock_writes_in(
                llio::actions_after(state, Some(Opcode::SetRtcAlarm), Body::BlockingScalar(args)),
            ),
        )[0x11] as int == args.arg1,
{
    let body = Body::BlockingScalar(args);
    let wakeup = llio_laws::LlioEvent::Message { opcode: Some(Opcode::SetWakeupAlarm), body };
    let rtc = llio_laws::LlioEvent::Message { opcode: Some(Opcode::SetRtcAlarm), body };
    llio_laws::law_timer_holds_the_last_delay(state, registers, seq![wakeup], 0, true);
    llio_laws::law_timer_holds_the_last_delay(state, registers, seq![rtc], 0, false);
    assert(seq![wakeup].drop_last() =~= Seq::<llio_laws::LlioEvent>::empty());
    assert(seq![rtc].drop_last() =~= Seq::<llio_laws::LlioEvent>::empty());
    reveal_with_fuel(llio_laws::after_run, 2);
}

/// A subscription is taken out of the message for the source that its opcode
/// names; until it is connected nothing changes.
pub proof fn law_subscription_requests(state: LlioState)
    ensures
        llio::actions_after(state, Some(Opcode::EventUsbAttachSubscribe), Body::Memory) == seq![
            Action::TakeHook { source: EventSource::Usb },
        ],
        llio::state_after(state, Some(Opcode::EventUsbAttachSubscribe), Body::Memory) == state,
        llio::actions_after(state, Some(Opcode::EventComSubscribe), Body::Memory) == seq![
            Action::TakeHook { source: EventSource::Com },
        ],
        llio::state_after(state, Some(Opcode::EventComSubscribe), Body::Memory) == state,
        llio::actions_after(state, Some(Opcode::EventRtcSubscribe), Body::Memory) == seq![
            Action::TakeHook { source: EventSource::Rtc },
        ],
        llio::state_after(state, Some(Opcode::EventRtcSubscribe), Body::Memory) == state,
        llio::actions_after(state, Some(Opcode::GpioIntSubscribe), Body::Memory) == seq![
            Action::TakeHook { source: EventSource::Gpio },
        ],
        llio::state_after(state, Some(Opcode::GpioIntSubscribe), Body::Memory) == state,
{
}

/// Each source has a table of its own, and putting one in its place leaves the
/// other three and all else as they were.
pub proof fn law_tables(state: LlioState, slots: Seq<Option<ScalarCallback>>)
    ensures
        state.table(EventSource::Usb) == state.usb,
        state.table(EventSource::Com) == state.com,
        state.table(EventSource::Rtc) == state.rtc,
        state.table(EventSource::Gpio) == state.gpio,
        state.with_table(EventSource::Usb, slots) == (LlioState { usb: slots, ..state }),
        state.with_table(EventSource::Com, slots) == (LlioState { com: slots, ..state }),
        state.with_table(EventSource::Rtc, slots) == (LlioState { rtc: slots, ..state }),
        state.with_table(EventSource::Gpio, slots) == (LlioState { gpio: slots, ..state }),
{
}

proof fn lemma_event_actions(slots: Seq<Option<ScalarCallback>>, which: usize)
    ensures
        llio::event_actions(slots, which) == slots.filter_map(
            |slot: Option<ScalarCallback>|
                match slot {
                    Some(c) => Some(
                        Action::TrySend(
                            ScalarMessage {
                                connection: c.server_to_cb_cid,
                                opcode: EventCallback::Event,
                                args: (
                                    c.cb_to_client_cid as usize,
                                    c.cb_to_client_id as usize,
                                    which,
                                    0,
                                ),
                            },
                        ),
                    ),
                    None => None,
                },
        ),
    decreases slots.len(),
{
    let expected = slots.filter_map(
            |slot: Option<ScalarCallback>|
                match slot {
                    Some(c) => Some(
                        Action::TrySend(
                            ScalarMessage {
                                connection: c.server_to_cb_cid,
                                opcode: EventCallback::Event,
                                args: (
                                    c.cb_to_client_cid as usize,
                                    c.cb_to_client_id as usize,
                                    which,
                                    0,
                                ),
                            },
                        ),
                    ),
                    None => None,
                },
        );
    if slots.len() > 0 {
        lemma_event_actions(slots.drop_last(), which);
        let front = llio::event_actions(slots.drop_last(), which);
        match slots.last() {
            Some(c) => {
                assert(llio::event_actions(slots, which) =~= front.push(
                    Action::TrySend(callbacks::event_message(c, which)),
                ));
            },
            None => {
                assert(llio::event_actions(slots, which) =~= front);
            },
        }
    }
    assert(llio::event_actions(slots, which) =~= expected);
}

proof fn lemma_farewell_actions(slots: Seq<Option<ScalarCallback>>)
    ensures
        llio::farewell_actions(slots) == slots.filter_map(
            |slot: Option<ScalarCallback>|
                match slot {
                    Some(c) => Some(
                        Action::SendAndDisconnect(
                            ScalarMessage {
                                connection: c.server_to_cb_cid,
                                opcode: EventCallback::Drop,
                                args: (0, 0, 0, 0),
                            },
                        ),
                    ),
                    None => None,
                },
        ),
    decreases slots.len(),
{
    let expected = slots.filter_map(
            |slot: Option<ScalarCallback>|
                match slot {
                    Some(c) => Some(
                        Action::SendAndDisconnect(
                            ScalarMessage {
                                connection: c.server_to_cb_cid,
                                opcode: EventCallback::Drop,
                                args: (0, 0, 0, 0),
                            },
                        ),
                    ),
                    None => None,
                },
        );
    if slots.len() > 0 {
        lemma_farewell_actions(slots.drop_last());
        let front = llio::farewell_actions(slots.drop_last());
        match slots.last() {
            Some(c) => {
                assert(llio::farewell_actions(slots) =~= front.push(
                    Action::SendAndDisconnect(callbacks::drop_message(c)),
                ));
            },
            None => {
                assert(llio::farewell_actions(slots) =~= front);
            },
        }
    }
    assert(llio::farewell_actions(slots) =~= expected);
}

/// An event is sent to every taken slot of the table of its source, in slot order
/// and to nobody else, on the subscriber's connection, with the subscriber's two
/// numbers. The third number is the pin for an event of the pins, which is the
/// first number of the message, and zero for the others. Nothing changes.
pub proof fn law_events(state: LlioState, body: Body, args: Args)
    ensures
        llio::actions_after(state, Some(Opcode::EventComHappened), body) == state.com.filter_map(
            |slot: Option<ScalarCallback>|
                match slot {
                    Some(c) => Some(
                        Action::TrySend(
                            ScalarMessage {
                                connection: c.server_to_cb_cid,
                                opcode: EventCallback::Event,
                                args: (
                                    c.cb_to_client_cid as usize,
                                    c.cb_to_client_id as usize,
                                    0,
                                    0,
                                ),
                            },
                        ),
                    ),
                    None => None,
                },
        ),
        llio::state_after(state, Some(Opcode::EventComHappened), body) == state,
        llio::actions_after(state, Some(Opcode::EventRtcHappened), body) == state.rtc.filter_map(
            |slot: Option<ScalarCallback>|
                match slot {
                    Some(c) => Some(
                        Action::TrySend(
                            ScalarMessage {
                                connection: c.server_to_cb_cid,
                                opcode: EventCallback::Event,
                                args: (
                                    c.cb_to_client_cid as usize,
                                    c.cb_to_client_id as usize,
                                    0,
                                    0,
                                ),
                            },
                        ),
                    ),
                    None => None,
                },
        ),
        llio::state_after(state, Some(Opcode::EventRtcHappened), body) == state,
        llio::actions_after(state, Some(Opcode::EventUsbHappened), body) == state.usb.filter_map(
            |slot: Option<ScalarCallback>|
                match slot {
                    Some(c) => Some(
                        Action::TrySend(
                            ScalarMessage {
                                connection: c.server_to_cb_cid,
                                opcode: EventCallback::Event,
                                args: (
                                    c.cb_to_client_cid as usize,
                                    c.cb_to_client_id as usize,
                                    0,
                                    0,
                                ),
                            },
                        ),
                    ),
                    None => None,
                },
        ),
        llio::state_after(state, Some(Opcode::EventUsbHappened), body) == state,
        llio::actions_after(
            state,
            Some(Opcode::GpioIntHappened),
            Body::Scalar(args),
        ) == state.gpio.filter_map(
            |slot: Option<ScalarCallback>|
                match slot {
                    Some(c) => Some(
                        Action::TrySend(
                            ScalarMessage {
                                connection: c.server_to_cb_cid,
                                opcode: EventCallback::Event,
                                args: (
                                    c.cb_to_client_cid as usize,
                                    c.cb_to_client_id as usize,
                                    args.arg1,
                                    0,
                                ),
                            },
                        ),
                    ),
                    None => None,
                },
        ),
        llio::state_after(state, Some(Opcode::GpioIntHappened), Body::Scalar(args)) == state,
{
    lemma_event_actions(state.com, 0);
    lemma_event_actions(state.rtc, 0);
    lemma_event_actions(state.usb, 0);
    lemma_event_actions(state.gpio, args.arg1);
}

/// A registration puts the subscriber into a free slot of its own source, with
/// the connection that was made and the numbers of its request; what was in the
/// other slots and tables stays.
pub proof fn law_registration(
    state: LlioState,
    source: EventSource,
    hook: ScalarHook,
    connection: CID,
    k: int,
)
    requires
        0 <= k < state.table(source).len(),
        state.table(source)[k] is None,
        forall|j: int| 0 <= j < k ==> #[trigger] state.table(source)[j] is Some,
    ensures
        ({
            let after = state.with_table(
                source,
                callbacks::hooked(
                    state.table(source),
                    callbacks::callback_for(hook, connection),
                ),
            );
            let slots = match source {
                EventSource::Usb => after.usb,
                EventSource::Com => after.com,
                EventSource::Rtc => after.rtc,
                EventSource::Gpio => after.gpio,
            };
            &&& slots[k] == Some(
                ScalarCallback {
                    server_to_cb_cid: connection,
                    cb_to_client_cid: hook.cid,
                    cb_to_client_id: hook.id,
                },
            )
            &&& slots.len() == state.table(source).len()
            &&& forall|j: int|
                0 <= j < slots.len() && j != k ==> #[trigger] slots[j] == state.table(source)[j]
            &&& source != EventSource::Usb ==> after.usb == state.usb
            &&& source != EventSource::Com ==> after.com == state.com
            &&& source != EventSource::Rtc ==> after.rtc == state.rtc
            &&& source != EventSource::Gpio ==> after.gpio == state.gpio
        }),
{
    callbacks::law_hook_changes_one_free_slot(
        state.table(source),
        callbacks::callback_for(hook, connection),
    );
}

/// A suspend is carried out with the token of the message, between saving and
/// restoring the board. Where the user is told by other means, the sign of sleep
/// comes after the saving, and a double pulse after the restoring. The lock
/// status has to be drawn again.
pub proof fn law_suspend(state: LlioState, args: Args)
    ensures
        !state.config.tts ==> llio::actions_after(
            state,
            Some(Opcode::SuspendResume),
            Body::Scalar(args),
        ) == seq![
            Action::Board(BoardCommand::Suspend),
            Action::SuspendUntilResume { token: args.arg1 },
            Action::Board(BoardCommand::Resume),
        ],
        state.config.tts ==> llio::actions_after(
            state,
            Some(Opcode::SuspendResume),
            Body::Scalar(args),
        ) == seq![
            Action::Board(BoardCommand::Suspend),
            Action::Board(BoardCommand::TtsSleepIndicate),
            Action::SuspendUntilResume { token: args.arg1 },
            Action::Board(BoardCommand::Resume),
            Action::Board(BoardCommand::VibeDouble),
        ],
        llio::state_after(state, Some(Opcode::SuspendResume), Body::Scalar(args)) == (LlioState {
            lockstatus_force_update: true,
            ..state
        }),
{
    let actions = llio::actions_after(state, Some(Opcode::SuspendResume), Body::Scalar(args));
    if state.config.tts {
        assert(actions =~= seq![
            Action::Board(BoardCommand::Suspend),
            Action::Board(BoardCommand::TtsSleepIndicate),
            Action::SuspendUntilResume { token: args.arg1 },
            Action::Board(BoardCommand::Resume),
            Action::Board(BoardCommand::VibeDouble),
        ]);
    } else {
        assert(actions =~= seq![
            Action::Board(BoardCommand::Suspend),
            Action::SuspendUntilResume { token: args.arg1 },
            Action::Board(BoardCommand::Resume),
        ]);
    }
}

/// A lock-status request changes the lock only if its first number is not zero,
/// to locked if its second number is not zero and to unlocked if it is. In any
/// case the state is read back, the sender is told whether to draw it again, and
/// the next one is not.
pub proof fn law_lock_status(state: LlioState, args: Args)
    ensures
        args.arg1 == 0 ==> llio::actions_after(
            state,
            Some(Opcode::DebugUsbOp),
            Body::BlockingScalar(args),
        ) == seq![
            Action::Ask(Query::UsbDisable { force_update: state.lockstatus_force_update }),
        ],
        args.arg1 != 0 ==> llio::actions_after(
            state,
            Some(Opcode::DebugUsbOp),
            Body::BlockingScalar(args),
        ) == seq![
            Action::Board(BoardCommand::SetUsbDisable(args.arg2 != 0)),
            Action::Ask(Query::UsbDisable { force_update: state.lockstatus_force_update }),
        ],
        llio::state_after(
            state,
            Some(Opcode::DebugUsbOp),
            Body::BlockingScalar(args),
        ) == (LlioState {
            lockstatus_force_update: false,
            ..state
        }),
{
    let actions = llio::actions_after(state, Some(Opcode::DebugUsbOp), Body::BlockingScalar(args));
    if args.arg1 == 0 {
        assert(actions =~= seq![
            Action::Ask(Query::UsbDisable { force_update: state.lockstatus_force_update }),
        ]);
    } else {
        assert(actions =~= seq![
            Action::Board(BoardCommand::SetUsbDisable(args.arg2 != 0)),
            Action::Ask(Query::UsbDisable { force_update: state.lockstatus_force_update }),
        ]);
    }
}

/// Reported activity is kept as its low 32 bits, and nothing is done about it. A
/// question for it leads, on hardware, to reading the period, and changes
/// nothing. Without hardware the period is 12000; the answer comes at once, and
/// the activity moves on by 600, starting over at the period.
pub proof fn law_activity(state: LlioState, args: Args)
    ensures
        llio::actions_after(
            state,
            Some(Opcode::EventActivityHappened),
            Body::Scalar(args),
        ).len() == 0,
        llio::state_after(state, Some(Opcode::EventActivityHappened), Body::Scalar(args)) == (
        LlioState { latest_activity: args.arg1 as u32, ..state }),
        !state.config.hosted ==> llio::actions_after(
            state,
            Some(Opcode::GetActivity),
            Body::BlockingScalar(args),
        ) == seq![
            Action::Ask(Query::ActivityPeriod { latest_activity: state.latest_activity }),
        ],
        !state.config.hosted ==> llio::state_after(
            state,
            Some(Opcode::GetActivity),
            Body::BlockingScalar(args),
        ) == state,
        state.config.hosted ==> llio::actions_after(
            state,
            Some(Opcode::GetActivity),
            Body::BlockingScalar(args),
        ) == seq![
            Action::Reply2 { first: state.latest_activity as usize, second: 12_000 },
        ],
        state.config.hosted ==> ({
            let after = llio::state_after(
                state,
                Some(Opcode::GetActivity),
                Body::BlockingScalar(args),
            );
            &&& after.latest_activity as int == (state.latest_activity + 600) % 12_000
            &&& after == (LlioState { latest_activity: after.latest_activity, ..state })
        }),
{
}

/// The count of the clock is not available, which is answered with zeros, and the
/// offset of the session is neither, which is not answered.
pub proof fn law_not_available(state: LlioState, args: Args, body: Body)
    ensures
        llio::actions_after(state, Some(Opcode::GetRtcCount), Body::BlockingScalar(args)) == seq![
            Action::Reply2 { first: 0, second: 0 },
        ],
        llio::state_after(state, Some(Opcode::GetRtcCount), Body::BlockingScalar(args)) == state,
        llio::actions_after(state, Some(Opcode::GetSessionOffset), body).len() == 0,
        llio::state_after(state, Some(Opcode::GetSessionOffset), body) == state,
{
}

/// A request to quit tells the I2C server to quit, says farewell to every taken
/// slot of the four tables, and gives up the name, the server and the process, in
/// this order. Then every slot is free and the server does not run; the rest
/// stays.
pub proof fn law_quit(state: LlioState, body: Body)
    ensures
        llio::actions_after(state, Some(Opcode::Quit), body) == seq![
            Action::SendToI2cServer {
                id: i2c::i2c_opcode_number(I2cOpcode::Quit),
                args: Args { arg1: 0, arg2: 0, arg3: 0, arg4: 0 },
            },
        ] + state.com.filter_map(
            |slot: Option<ScalarCallback>|
                match slot {
                    Some(c) => Some(
                        Action::SendAndDisconnect(
                            ScalarMessage {
                                connection: c.server_to_cb_cid,
                                opcode: EventCallback::Drop,
                                args: (0, 0, 0, 0),
                            },
                        ),
                    ),
                    None => None,
                },
        ) + state.rtc.filter_map(
            |slot: Option<ScalarCallback>|
                match slot {
                    Some(c) => Some(
                        Action::SendAndDisconnect(
                            ScalarMessage {
                                connection: c.server_to_cb_cid,
                                opcode: EventCallback::Drop,
                                args: (0, 0, 0, 0),
                            },
                        ),
                    ),
                    None => None,
                },
        ) + state.usb.filter_map(
            |slot: Option<ScalarCallback>|
                match slot {
                    Some(c) => Some(
                        Action::SendAndDisconnect(
                            ScalarMessage {
                                connection: c.server_to_cb_cid,
                                opcode: EventCallback::Drop,
                                args: (0, 0, 0, 0),
                            },
                        ),
                    ),
                    None => None,
                },
        ) + state.gpio.filter_map(
            |slot: Option<ScalarCallback>|
                match slot {
                    Some(c) => Some(
                        Action::SendAndDisconnect(
                            ScalarMessage {
                                connection: c.server_to_cb_cid,
                                opcode: EventCallback::Drop,
                                args: (0, 0, 0, 0),
                            },
                        ),
                    ),
                    None => None,
                },
        ) + seq![
            Action::UnregisterServer,
            Action::DestroyServer,
            Action::Terminate { code: 0 },
        ],
        ({
            let after = llio::state_after(state, Some(Opcode::Quit), body);
            &&& !after.running
            &&& after.usb.len() == 32 && after.com.len() == 32 && after.rtc.len() == 32
                && after.gpio.len() == 32
            &&& forall|i: int|
                0 <= i < 32 ==> #[trigger] after.usb[i] is None && after.com[i] is None
                    && after.rtc[i] is None && after.gpio[i] is None
            &&& after.config == state.config
            &&& after.latest_activity == state.latest_activity
            &&& after.lockstatus_force_update == state.lockstatus_force_update
            &&& after.alarms == state.alarms
        }),
{
    lemma_farewell_actions(state.com);
    lemma_farewell_actions(state.rtc);
    lemma_farewell_actions(state.usb);
    lemma_farewell_actions(state.gpio);
}

/// The server starts with every slot free, no activity, both alarms off, and the
/// lock status still to be drawn.
pub proof fn law_boot(config: Config, i: int)
    requires
        0 <= i < 32,
    ensures
        ({
            let state = llio::boot_state(config);
            &&& state.config == config
            &&& state.latest_activity == 0
            &&& state.lockstatus_force_update
            &&& !state.alarms.rtc_alarm_enabled
            &&& !state.alarms.wakeup_alarm_enabled
            &&& state.running
            &&& state.usb.len() == 32 && state.com.len() == 32 && state.rtc.len() == 32
                && state.gpio.len() == 32
            &&& state.usb[i] is None && state.com[i] is None && state.rtc[i] is None
                && state.gpio[i] is None
        }),
{
}

/// These requests come without waiting; one that comes otherwise is noted, and
/// has no effect.
pub proof fn law_requests_that_do_not_wait(state: LlioState, opcode: Opcode, body: Body)
    requires
        !(body is Scalar),
        opcode == Opcode::DebugPowerdown || opcode == Opcode::DebugWakeup
            || opcode == Opcode::PowerSelf || opcode == Opcode::PowerBoostMode
            || opcode == Opcode::EcSnoopAllow || opcode == Opcode::EventComEnable
            || opcode == Opcode::EventRtcEnable || opcode == Opcode::EventUsbAttachEnable
            || opcode == Opcode::GpioDataOut || opcode == Opcode::GpioDataDrive
            || opcode == Opcode::GpioIntMask || opcode == Opcode::GpioIntAsFalling
            || opcode == Opcode::GpioIntEna || opcode == Opcode::SelfDestruct
            || opcode == Opcode::UartMux || opcode == Opcode::Vibe || opcode == Opcode::EcReset
            || opcode == Opcode::EcPowerOn || opcode == Opcode::SuspendResume
            || opcode == Opcode::GpioIntHappened || opcode == Opcode::EventActivityHappened
            || opcode == Opcode::CrgMode,
    ensures
        llio::actions_after(state, Some(opcode), body) == seq![Action::NoteWrongKind],
        llio::state_after(state, Some(opcode), body) == state,
{
}

/// These requests wait for an answer; one that does not is noted, and has no
/// effect.
pub proof fn law_requests_that_wait(state: LlioState, opcode: Opcode, body: Body)
    requires
        !(body is BlockingScalar),
        opcode == Opcode::PowerAudio || opcode == Opcode::PowerCrypto
            || opcode == Opcode::WfiOverride || opcode == Opcode::GpioDataIn
            || opcode == Opcode::GpioIntPending || opcode == Opcode::InfoDna
            || opcode == Opcode::InfoGit || opcode == Opcode::InfoPlatform
            || opcode == Opcode::InfoTarget || opcode == Opcode::PowerCryptoStatus
            || opcode == Opcode::AdcVbus || opcode == Opcode::AdcVccInt
            || opcode == Opcode::AdcVccAux || opcode == Opcode::AdcVccBram
            || opcode == Opcode::AdcUsbN || opcode == Opcode::AdcUsbP
            || opcode == Opcode::AdcTemperature || opcode == Opcode::AdcGpio5
            || opcode == Opcode::AdcGpio2 || opcode == Opcode::GetActivity
            || opcode == Opcode::DebugUsbOp || opcode == Opcode::SetWakeupAlarm
            || opcode == Opcode::ClearWakeupAlarm || opcode == Opcode::SetRtcAlarm
            || opcode == Opcode::ClearRtcAlarm || opcode == Opcode::GetRtcCount,
    ensures
        llio::actions_after(state, Some(opcode), body) == seq![Action::NoteWrongKind],
        llio::state_after(state, Some(opcode), body) == state,
{
}

/// All messages can be taken but these: a subscription that is not in memory, a
/// setting of the charger, and a question for made-up activity that could not
/// move on.
pub proof fn law_acceptable(state: LlioState, opcode: Opcode, body: Body)
    ensures
        llio::acceptable(state, None, body),
        !llio::acceptable(state, Some(opcode), body) <==> {
            ||| (opcode == Opcode::EventUsbAttachSubscribe || opcode == Opcode::EventComSubscribe
                || opcode == Opcode::EventRtcSubscribe || opcode == Opcode::GpioIntSubscribe) && !(
            body is Memory)
            ||| opcode == Opcode::CrgMode && body is Scalar
            ||| opcode == Opcode::GetActivity && body is BlockingScalar && state.config.hosted
                && state.latest_activity + 600 > u32::MAX
        },
{
}

} // verus!
