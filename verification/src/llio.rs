//! The low-level I/O server: the one owner of the board's pins, power switches,
//! analog inputs and event interrupts, and of the alarms of the clock.
//!
//! A message leads to a series of actions, which are carried out in order. An
//! action that reads the board is followed by [`answer`], one that takes a
//! subscription by [`connect_request`], and one that connects to a subscriber by
//! [`Llio::do_hook`].
use vstd::prelude::*;
use crate::callbacks::{CID, ScalarCallback, ScalarHook, ScalarMessage};
use crate::callbacks;
use crate::i2c::I2cOpcode;
use crate::i2c;
use crate::message::{Args, Body};
use crate::rtc::{AlarmOutcome, AlarmRequest, RegisterWrite, RtcAlarms};
use crate::rtc;

verus! {

/// Connections that the I2C server may have. The bus can be used to set the
/// time, so it is counted who has access to it.
pub const I2C_MAX_CONNECTIONS: u32 = 3;

/// The made-up activity period of a system without hardware.
pub const HOSTED_ACTIVITY_PERIOD: u32 = 12_000;

/// What the server is asked to do.
#[derive(Clone, Copy, Debug, PartialEq, Eq)]
pub enum Opcode {
    /// Not available yet.
    CrgMode,
    GpioDataOut,
    GpioDataIn,
    GpioDataDrive,
    GpioIntMask,
    GpioIntAsFalling,
    GpioIntPending,
    GpioIntEna,
    GpioIntSubscribe,
    GpioIntHappened,
    UartMux,
    InfoDna,
    InfoGit,
    InfoPlatform,
    InfoTarget,
    PowerAudio,
    PowerCrypto,
    PowerCryptoStatus,
    PowerSelf,
    PowerBoostMode,
    EcSnoopAllow,
    EcReset,
    EcPowerOn,
    SelfDestruct,
    Vibe,
    AdcVbus,
    AdcVccInt,
    AdcVccAux,
    AdcVccBram,
    AdcUsbN,
    AdcUsbP,
    AdcTemperature,
    AdcGpio5,
    AdcGpio2,
    EventComSubscribe,
    EventComEnable,
    EventComHappened,
    EventRtcSubscribe,
    EventRtcEnable,
    EventRtcHappened,
    EventUsbAttachSubscribe,
    EventUsbAttachEnable,
    EventUsbHappened,
    EventActivityHappened,
    GetActivity,
    SuspendResume,
    DebugPowerdown,
    DebugWakeup,
    DebugUsbOp,
    WfiOverride,
    SetWakeupAlarm,
    ClearWakeupAlarm,
    SetRtcAlarm,
    ClearRtcAlarm,
    GetRtcCount,
    GetSessionOffset,
    Quit,
}

/// The number that stands for an opcode in a message: its place in the list of
/// the opcodes.
pub open spec fn opcode_number(opcode: Opcode) -> usize {
    match opcode {
        Opcode::CrgMode => 0,
        Opcode::GpioDataOut => 1,
        Opcode::GpioDataIn => 2,
        Opcode::GpioDataDrive => 3,
        Opcode::GpioIntMask => 4,
        Opcode::GpioIntAsFalling => 5,
        Opcode::GpioIntPending => 6,
        Opcode::GpioIntEna => 7,
        Opcode::GpioIntSubscribe => 8,
        Opcode::GpioIntHappened => 9,
        Opcode::UartMux => 10,
        Opcode::InfoDna => 11,
        Opcode::InfoGit => 12,
        Opcode::InfoPlatform => 13,
        Opcode::InfoTarget => 14,
        Opcode::PowerAudio => 15,
        Opcode::PowerCrypto => 16,
        Opcode::PowerCryptoStatus => 17,
        Opcode::PowerSelf => 18,
        Opcode::PowerBoostMode => 19,
        Opcode::EcSnoopAllow => 20,
        Opcode::EcReset => 21,
        Opcode::EcPowerOn => 22,
        Opcode::SelfDestruct => 23,
        Opcode::Vibe => 24,
        Opcode::AdcVbus => 25,
        Opcode::AdcVccInt => 26,
        Opcode::AdcVccAux => 27,
        Opcode::AdcVccBram => 28,
        Opcode::AdcUsbN => 29,
        Opcode::AdcUsbP => 30,
        Opcode::AdcTemperature => 31,
        Opcode::AdcGpio5 => 32,
        Opcode::AdcGpio2 => 33,
        Opcode::EventComSubscribe => 34,
        Opcode::EventComEnable => 35,
        Opcode::EventComHappened => 36,
        Opcode::EventRtcSubscribe => 37,
        Opcode::EventRtcEnable => 38,
        Opcode::EventRtcHappened => 39,
        Opcode::EventUsbAttachSubscribe => 40,
        Opcode::EventUsbAttachEnable => 41,
        Opcode::EventUsbHappened => 42,
        Opcode::EventActivityHappened => 43,
        Opcode::GetActivity => 44,
        Opcode::SuspendResume => 45,
        Opcode::DebugPowerdown => 46,
        Opcode::DebugWakeup => 47,
        Opcode::DebugUsbOp => 48,
        Opcode::WfiOverride => 49,
        Opcode::SetWakeupAlarm => 50,
        Opcode::ClearWakeupAlarm => 51,
        Opcode::SetRtcAlarm => 52,
        Opcode::ClearRtcAlarm => 53,
        Opcode::GetRtcCount => 54,
        Opcode::GetSessionOffset => 55,
        Opcode::Quit => 56,
    }
}

/// The opcode that a number stands for, if there is one.
pub open spec fn opcode_of(id: usize) -> Option<Opcode> {
    match id {
        0 => Some(Opcode::CrgMode),
        1 => Some(Opcode::GpioDataOut),
        2 => Some(Opcode::GpioDataIn),
        3 => Some(Opcode::GpioDataDrive),
        4 => Some(Opcode::GpioIntMask),
        5 => Some(Opcode::GpioIntAsFalling),
        6 => Some(Opcode::GpioIntPending),
        7 => Some(Opcode::GpioIntEna),
        8 => Some(Opcode::GpioIntSubscribe),
        9 => Some(Opcode::GpioIntHappened),
        10 => Some(Opcode::UartMux),
        11 => Some(Opcode::InfoDna),
        12 => Some(Opcode::InfoGit),
        13 => Some(Opcode::InfoPlatform),
        14 => Some(Opcode::InfoTarget),
        15 => Some(Opcode::PowerAudio),
        16 => Some(Opcode::PowerCrypto),
        17 => Some(Opcode::PowerCryptoStatus),
        18 => Some(Opcode::PowerSelf),
        19 => Some(Opcode::PowerBoostMode),
        20 => Some(Opcode::EcSnoopAllow),
        21 => Some(Opcode::EcReset),
        22 => Some(Opcode::EcPowerOn),
        23 => Some(Opcode::SelfDestruct),
        24 => Some(Opcode::Vibe),
        25 => Some(Opcode::AdcVbus),
        26 => Some(Opcode::AdcVccInt),
        27 => Some(Opcode::AdcVccAux),
        28 => Some(Opcode::AdcVccBram),
        29 => Some(Opcode::AdcUsbN),
        30 => Some(Opcode::AdcUsbP),
        31 => Some(Opcode::AdcTemperature),
        32 => Some(Opcode::AdcGpio5),
        33 => Some(Opcode::AdcGpio2),
        34 => Some(Opcode::EventComSubscribe),
        35 => Some(Opcode::EventComEnable),
        36 => Some(Opcode::EventComHappened),
        37 => Some(Opcode::EventRtcSubscribe),
        38 => Some(Opcode::EventRtcEnable),
        39 => Some(Opcode::EventRtcHappened),
        40 => Some(Opcode::EventUsbAttachSubscribe),
        41 => Some(Opcode::EventUsbAttachEnable),
        42 => Some(Opcode::EventUsbHappened),
        43 => Some(Opcode::EventActivityHappened),
        44 => Some(Opcode::GetActivity),
        45 => Some(Opcode::SuspendResume),
        46 => Some(Opcode::DebugPowerdown),
        47 => Some(Opcode::DebugWakeup),
        48 => Some(Opcode::DebugUsbOp),
        49 => Some(Opcode::WfiOverride),
        50 => Some(Opcode::SetWakeupAlarm),
        51 => Some(Opcode::ClearWakeupAlarm),
        52 => Some(Opcode::SetRtcAlarm),
        53 => Some(Opcode::ClearRtcAlarm),
        54 => Some(Opcode::GetRtcCount),
        55 => Some(Opcode::GetSessionOffset),
        56 => Some(Opcode::Quit),
        _ => None,
    }
}

impl Opcode {
    /// The number that stands for the opcode in a message.
    pub fn to_usize(&self) -> (id: usize)
        ensures
            id == opcode_number(*self),
    {
        match self {
            Opcode::CrgMode => 0,
            Opcode::GpioDataOut => 1,
            Opcode::GpioDataIn => 2,
            Opcode::GpioDataDrive => 3,
            Opcode::GpioIntMask => 4,
            Opcode::GpioIntAsFalling => 5,
            Opcode::GpioIntPending => 6,
            Opcode::GpioIntEna => 7,
            Opcode::GpioIntSubscribe => 8,
            Opcode::GpioIntHappened => 9,
            Opcode::UartMux => 10,
            Opcode::InfoDna => 11,
            Opcode::InfoGit => 12,
            Opcode::InfoPlatform => 13,
            Opcode::InfoTarget => 14,
            Opcode::PowerAudio => 15,
            Opcode::PowerCrypto => 16,
            Opcode::PowerCryptoStatus => 17,
            Opcode::PowerSelf => 18,
            Opcode::PowerBoostMode => 19,
            Opcode::EcSnoopAllow => 20,
            Opcode::EcReset => 21,
            Opcode::EcPowerOn => 22,
            Opcode::SelfDestruct => 23,
            Opcode::Vibe => 24,
            Opcode::AdcVbus => 25,
            Opcode::AdcVccInt => 26,
            Opcode::AdcVccAux => 27,
            Opcode::AdcVccBram => 28,
            Opcode::AdcUsbN => 29,
            Opcode::AdcUsbP => 30,
            Opcode::AdcTemperature => 31,
            Opcode::AdcGpio5 => 32,
            Opcode::AdcGpio2 => 33,
            Opcode::EventComSubscribe => 34,
            Opcode::EventComEnable => 35,
            Opcode::EventComHappened => 36,
            Opcode::EventRtcSubscribe => 37,
            Opcode::EventRtcEnable => 38,
            Opcode::EventRtcHappened => 39,
            Opcode::EventUsbAttachSubscribe => 40,
            Opcode::EventUsbAttachEnable => 41,
            Opcode::EventUsbHappened => 42,
            Opcode::EventActivityHappened => 43,
            Opcode::GetActivity => 44,
            Opcode::SuspendResume => 45,
            Opcode::DebugPowerdown => 46,
            Opcode::DebugWakeup => 47,
            Opcode::DebugUsbOp => 48,
            Opcode::WfiOverride => 49,
            Opcode::SetWakeupAlarm => 50,
            Opcode::ClearWakeupAlarm => 51,
            Opcode::SetRtcAlarm => 52,
            Opcode::ClearRtcAlarm => 53,
            Opcode::GetRtcCount => 54,
            Opcode::GetSessionOffset => 55,
            Opcode::Quit => 56,
        }
    }

    /// The opcode that a number stands for, if there is one.
    pub fn from_usize(id: usize) -> (opcode: Option<Opcode>)
        ensures
            opcode == opcode_of(id),
    {
        match id {
            0 => Some(Opcode::CrgMode),
            1 => Some(Opcode::GpioDataOut),
            2 => Some(Opcode::GpioDataIn),
            3 => Some(Opcode::GpioDataDrive),
            4 => Some(Opcode::GpioIntMask),
            5 => Some(Opcode::GpioIntAsFalling),
            6 => Some(Opcode::GpioIntPending),
            7 => Some(Opcode::GpioIntEna),
            8 => Some(Opcode::GpioIntSubscribe),
            9 => Some(Opcode::GpioIntHappened),
            10 => Some(Opcode::UartMux),
            11 => Some(Opcode::InfoDna),
            12 => Some(Opcode::InfoGit),
            13 => Some(Opcode::InfoPlatform),
            14 => Some(Opcode::InfoTarget),
            15 => Some(Opcode::PowerAudio),
            16 => Some(Opcode::PowerCrypto),
            17 => Some(Opcode::PowerCryptoStatus),
            18 => Some(Opcode::PowerSelf),
            19 => Some(Opcode::PowerBoostMode),
            20 => Some(Opcode::EcSnoopAllow),
            21 => Some(Opcode::EcReset),
            22 => Some(Opcode::EcPowerOn),
            23 => Some(Opcode::SelfDestruct),
            24 => Some(Opcode::Vibe),
            25 => Some(Opcode::AdcVbus),
            26 => Some(Opcode::AdcVccInt),
            27 => Some(Opcode::AdcVccAux),
            28 => Some(Opcode::AdcVccBram),
            29 => Some(Opcode::AdcUsbN),
            30 => Some(Opcode::AdcUsbP),
            31 => Some(Opcode::AdcTemperature),
            32 => Some(Opcode::AdcGpio5),
            33 => Some(Opcode::AdcGpio2),
            34 => Some(Opcode::EventComSubscribe),
            35 => Some(Opcode::EventComEnable),
            36 => Some(Opcode::EventComHappened),
            37 => Some(Opcode::EventRtcSubscribe),
            38 => Some(Opcode::EventRtcEnable),
            39 => Some(Opcode::EventRtcHappened),
            40 => Some(Opcode::EventUsbAttachSubscribe),
            41 => Some(Opcode::EventUsbAttachEnable),
            42 => Some(Opcode::EventUsbHappened),
            43 => Some(Opcode::EventActivityHappened),
            44 => Some(Opcode::GetActivity),
            45 => Some(Opcode::SuspendResume),
            46 => Some(Opcode::DebugPowerdown),
            47 => Some(Opcode::DebugWakeup),
            48 => Some(Opcode::DebugUsbOp),
            49 => Some(Opcode::WfiOverride),
            50 => Some(Opcode::SetWakeupAlarm),
            51 => Some(Opcode::ClearWakeupAlarm),
            52 => Some(Opcode::SetRtcAlarm),
            53 => Some(Opcode::ClearRtcAlarm),
            54 => Some(Opcode::GetRtcCount),
            55 => Some(Opcode::GetSessionOffset),
            56 => Some(Opcode::Quit),
            _ => None,
        }
    }
}

/// A number stands for an opcode if and only if it is the number of that opcode.
pub proof fn law_opcode_numbers(opcode: Opcode, id: usize)
    ensures
        opcode_of(id) == Some(opcode) <==> opcode_number(opcode) == id,
        opcode_of(id) is Some <==> id < 57,
{
}

/// The numbers run from zero up, in this order, without a gap.
pub proof fn law_opcode_order(id: usize)
    requires
        id < 57,
    ensures
        ({
            let order = seq![
                Opcode::CrgMode,
                Opcode::GpioDataOut,
                Opcode::GpioDataIn,
                Opcode::GpioDataDrive,
                Opcode::GpioIntMask,
                Opcode::GpioIntAsFalling,
                Opcode::GpioIntPending,
                Opcode::GpioIntEna,
                Opcode::GpioIntSubscribe,
                Opcode::GpioIntHappened,
                Opcode::UartMux,
                Opcode::InfoDna,
                Opcode::InfoGit,
                Opcode::InfoPlatform,
                Opcode::InfoTarget,
                Opcode::PowerAudio,
                Opcode::PowerCrypto,
                Opcode::PowerCryptoStatus,
                Opcode::PowerSelf,
                Opcode::PowerBoostMode,
                Opcode::EcSnoopAllow,
                Opcode::EcReset,
                Opcode::EcPowerOn,
                Opcode::SelfDestruct,
                Opcode::Vibe,
                Opcode::AdcVbus,
                Opcode::AdcVccInt,
                Opcode::AdcVccAux,
                Opcode::AdcVccBram,
                Opcode::AdcUsbN,
                Opcode::AdcUsbP,
                Opcode::AdcTemperature,
                Opcode::AdcGpio5,
                Opcode::AdcGpio2,
                Opcode::EventComSubscribe,
                Opcode::EventComEnable,
                Opcode::EventComHappened,
                Opcode::EventRtcSubscribe,
                Opcode::EventRtcEnable,
                Opcode::EventRtcHappened,
                Opcode::EventUsbAttachSubscribe,
                Opcode::EventUsbAttachEnable,
                Opcode::EventUsbHappened,
                Opcode::EventActivityHappened,
                Opcode::GetActivity,
                Opcode::SuspendResume,
                Opcode::DebugPowerdown,
                Opcode::DebugWakeup,
                Opcode::DebugUsbOp,
                Opcode::WfiOverride,
                Opcode::SetWakeupAlarm,
                Opcode::ClearWakeupAlarm,
                Opcode::SetRtcAlarm,
                Opcode::ClearRtcAlarm,
                Opcode::GetRtcCount,
                Opcode::GetSessionOffset,
                Opcode::Quit,
            ];
            &&& order.len() == 57
            &&& opcode_of(id) == Some(order[id as int])
            &&& opcode_number(order[id as int]) == id
        }),
{
}

/// Something that is done to the board.
#[derive(Clone, Copy, Debug, PartialEq, Eq)]
pub enum BoardCommand {
    GpioDout(u32),
    GpioDrive(u32),
    GpioIntMask(u32),
    GpioIntAsFalling(u32),
    GpioIntEna(u32),
    DebugPowerdown(bool),
    DebugWakeup(bool),
    /// By the number of the setting.
    SetUartMux(usize),
    PowerAudio(bool),
    PowerCrypto(bool),
    WfiOverride(bool),
    PowerSelf(bool),
    PowerBoostMode(bool),
    EcSnoopAllow(bool),
    EcReset,
    EcPowerOn,
    SelfDestruct(u32),
    /// By the number of the pattern.
    Vibe(usize),
    VibeDouble,
    ComIntEna(bool),
    RtcIntEna(bool),
    UsbIntEna(bool),
    SetUsbDisable(bool),
    Suspend,
    Resume,
    /// Show that the system sleeps.
    TtsSleepIndicate,
}

/// An analog input.
#[derive(Clone, Copy, Debug, PartialEq, Eq)]
pub enum AdcInput {
    Vbus,
    VccInt,
    VccAux,
    VccBram,
    UsbN,
    UsbP,
    Temperature,
    Gpio5,
    Gpio2,
}

/// Something that is read from the board, with what else goes into the answer.
#[derive(Clone, Copy, Debug, PartialEq, Eq)]
pub enum Query {
    GpioDin,
    GpioIntPending,
    InfoDna,
    InfoGit,
    InfoPlatform,
    InfoTarget,
    PowerCryptoStatus,
    Adc(AdcInput),
    ActivityPeriod { latest_activity: u32 },
    UsbDisable { force_update: bool },
}

/// What was read from the board.
#[derive(Clone, Copy, Debug, PartialEq, Eq)]
pub enum Reading {
    Word(u32),
    Pair(usize, usize),
    Crypto { sha: bool, engine: bool, force: bool },
    Flag(bool),
}

/// What subscribers can be told of.
#[derive(Clone, Copy, Debug, PartialEq, Eq)]
pub enum EventSource {
    Usb,
    Com,
    Rtc,
    Gpio,
}

/// A server that is known by name.
#[derive(Clone, Copy, Debug, PartialEq, Eq)]
pub enum Service {
    Llio,
    I2c,
}

/// What the server does, one step after the other.
#[derive(Clone, Copy, Debug, PartialEq, Eq)]
pub enum Action {
    /// Register a server under its name, with a limit to its connections.
    RegisterServer { service: Service, max_connections: Option<u32> },
    /// Run the I2C server on a thread of its own.
    StartI2cServer,
    /// Connect to the server itself, and set the board up to report to it.
    OpenBoard,
    /// Connect to the I2C server, to reach the clock.
    OpenClock,
    /// Ask for a message with this opcode before every suspend, among the last
    /// or in no special order.
    HookSuspend { id: usize, late: bool },
    /// Do something to the board.
    Board(BoardCommand),
    /// Tell the system that it may be suspended, and wait until it has resumed.
    SuspendUntilResume { token: usize },
    /// Read the board, and answer the sender.
    Ask(Query),
    /// Answer the sender.
    Reply { value: usize },
    /// Answer the sender with two numbers.
    Reply2 { first: usize, second: usize },
    /// Write a register of the clock.
    WriteClock(RegisterWrite),
    /// Take the subscription out of the message, and go on with [`connect_request`].
    TakeHook { source: EventSource },
    /// Connect to a server, and register the subscriber on that connection.
    Connect { sid: (u32, u32, u32, u32), source: EventSource, hookdata: ScalarHook },
    /// Try to send a message, without waiting for room.
    TrySend(ScalarMessage),
    /// Send a message, wait until it is taken, and close the connection.
    SendAndDisconnect(ScalarMessage),
    /// Send the I2C server this message, on a connection made for that.
    SendToI2cServer { id: usize, args: Args },
    /// Note that the message was not of the kind that its opcode asks for.
    NoteWrongKind,
    /// Note that the opcode is not known.
    NoteUnknownOpcode,
    /// Note that the delay of an alarm is longer than this many seconds.
    NoteDelayTooLong { request: AlarmRequest, max_delay: usize },
    /// Give up the name of the server.
    UnregisterServer,
    /// Give up the server.
    DestroyServer,
    /// End the process.
    Terminate { code: u32 },
}

/// What the server was built for.
#[derive(Clone, Copy, Debug, PartialEq, Eq)]
pub struct Config {
    /// There is no hardware, and activity is made up.
    pub hosted: bool,
    /// The user is told about sleep by other means than the screen.
    pub tts: bool,
    /// The processor never waits for interrupts.
    pub wfi_off: bool,
}

/// State of the server.
pub struct Llio {
    pub config: Config,
    pub latest_activity: u32,
    pub usb_cb_conns: [Option<ScalarCallback>; 32],
    pub com_cb_conns: [Option<ScalarCallback>; 32],
    pub rtc_cb_conns: [Option<ScalarCallback>; 32],
    pub gpio_cb_conns: [Option<ScalarCallback>; 32],
    /// Whether the lock status has to be drawn again though it is the same.
    pub lockstatus_force_update: bool,
    pub alarms: RtcAlarms,
    /// Whether the server still takes messages.
    pub running: bool,
}

/// The model of the server's state: each table is the sequence of its slots.
#[verifier::ext_equal]
pub struct LlioState {
    pub config: Config,
    pub latest_activity: u32,
    pub usb: Seq<Option<ScalarCallback>>,
    pub com: Seq<Option<ScalarCallback>>,
    pub rtc: Seq<Option<ScalarCallback>>,
    pub gpio: Seq<Option<ScalarCallback>>,
    pub lockstatus_force_update: bool,
    pub alarms: RtcAlarms,
    pub running: bool,
}

/// The state that the server starts in: nobody has subscribed, the alarms are
/// off, and the lock status is still to be drawn.
pub open spec fn boot_state(config: Config) -> LlioState {
    LlioState {
        config,
        latest_activity: 0,
        usb: empty_table(),
        com: empty_table(),
        rtc: empty_table(),
        gpio: empty_table(),
        lockstatus_force_update: true,
        alarms: RtcAlarms { rtc_alarm_enabled: false, wakeup_alarm_enabled: false },
        running: true,
    }
}

impl View for Llio {
    type V = LlioState;

    open spec fn view(&self) -> LlioState {
        LlioState {
            config: self.config,
            latest_activity: self.latest_activity,
            usb: self.usb_cb_conns@,
            com: self.com_cb_conns@,
            rtc: self.rtc_cb_conns@,
            gpio: self.gpio_cb_conns@,
            lockstatus_force_update: self.lockstatus_force_update,
            alarms: self.alarms,
            running: self.running,
        }
    }
}

/// A table without subscribers.
pub open spec fn empty_table() -> Seq<Option<ScalarCallback>> {
    Seq::new(callbacks::MAX_CALLBACKS as nat, |i: int| None)
}

impl LlioState {
    /// The table of an event source.
    pub open spec fn table(self, source: EventSource) -> Seq<Option<ScalarCallback>> {
        match source {
            EventSource::Usb => self.usb,
            EventSource::Com => self.com,
            EventSource::Rtc => self.rtc,
            EventSource::Gpio => self.gpio,
        }
    }

    /// The state with the table of an event source replaced.
    pub open spec fn with_table(
        self,
        source: EventSource,
        slots: Seq<Option<ScalarCallback>>,
    ) -> LlioState {
        match source {
            EventSource::Usb => LlioState { usb: slots, ..self },
            EventSource::Com => LlioState { com: slots, ..self },
            EventSource::Rtc => LlioState { rtc: slots, ..self },
            EventSource::Gpio => LlioState { gpio: slots, ..self },
        }
    }

    /// Every table has all its slots, and no free slot before a taken one.
    pub open spec fn wf(self) -> bool {
        forall|source: EventSource|
            {
                &&& (#[trigger] self.table(source)).len() == callbacks::MAX_CALLBACKS
                &&& callbacks::packed(self.table(source))
            }
    }
}

/// The kind of message that an opcode asks for.
pub enum Kind {
    Scalar,
    BlockingScalar,
    Memory,
    Any,
}

/// The kind of message that an opcode asks for.
pub open spec fn kind_of(opcode: Opcode) -> Kind {
    match opcode {
        Opcode::GpioDataIn | Opcode::GpioIntPending | Opcode::InfoDna | Opcode::InfoGit
        | Opcode::InfoPlatform | Opcode::InfoTarget | Opcode::PowerAudio | Opcode::PowerCrypto
        | Opcode::PowerCryptoStatus | Opcode::AdcVbus | Opcode::AdcVccInt | Opcode::AdcVccAux
        | Opcode::AdcVccBram | Opcode::AdcUsbN | Opcode::AdcUsbP | Opcode::AdcTemperature
        | Opcode::AdcGpio5 | Opcode::AdcGpio2 | Opcode::GetActivity | Opcode::DebugUsbOp
        | Opcode::WfiOverride | Opcode::SetWakeupAlarm | Opcode::ClearWakeupAlarm
        | Opcode::SetRtcAlarm | Opcode::ClearRtcAlarm | Opcode::GetRtcCount => Kind::BlockingScalar,
        Opcode::EventUsbAttachSubscribe | Opcode::EventComSubscribe | Opcode::EventRtcSubscribe
        | Opcode::GpioIntSubscribe => Kind::Memory,
        Opcode::EventComHappened | Opcode::EventRtcHappened | Opcode::EventUsbHappened
        | Opcode::GetSessionOffset | Opcode::Quit => Kind::Any,
        _ => Kind::Scalar,
    }
}

/// Whether a message is of the kind that its opcode asks for.
pub open spec fn fits(opcode: Opcode, body: Body) -> bool {
    match kind_of(opcode) {
        Kind::Scalar => body is Scalar,
        Kind::BlockingScalar => body is BlockingScalar,
        Kind::Memory => body is Memory,
        Kind::Any => true,
    }
}

/// What an opcode does to the board, if that is all that it does.
pub open spec fn plain_command(opcode: Opcode, arg: usize) -> Option<BoardCommand> {
    match opcode {
        Opcode::GpioDataOut => Some(BoardCommand::GpioDout(arg as u32)),
        Opcode::GpioDataDrive => Some(BoardCommand::GpioDrive(arg as u32)),
        Opcode::GpioIntMask => Some(BoardCommand::GpioIntMask(arg as u32)),
        Opcode::GpioIntAsFalling => Some(BoardCommand::GpioIntAsFalling(arg as u32)),
        Opcode::GpioIntEna => Some(BoardCommand::GpioIntEna(arg as u32)),
        Opcode::DebugPowerdown => Some(BoardCommand::DebugPowerdown(arg != 0)),
        Opcode::DebugWakeup => Some(BoardCommand::DebugWakeup(arg != 0)),
        Opcode::UartMux => Some(BoardCommand::SetUartMux(arg)),
        Opcode::PowerSelf => Some(BoardCommand::PowerSelf(arg != 0)),
        Opcode::PowerBoostMode => Some(BoardCommand::PowerBoostMode(arg != 0)),
        Opcode::EcSnoopAllow => Some(BoardCommand::EcSnoopAllow(arg != 0)),
        Opcode::EcReset => Some(BoardCommand::EcReset),
        Opcode::EcPowerOn => Some(BoardCommand::EcPowerOn),
        Opcode::SelfDestruct => Some(BoardCommand::SelfDestruct(arg as u32)),
        Opcode::Vibe => Some(BoardCommand::Vibe(arg)),
        Opcode::EventComEnable => Some(BoardCommand::ComIntEna(arg != 0)),
        Opcode::EventRtcEnable => Some(BoardCommand::RtcIntEna(arg != 0)),
        Opcode::EventUsbAttachEnable => Some(BoardCommand::UsbIntEna(arg != 0)),
        _ => None,
    }
}

/// What an opcode does to the board whose sender waits until it is done.
pub open spec fn confirmed_command(opcode: Opcode, arg: usize) -> Option<BoardCommand> {
    match opcode {
        Opcode::PowerAudio => Some(BoardCommand::PowerAudio(arg != 0)),
        Opcode::PowerCrypto => Some(BoardCommand::PowerCrypto(arg != 0)),
        Opcode::WfiOverride => Some(BoardCommand::WfiOverride(arg != 0)),
        _ => None,
    }
}

/// What an opcode reads from the board, if that is all that it does.
pub open spec fn plain_query(opcode: Opcode) -> Option<Query> {
    match opcode {
        Opcode::GpioDataIn => Some(Query::GpioDin),
        Opcode::GpioIntPending => Some(Query::GpioIntPending),
        Opcode::InfoDna => Some(Query::InfoDna),
        Opcode::InfoGit => Some(Query::InfoGit),
        Opcode::InfoPlatform => Some(Query::InfoPlatform),
        Opcode::InfoTarget => Some(Query::InfoTarget),
        Opcode::PowerCryptoStatus => Some(Query::PowerCryptoStatus),
        Opcode::AdcVbus => Some(Query::Adc(AdcInput::Vbus)),
        Opcode::AdcVccInt => Some(Query::Adc(AdcInput::VccInt)),
        Opcode::AdcVccAux => Some(Query::Adc(AdcInput::VccAux)),
        Opcode::AdcVccBram => Some(Query::Adc(AdcInput::VccBram)),
        Opcode::AdcUsbN => Some(Query::Adc(AdcInput::UsbN)),
        Opcode::AdcUsbP => Some(Query::Adc(AdcInput::UsbP)),
        Opcode::AdcTemperature => Some(Query::Adc(AdcInput::Temperature)),
        Opcode::AdcGpio5 => Some(Query::Adc(AdcInput::Gpio5)),
        Opcode::AdcGpio2 => Some(Query::Adc(AdcInput::Gpio2)),
        _ => None,
    }
}

/// What an opcode asks of the alarms.
pub open spec fn alarm_request(opcode: Opcode, delay: usize) -> Option<AlarmRequest> {
    match opcode {
        Opcode::SetWakeupAlarm => Some(AlarmRequest::SetWakeupAlarm { delay }),
        Opcode::ClearWakeupAlarm => Some(AlarmRequest::ClearWakeupAlarm),
        Opcode::SetRtcAlarm => Some(AlarmRequest::SetRtcAlarm { delay }),
        Opcode::ClearRtcAlarm => Some(AlarmRequest::ClearRtcAlarm),
        _ => None,
    }
}

/// What an opcode subscribes to.
pub open spec fn subscription(opcode: Opcode) -> Option<EventSource> {
    match opcode {
        Opcode::EventUsbAttachSubscribe => Some(EventSource::Usb),
        Opcode::EventComSubscribe => Some(EventSource::Com),
        Opcode::EventRtcSubscribe => Some(EventSource::Rtc),
        Opcode::GpioIntSubscribe => Some(EventSource::Gpio),
        _ => None,
    }
}

/// What an opcode says has happened, and to which part of the source.
pub open spec fn happening(opcode: Opcode, body: Body) -> Option<(EventSource, usize)> {
    match (opcode, body) {
        (Opcode::EventComHappened, _) => Some((EventSource::Com, 0)),
        (Opcode::EventRtcHappened, _) => Some((EventSource::Rtc, 0)),
        (Opcode::EventUsbHappened, _) => Some((EventSource::Usb, 0)),
        (Opcode::GpioIntHappened, Body::Scalar(args)) => Some((EventSource::Gpio, args.arg1)),
        _ => None,
    }
}

/// The first number of a message.
pub open spec fn first_arg(body: Body) -> usize {
    match body {
        Body::Scalar(args) => args.arg1,
        Body::BlockingScalar(args) => args.arg1,
        Body::Memory => 0,
    }
}

/// The second number of a message.
pub open spec fn second_arg(body: Body) -> usize {
    match body {
        Body::Scalar(args) => args.arg2,
        Body::BlockingScalar(args) => args.arg2,
        Body::Memory => 0,
    }
}

/// The messages of an event, each to be sent without waiting for room.
pub open spec fn event_actions(slots: Seq<Option<ScalarCallback>>, which: usize) -> Seq<Action> {
    callbacks::event_messages(callbacks::subscribers(slots), which).map_values(
        |message: ScalarMessage| Action::TrySend(message),
    )
}

/// The farewells to the subscribers of a table.
pub open spec fn farewell_actions(slots: Seq<Option<ScalarCallback>>) -> Seq<Action> {
    callbacks::drop_messages(callbacks::subscribers(slots)).map_values(
        |message: ScalarMessage| Action::SendAndDisconnect(message),
    )
}

/// The writes to the clock.
pub open spec fn clock_actions(writes: Seq<RegisterWrite>) -> Seq<Action> {
    writes.map_values(|write: RegisterWrite| Action::WriteClock(write))
}

/// An action that is there only if a condition holds.
pub open spec fn action_if(condition: bool, action: Action) -> Seq<Action> {
    if condition {
        seq![action]
    } else {
        Seq::empty()
    }
}

/// A suspend of the system, from saving the state of the board to restoring it.
/// The sign of sleep comes after the state is saved, so that it is not
/// restored.
pub open spec fn suspend_actions(tts: bool, token: usize) -> Seq<Action> {
    seq![Action::Board(BoardCommand::Suspend)] + action_if(
        tts,
        Action::Board(BoardCommand::TtsSleepIndicate),
    ) + seq![Action::SuspendUntilResume { token }, Action::Board(BoardCommand::Resume)] + action_if(
        tts,
        Action::Board(BoardCommand::VibeDouble),
    )
}

/// The I2C server is told to quit.
pub open spec fn stop_i2c_action() -> Action {
    Action::SendToI2cServer {
        id: i2c::i2c_opcode_number(I2cOpcode::Quit),
        args: Args { arg1: 0, arg2: 0, arg3: 0, arg4: 0 },
    }
}

/// What is done about an alarm request: either a note that it is refused, or
/// the writes to the clock, and then the answer.
pub open spec fn alarm_actions(alarms: RtcAlarms, request: AlarmRequest) -> Seq<Action> {
    if rtc::refused(request) {
        seq![
            Action::NoteDelayTooLong { request, max_delay: rtc::MAX_DELAY },
            Action::Reply { value: 1 },
        ]
    } else {
        clock_actions(rtc::alarm_writes(request, rtc::alarms_after(alarms, request))).push(
            Action::Reply { value: 0 },
        )
    }
}

/// The end of the server: the I2C server is stopped, every subscriber is told,
/// and the server and its process are given up.
pub open spec fn quit_actions(state: LlioState) -> Seq<Action> {
    seq![stop_i2c_action()] + farewell_actions(state.com) + farewell_actions(state.rtc)
        + farewell_actions(state.usb) + farewell_actions(state.gpio) + seq![
        Action::UnregisterServer,
        Action::DestroyServer,
        Action::Terminate { code: 0 },
    ]
}

/// What is done about a message of the right kind.
pub open spec fn actions_for(state: LlioState, opcode: Opcode, body: Body) -> Seq<Action> {
    let arg = first_arg(body);
    if let Some(command) = plain_command(opcode, arg) {
        seq![Action::Board(command)]
    } else if let Some(command) = confirmed_command(opcode, arg) {
        seq![Action::Board(command), Action::Reply { value: 0 }]
    } else if let Some(query) = plain_query(opcode) {
        seq![Action::Ask(query)]
    } else if let Some(request) = alarm_request(opcode, arg) {
        alarm_actions(state.alarms, request)
    } else if let Some(source) = subscription(opcode) {
        seq![Action::TakeHook { source }]
    } else if let Some((source, which)) = happening(opcode, body) {
        event_actions(state.table(source), which)
    } else {
        match opcode {
            Opcode::SuspendResume => suspend_actions(state.config.tts, arg),
            Opcode::GetActivity => if state.config.hosted {
                seq![
                    Action::Reply2 {
                        first: state.latest_activity as usize,
                        second: HOSTED_ACTIVITY_PERIOD as usize,
                    },
                ]
            } else {
                seq![
                    Action::Ask(Query::ActivityPeriod { latest_activity: state.latest_activity }),
                ]
            },
            Opcode::DebugUsbOp => action_if(
                arg != 0,
                Action::Board(BoardCommand::SetUsbDisable(second_arg(body) != 0)),
            ).push(
                Action::Ask(Query::UsbDisable { force_update: state.lockstatus_force_update }),
            ),
            Opcode::GetRtcCount => seq![Action::Reply2 { first: 0, second: 0 }],
            Opcode::Quit => quit_actions(state),
            _ => Seq::empty(),
        }
    }
}

/// The state after a message of the right kind.
pub open spec fn state_for(state: LlioState, opcode: Opcode, body: Body) -> LlioState {
    match opcode {
        Opcode::SuspendResume => LlioState { lockstatus_force_update: true, ..state },
        Opcode::DebugUsbOp => LlioState { lockstatus_force_update: false, ..state },
        Opcode::EventActivityHappened => LlioState {
            latest_activity: first_arg(body) as u32,
            ..state
        },
        Opcode::GetActivity => if state.config.hosted {
            LlioState {
                latest_activity: ((state.latest_activity + HOSTED_ACTIVITY_PERIOD / 20)
                    % HOSTED_ACTIVITY_PERIOD as int) as u32,
                ..state
            }
        } else {
            state
        },
        Opcode::Quit => LlioState {
            usb: empty_table(),
            com: empty_table(),
            rtc: empty_table(),
            gpio: empty_table(),
            running: false,
            ..state
        },
        _ => match alarm_request(opcode, first_arg(body)) {
            Some(request) => LlioState {
                alarms: rtc::alarms_after(state.alarms, request),
                ..state
            },
            None => state,
        },
    }
}

/// What is done about a message. One of the wrong kind is noted, and that is all.
pub open spec fn actions_after(state: LlioState, opcode: Option<Opcode>, body: Body) -> Seq<
    Action,
> {
    match opcode {
        None => seq![Action::NoteUnknownOpcode],
        Some(opcode) => if fits(opcode, body) {
            actions_for(state, opcode, body)
        } else {
            seq![Action::NoteWrongKind]
        },
    }
}

/// The state after a message.
pub open spec fn state_after(state: LlioState, opcode: Option<Opcode>, body: Body) -> LlioState {
    match opcode {
        None => state,
        Some(opcode) => if fits(opcode, body) {
            state_for(state, opcode, body)
        } else {
            state
        },
    }
}

/// The messages that the server can take. A subscription has to be in memory,
/// the charger mode cannot be set yet, and made-up activity has to stay a
/// 32-bit number.
pub open spec fn acceptable(state: LlioState, opcode: Option<Opcode>, body: Body) -> bool {
    match opcode {
        Some(opcode) => {
            &&& subscription(opcode) is Some ==> body is Memory
            &&& opcode is CrgMode ==> !(body is Scalar)
            &&& opcode is GetActivity && state.config.hosted && body is BlockingScalar
                ==> state.latest_activity + HOSTED_ACTIVITY_PERIOD / 20 <= u32::MAX
        },
        None => true,
    }
}

fn command_of(opcode: Opcode, arg: usize) -> (command: Option<BoardCommand>)
    ensures
        command == plain_command(opcode, arg),
{
    match opcode {
        Opcode::GpioDataOut => Some(BoardCommand::GpioDout(arg as u32)),
        Opcode::GpioDataDrive => Some(BoardCommand::GpioDrive(arg as u32)),
        Opcode::GpioIntMask => Some(BoardCommand::GpioIntMask(arg as u32)),
        Opcode::GpioIntAsFalling => Some(BoardCommand::GpioIntAsFalling(arg as u32)),
        Opcode::GpioIntEna => Some(BoardCommand::GpioIntEna(arg as u32)),
        Opcode::DebugPowerdown => Some(BoardCommand::DebugPowerdown(arg != 0)),
        Opcode::DebugWakeup => Some(BoardCommand::DebugWakeup(arg != 0)),
        Opcode::UartMux => Some(BoardCommand::SetUartMux(arg)),
        Opcode::PowerSelf => Some(BoardCommand::PowerSelf(arg != 0)),
        Opcode::PowerBoostMode => Some(BoardCommand::PowerBoostMode(arg != 0)),
        Opcode::EcSnoopAllow => Some(BoardCommand::EcSnoopAllow(arg != 0)),
        Opcode::EcReset => Some(BoardCommand::EcReset),
        Opcode::EcPowerOn => Some(BoardCommand::EcPowerOn),
        Opcode::SelfDestruct => Some(BoardCommand::SelfDestruct(arg as u32)),
        Opcode::Vibe => Some(BoardCommand::Vibe(arg)),
        Opcode::EventComEnable => Some(BoardCommand::ComIntEna(arg != 0)),
        Opcode::EventRtcEnable => Some(BoardCommand::RtcIntEna(arg != 0)),
        Opcode::EventUsbAttachEnable => Some(BoardCommand::UsbIntEna(arg != 0)),
        _ => None,
    }
}

fn confirmed_command_of(opcode: Opcode, arg: usize) -> (command: Option<BoardCommand>)
    ensures
        command == confirmed_command(opcode, arg),
{
    match opcode {
        Opcode::PowerAudio => Some(BoardCommand::PowerAudio(arg != 0)),
        Opcode::PowerCrypto => Some(BoardCommand::PowerCrypto(arg != 0)),
        Opcode::WfiOverride => Some(BoardCommand::WfiOverride(arg != 0)),
        _ => None,
    }
}

fn query_of(opcode: Opcode) -> (query: Option<Query>)
    ensures
        query == plain_query(opcode),
{
    match opcode {
        Opcode::GpioDataIn => Some(Query::GpioDin),
        Opcode::GpioIntPending => Some(Query::GpioIntPending),
        Opcode::InfoDna => Some(Query::InfoDna),
        Opcode::InfoGit => Some(Query::InfoGit),
        Opcode::InfoPlatform => Some(Query::InfoPlatform),
        Opcode::InfoTarget => Some(Query::InfoTarget),
        Opcode::PowerCryptoStatus => Some(Query::PowerCryptoStatus),
        Opcode::AdcVbus => Some(Query::Adc(AdcInput::Vbus)),
        Opcode::AdcVccInt => Some(Query::Adc(AdcInput::VccInt)),
        Opcode::AdcVccAux => Some(Query::Adc(AdcInput::VccAux)),
        Opcode::AdcVccBram => Some(Query::Adc(AdcInput::VccBram)),
        Opcode::AdcUsbN => Some(Query::Adc(AdcInput::UsbN)),
        Opcode::AdcUsbP => Some(Query::Adc(AdcInput::UsbP)),
        Opcode::AdcTemperature => Some(Query::Adc(AdcInput::Temperature)),
        Opcode::AdcGpio5 => Some(Query::Adc(AdcInput::Gpio5)),
        Opcode::AdcGpio2 => Some(Query::Adc(AdcInput::Gpio2)),
        _ => None,
    }
}

/// What the server does before it takes its first message.
pub fn startup(config: Config) -> (actions: Vec<Action>)
    ensures
        actions@ == seq![
            Action::RegisterServer { service: Service::Llio, max_connections: None },
            Action::RegisterServer {
                service: Service::I2c,
                max_connections: Some(I2C_MAX_CONNECTIONS),
            },
            Action::StartI2cServer,
            Action::OpenBoard,
            Action::Board(BoardCommand::EcPowerOn),
        ] + action_if(config.wfi_off, Action::Board(BoardCommand::WfiOverride(true))) + seq![
            Action::HookSuspend { id: opcode_number(Opcode::SuspendResume), late: true },
            Action::OpenClock,
        ],
        config.wfi_off ==> actions@ == seq![
            Action::RegisterServer { service: Service::Llio, max_connections: None },
            Action::RegisterServer { service: Service::I2c, max_connections: Some(3) },
            Action::StartI2cServer,
            Action::OpenBoard,
            Action::Board(BoardCommand::EcPowerOn),
            Action::Board(BoardCommand::WfiOverride(true)),
            Action::HookSuspend { id: 45, late: true },
            Action::OpenClock,
        ],
        !config.wfi_off ==> actions@ == seq![
            Action::RegisterServer { service: Service::Llio, max_connections: None },
            Action::RegisterServer { service: Service::I2c, max_connections: Some(3) },
            Action::StartI2cServer,
            Action::OpenBoard,
            Action::Board(BoardCommand::EcPowerOn),
            Action::HookSuspend { id: 45, late: true },
            Action::OpenClock,
        ],
{
    let mut actions: Vec<Action> = Vec::new();
    actions.push(Action::RegisterServer { service: Service::Llio, max_connections: None });
    actions.push(
        Action::RegisterServer {
            service: Service::I2c,
            max_connections: Some(I2C_MAX_CONNECTIONS),
        },
    );
    actions.push(Action::StartI2cServer);
    actions.push(Action::OpenBoard);
    // if the system is on, the embedded controller always has to be
    actions.push(Action::Board(BoardCommand::EcPowerOn));
    if config.wfi_off {
        actions.push(Action::Board(BoardCommand::WfiOverride(true)));
    }
    actions.push(Action::HookSuspend { id: Opcode::SuspendResume.to_usize(), late: true });
    actions.push(Action::OpenClock);
    actions
}

/// The connection to make for a subscription: to the server that it names.
pub fn connect_request(source: EventSource, hookdata: ScalarHook) -> (action: Action)
    ensures
        action == (Action::Connect { sid: hookdata.sid, source, hookdata }),
{
    Action::Connect { sid: hookdata.sid, source, hookdata }
}

/// Whether a reading is what a query asks for.
pub open spec fn answers(query: Query, reading: Reading) -> bool {
    match query {
        Query::GpioDin | Query::GpioIntPending | Query::Adc(_) | Query::ActivityPeriod { .. } =>
            reading is Word,
        Query::InfoDna | Query::InfoGit | Query::InfoPlatform | Query::InfoTarget => reading is Pair,
        Query::PowerCryptoStatus => reading is Crypto,
        Query::UsbDisable { .. } => reading is Flag,
    }
}

/// One for true and zero for false.
pub open spec fn flag_number(flag: bool) -> usize {
    if flag {
        1
    } else {
        0
    }
}

/// What the sender of a query is answered.
pub open spec fn answer_to(query: Query, reading: Reading) -> Action {
    match reading {
        Reading::Word(value) => match query {
            Query::ActivityPeriod { latest_activity } => Action::Reply2 {
                first: latest_activity as usize,
                second: value as usize,
            },
            _ => Action::Reply { value: value as usize },
        },
        Reading::Pair(first, second) => Action::Reply2 { first, second },
        Reading::Crypto { sha, engine, force } => Action::Reply {
            value: (flag_number(sha) + 2 * flag_number(engine) + 4 * flag_number(force)) as usize,
        },
        Reading::Flag(locked) => Action::Reply2 {
            first: flag_number(locked),
            second: flag_number(query->force_update),
        },
    }
}

/// The answer to a query, from what was read.
pub fn answer(query: Query, reading: Reading) -> (action: Action)
    requires
        answers(query, reading),
    ensures
        action == answer_to(query, reading),
{
    match reading {
        Reading::Word(value) => match query {
            Query::ActivityPeriod { latest_activity } => Action::Reply2 {
                first: latest_activity as usize,
                second: value as usize,
            },
            _ => Action::Reply { value: value as usize },
        },
        Reading::Pair(first, second) => Action::Reply2 { first, second },
        Reading::Crypto { sha, engine, force } => {
            let mut ret: usize = 0;
            if sha {
                ret = ret | 1;
            }
            if engine {
                ret = ret | 2;
            }
            if force {
                ret = ret | 4;
            }
            assert(0usize | 1 == 1 && 0usize | 2 == 2 && 0usize | 4 == 4 && 1usize | 2 == 3 && 1usize
                | 4 == 5 && 2usize | 4 == 6 && 3usize | 4 == 7) by (bit_vector);
            Action::Reply { value: ret }
        },
        Reading::Flag(locked) => match query {
            Query::UsbDisable { force_update } => Action::Reply2 {
                first: if locked { 1 } else { 0 },
                second: if force_update { 1 } else { 0 },
            },
            _ => Action::Reply2 { first: 0, second: 0 },
        },
    }
}

fn push_events(actions: &mut Vec<Action>, cb_conns: &[Option<ScalarCallback>; 32], which: usize)
    ensures
        final(actions)@ == old(actions)@ + event_actions(cb_conns@, which),
{
    let messages = callbacks::send_event(cb_conns, which);
    let mut i: usize = 0;
    while i < messages.len()
        invariant
            i <= messages@.len(),
            actions@ == old(actions)@ + messages@.take(i as int).map_values(
                |message: ScalarMessage| Action::TrySend(message),
            ),
        decreases messages@.len() - i,
    {
        actions.push(Action::TrySend(messages[i]));
        i = i + 1;
        assert(actions@ =~= old(actions)@ + messages@.take(i as int).map_values(
            |message: ScalarMessage| Action::TrySend(message),
        ));
    }
    assert(messages@.take(i as int) =~= messages@);
}

fn push_farewells(actions: &mut Vec<Action>, cb_conns: &mut [Option<ScalarCallback>; 32])
    ensures
        final(actions)@ == old(actions)@ + farewell_actions(old(cb_conns)@),
        final(cb_conns)@ == empty_table(),
{
    let messages = callbacks::unhook(cb_conns);
    assert(cb_conns@ =~= empty_table());
    let mut i: usize = 0;
    while i < messages.len()
        invariant
            i <= messages@.len(),
            cb_conns@ == empty_table(),
            actions@ == old(actions)@ + messages@.take(i as int).map_values(
                |message: ScalarMessage| Action::SendAndDisconnect(message),
            ),
        decreases messages@.len() - i,
    {
        actions.push(Action::SendAndDisconnect(messages[i]));
        i = i + 1;
        assert(actions@ =~= old(actions)@ + messages@.take(i as int).map_values(
            |message: ScalarMessage| Action::SendAndDisconnect(message),
        ));
    }
    assert(messages@.take(i as int) =~= messages@);
}

fn push_outcome(
    actions: &mut Vec<Action>,
    request: AlarmRequest,
    outcome: AlarmOutcome,
    Ghost(before): Ghost<RtcAlarms>,
)
    requires
        outcome.writes@ == rtc::alarm_writes(request, rtc::alarms_after(before, request)),
        outcome.reply == (if rtc::refused(request) { 1int } else { 0 }),
    ensures
        final(actions)@ == old(actions)@ + alarm_actions(before, request),
{
    if outcome.reply != 0 {
        actions.push(Action::NoteDelayTooLong { request, max_delay: rtc::MAX_DELAY });
        actions.push(Action::Reply { value: outcome.reply });
        assert(actions@ =~= old(actions)@ + alarm_actions(before, request));
        return;
    }
    let mut i: usize = 0;
    while i < outcome.writes.len()
        invariant
            i <= outcome.writes@.len(),
            actions@ == old(actions)@ + clock_actions(outcome.writes@.take(i as int)),
        decreases outcome.writes@.len() - i,
    {
        actions.push(Action::WriteClock(outcome.writes[i]));
        i = i + 1;
        assert(actions@ =~= old(actions)@ + clock_actions(outcome.writes@.take(i as int)));
    }
    assert(outcome.writes@.take(i as int) =~= outcome.writes@);
    actions.push(Action::Reply { value: outcome.reply });
    assert(actions@ =~= old(actions)@ + alarm_actions(before, request));
}

impl Llio {
    /// The state that the server starts in: nobody has subscribed, the alarms
    /// are off, and the lock status is still to be drawn.
    pub fn new(config: Config) -> (llio: Llio)
        ensures
            llio@ == boot_state(config),
    {
        let llio = Llio {
            config,
            latest_activity: 0,
            usb_cb_conns: callbacks::no_callbacks(),
            com_cb_conns: callbacks::no_callbacks(),
            rtc_cb_conns: callbacks::no_callbacks(),
            gpio_cb_conns: callbacks::no_callbacks(),
            lockstatus_force_update: true,
            alarms: RtcAlarms::new(),
            running: true,
        };
        assert(llio@.usb =~= empty_table());
        assert(llio@.com =~= empty_table());
        assert(llio@.rtc =~= empty_table());
        assert(llio@.gpio =~= empty_table());
        llio
    }

    /// Whether the server can take a message, whose opcode has the number `id`.
    pub fn accepts(&self, id: usize, body: Body) -> (accepted: bool)
        ensures
            accepted == acceptable(self@, opcode_of(id), body),
    {
        match (Opcode::from_usize(id), body) {
            (Some(Opcode::EventUsbAttachSubscribe), Body::Memory) => true,
            (Some(Opcode::EventComSubscribe), Body::Memory) => true,
            (Some(Opcode::EventRtcSubscribe), Body::Memory) => true,
            (Some(Opcode::GpioIntSubscribe), Body::Memory) => true,
            (Some(Opcode::EventUsbAttachSubscribe), _) => false,
            (Some(Opcode::EventComSubscribe), _) => false,
            (Some(Opcode::EventRtcSubscribe), _) => false,
            (Some(Opcode::GpioIntSubscribe), _) => false,
            (Some(Opcode::CrgMode), Body::Scalar(_)) => false,
            (Some(Opcode::GetActivity), Body::BlockingScalar(_)) => {
                !self.config.hosted || self.latest_activity <= u32::MAX - HOSTED_ACTIVITY_PERIOD
                    / 20
            },
            _ => true,
        }
    }

    /// Registers a subscriber that a connection was made to. Returns whether
    /// there was room for it.
    pub fn do_hook(&mut self, source: EventSource, hookdata: ScalarHook, connection: CID) -> (found:
        bool)
        ensures
            found <==> !callbacks::is_full(old(self)@.table(source)),
            final(self)@ == old(self)@.with_table(
                source,
                callbacks::hooked(
                    old(self)@.table(source),
                    callbacks::callback_for(hookdata, connection),
                ),
            ),
    {
        match source {
            EventSource::Usb => callbacks::do_hook(hookdata, connection, &mut self.usb_cb_conns),
            EventSource::Com => callbacks::do_hook(hookdata, connection, &mut self.com_cb_conns),
            EventSource::Rtc => callbacks::do_hook(hookdata, connection, &mut self.rtc_cb_conns),
            EventSource::Gpio => callbacks::do_hook(hookdata, connection, &mut self.gpio_cb_conns),
        }
    }

    /// Handles a message, whose opcode has the number `id`.
    pub fn handle(&mut self, id: usize, body: Body) -> (actions: Vec<Action>)
        requires
            old(self).running,
            acceptable(old(self)@, opcode_of(id), body),
        ensures
            actions@ == actions_after(old(self)@, opcode_of(id), body),
            final(self)@ == state_after(old(self)@, opcode_of(id), body),
    {
        let mut actions: Vec<Action> = Vec::new();
        let opcode = Opcode::from_usize(id);
        match opcode {
            None => actions.push(Action::NoteUnknownOpcode),
            Some(opcode) => match opcode {
                Opcode::EventUsbAttachSubscribe => {
                    actions.push(Action::TakeHook { source: EventSource::Usb });
                },
                Opcode::EventComSubscribe => {
                    actions.push(Action::TakeHook { source: EventSource::Com });
                },
                Opcode::EventRtcSubscribe => {
                    actions.push(Action::TakeHook { source: EventSource::Rtc });
                },
                Opcode::GpioIntSubscribe => {
                    actions.push(Action::TakeHook { source: EventSource::Gpio });
                },
                Opcode::EventComHappened => push_events(&mut actions, &self.com_cb_conns, 0),
                Opcode::EventRtcHappened => push_events(&mut actions, &self.rtc_cb_conns, 0),
                Opcode::EventUsbHappened => push_events(&mut actions, &self.usb_cb_conns, 0),
                Opcode::GetSessionOffset => {},
                Opcode::Quit => self.quit(&mut actions),
                _ => match body {
                    Body::Scalar(args) => self.handle_scalar(opcode, args, &mut actions),
                    Body::BlockingScalar(args) => {
                        self.handle_blocking_scalar(opcode, args, &mut actions)
                    },
                    Body::Memory => actions.push(Action::NoteWrongKind),
                },
            },
        }
        assert(actions@ =~= actions_after(old(self)@, opcode, body));
        assert(self@ =~= state_after(old(self)@, opcode, body));
        actions
    }

    fn quit(&mut self, actions: &mut Vec<Action>)
        ensures
            final(actions)@ == old(actions)@ + quit_actions(old(self)@),
            final(self)@ == state_for(old(self)@, Opcode::Quit, Body::Memory),
    {
        actions.push(
            Action::SendToI2cServer {
                id: I2cOpcode::Quit.to_usize(),
                args: Args { arg1: 0, arg2: 0, arg3: 0, arg4: 0 },
            },
        );
        push_farewells(actions, &mut self.com_cb_conns);
        push_farewells(actions, &mut self.rtc_cb_conns);
        push_farewells(actions, &mut self.usb_cb_conns);
        push_farewells(actions, &mut self.gpio_cb_conns);
        self.running = false;
        actions.push(Action::UnregisterServer);
        actions.push(Action::DestroyServer);
        actions.push(Action::Terminate { code: 0 });
        assert(actions@ =~= old(actions)@ + quit_actions(old(self)@));
        assert(self@ =~= state_for(old(self)@, Opcode::Quit, Body::Memory));
    }

    fn handle_scalar(&mut self, opcode: Opcode, args: Args, actions: &mut Vec<Action>)
        requires
            kind_of(opcode) is Scalar || kind_of(opcode) is BlockingScalar,
            !(opcode is CrgMode),
        ensures
            final(actions)@ == old(actions)@ + actions_after(
                old(self)@,
                Some(opcode),
                Body::Scalar(args),
            ),
            final(self)@ == state_after(old(self)@, Some(opcode), Body::Scalar(args)),
    {
        if let Some(command) = command_of(opcode, args.arg1) {
            actions.push(Action::Board(command));
        } else {
            match opcode {
                Opcode::SuspendResume => {
                    actions.push(Action::Board(BoardCommand::Suspend));
                    if self.config.tts {
                        actions.push(Action::Board(BoardCommand::TtsSleepIndicate));
                    }
                    actions.push(Action::SuspendUntilResume { token: args.arg1 });
                    actions.push(Action::Board(BoardCommand::Resume));
                    if self.config.tts {
                        actions.push(Action::Board(BoardCommand::VibeDouble));
                    }
                    // the lock status has to be drawn again, even if it has not changed
                    self.lockstatus_force_update = true;
                },
                Opcode::GpioIntHappened => push_events(actions, &self.gpio_cb_conns, args.arg1),
                Opcode::EventActivityHappened => {
                    self.latest_activity = #[verifier::truncate] (args.arg1 as u32);
                },
                _ => actions.push(Action::NoteWrongKind),
            }
        }
        assert(actions@ =~= old(actions)@ + actions_after(
            old(self)@,
            Some(opcode),
            Body::Scalar(args),
        ));
        assert(self@ =~= state_after(old(self)@, Some(opcode), Body::Scalar(args)));
    }

    fn handle_blocking_scalar(&mut self, opcode: Opcode, args: Args, actions: &mut Vec<Action>)
        requires
            kind_of(opcode) is Scalar || kind_of(opcode) is BlockingScalar,
            acceptable(old(self)@, Some(opcode), Body::BlockingScalar(args)),
        ensures
            final(actions)@ == old(actions)@ + actions_after(
                old(self)@,
                Some(opcode),
                Body::BlockingScalar(args),
            ),
            final(self)@ == state_after(old(self)@, Some(opcode), Body::BlockingScalar(args)),
    {
        if let Some(command) = confirmed_command_of(opcode, args.arg1) {
            actions.push(Action::Board(command));
            actions.push(Action::Reply { value: 0 });
        } else if let Some(query) = query_of(opcode) {
            actions.push(Action::Ask(query));
        } else {
            match opcode {
                Opcode::GetActivity => {
                    if self.config.hosted {
                        actions.push(
                            Action::Reply2 {
                                first: self.latest_activity as usize,
                                second: HOSTED_ACTIVITY_PERIOD as usize,
                            },
                        );
                        self.latest_activity = (self.latest_activity + HOSTED_ACTIVITY_PERIOD / 20)
                            % HOSTED_ACTIVITY_PERIOD;
                    } else {
                        actions.push(
                            Action::Ask(
                                Query::ActivityPeriod { latest_activity: self.latest_activity },
                            ),
                        );
                    }
                },
                Opcode::DebugUsbOp => {
                    if args.arg1 != 0 {
                        actions.push(Action::Board(BoardCommand::SetUsbDisable(args.arg2 != 0)));
                    }
                    // the state is read back, for what was asked for may not have come about
                    actions.push(
                        Action::Ask(
                            Query::UsbDisable { force_update: self.lockstatus_force_update },
                        ),
                    );
                    self.lockstatus_force_update = false;
                },
                Opcode::SetWakeupAlarm => {
                    let request = AlarmRequest::SetWakeupAlarm { delay: args.arg1 };
                    let outcome = self.alarms.set_wakeup_alarm(args.arg1);
                    push_outcome(actions, request, outcome, Ghost(old(self).alarms));
                },
                Opcode::ClearWakeupAlarm => {
                    let request = AlarmRequest::ClearWakeupAlarm;
                    let outcome = self.alarms.clear_wakeup_alarm();
                    push_outcome(actions, request, outcome, Ghost(old(self).alarms));
                },
                Opcode::SetRtcAlarm => {
                    let request = AlarmRequest::SetRtcAlarm { delay: args.arg1 };
                    let outcome = self.alarms.set_rtc_alarm(args.arg1);
                    push_outcome(actions, request, outcome, Ghost(old(self).alarms));
                },
                Opcode::ClearRtcAlarm => {
                    let request = AlarmRequest::ClearRtcAlarm;
                    let outcome = self.alarms.clear_rtc_alarm();
                    push_outcome(actions, request, outcome, Ghost(old(self).alarms));
                },
                Opcode::GetRtcCount => actions.push(Action::Reply2 { first: 0, second: 0 }),
                _ => actions.push(Action::NoteWrongKind),
            }
        }
        assert(actions@ =~= old(actions)@ + actions_after(
            old(self)@,
            Some(opcode),
            Body::BlockingScalar(args),
        ));
        assert(self@ =~= state_after(old(self)@, Some(opcode), Body::BlockingScalar(args)));
    }
}

} // verus!
