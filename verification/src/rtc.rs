//! The two countdown alarms of the real-time clock: the wakeup alarm on timer
//! B, which powers the system up, and the RTC alarm on timer A, which raises an
//! interrupt. The clock is an AB-RTCMC chip on the I2C bus; both timers share
//! its configuration and interrupt registers, so that programming one alarm
//! has to repeat the bits of the other.
use vstd::prelude::*;

verus! {

/// I2C address of the clock.
pub const ABRTCMC_I2C_ADR: u8 = 0x68;

/// Interrupt enables and flags.
pub const ABRTCMC_CONTROL2: u8 = 0x01;

/// Battery switchover.
pub const ABRTCMC_CONTROL3: u8 = 0x02;

/// Timer modes and clock output.
pub const ABRTCMC_CONFIG: u8 = 0x0f;

/// Clock of timer A.
pub const ABRTCMC_TIMERA_CLK: u8 = 0x10;

/// Count of timer A.
pub const ABRTCMC_TIMERA: u8 = 0x11;

/// Clock of timer B.
pub const ABRTCMC_TIMERB_CLK: u8 = 0x12;

/// Count of timer B.
pub const ABRTCMC_TIMERB: u8 = 0x13;

/// Control 2: interrupt when timer B has counted down.
pub const COUNTDOWN_B_INT: u8 = 0b0000_0001;

/// Control 2: interrupt when timer A has counted down.
pub const COUNTDOWN_A_INT: u8 = 0b0000_0010;

/// Control 3: standard battery switchover, with detection of a low battery.
pub const BATT_STD_BL_EN: u8 = 0b0000_0000;

/// Configuration: timer B counts.
pub const TIMER_B_ENABLE: u8 = 0b0000_0001;

/// Configuration: timer A counts down.
pub const TIMER_A_COUNTDWN: u8 = 0b0000_0010;

/// Configuration: no clock output.
pub const CLKOUT_DISABLE: u8 = 0b0011_1000;

/// Configuration: pulsed interrupt of timer B.
pub const TIMERB_INT_PULSED: u8 = 0b0100_0000;

/// Configuration: pulsed interrupt of timer A.
pub const TIMERA_SECONDS_INT_PULSED: u8 = 0b1000_0000;

/// Timer clock: one tick per second.
pub const CLK_1_S: u8 = 0b0000_0010;

/// Timer clock: interrupt pulses of about 218 ms.
pub const PULSE_218_MS: u8 = 0b0111_0000;

/// The longest delay of an alarm, in seconds.
pub const MAX_DELAY: usize = 255;

/// A byte to write to a register of the clock.
#[derive(Clone, Copy, Debug, PartialEq, Eq)]
pub struct RegisterWrite {
    pub device: u8,
    pub register: u8,
    pub value: u8,
}

/// What is asked of the alarms.
#[derive(Clone, Copy, Debug, PartialEq, Eq)]
pub enum AlarmRequest {
    SetWakeupAlarm { delay: usize },
    ClearWakeupAlarm,
    SetRtcAlarm { delay: usize },
    ClearRtcAlarm,
}

/// Which alarms are on.
#[derive(Clone, Copy, Debug, PartialEq, Eq)]
pub struct RtcAlarms {
    pub rtc_alarm_enabled: bool,
    pub wakeup_alarm_enabled: bool,
}

/// What to do about a request: the registers to write, in order, and the
/// number to answer with, 0 for done and 1 for refused.
pub struct AlarmOutcome {
    pub writes: Vec<RegisterWrite>,
    pub reply: usize,
}

/// The write of `value` to a register of the clock.
pub open spec fn clock_write(register: u8, value: u8) -> RegisterWrite {
    RegisterWrite { device: ABRTCMC_I2C_ADR, register, value }
}

/// The interrupt register for a set of alarms that are on; all flags read as cleared.
pub open spec fn interrupt_bits(alarms: RtcAlarms) -> u8 {
    ((if alarms.rtc_alarm_enabled {
        COUNTDOWN_A_INT as int
    } else {
        0
    }) + (if alarms.wakeup_alarm_enabled {
        COUNTDOWN_B_INT as int
    } else {
        0
    })) as u8
}

/// The configuration register for a set of alarms that are on, `extra` aside.
pub open spec fn config_bits(alarms: RtcAlarms, extra: int) -> u8 {
    (CLKOUT_DISABLE + (if alarms.rtc_alarm_enabled {
        TIMER_A_COUNTDWN + TIMERA_SECONDS_INT_PULSED
    } else {
        0
    }) + (if alarms.wakeup_alarm_enabled {
        TIMER_B_ENABLE + extra
    } else {
        0
    })) as u8
}

/// The bit that makes the interrupt of timer B a pulse, where a request writes it.
pub open spec fn pulse_of(request: AlarmRequest) -> int {
    if request is ClearRtcAlarm {
        TIMERB_INT_PULSED as int
    } else {
        0
    }
}

/// The timer clock of both alarms.
pub open spec fn second_ticks() -> u8 {
    (CLK_1_S + PULSE_218_MS) as u8
}

/// A request is refused if its delay does not fit the count register.
pub open spec fn refused(request: AlarmRequest) -> bool {
    match request {
        AlarmRequest::SetWakeupAlarm { delay } => delay > MAX_DELAY,
        AlarmRequest::SetRtcAlarm { delay } => delay > MAX_DELAY,
        _ => false,
    }
}

/// Which alarms are on after a request.
pub open spec fn alarms_after(alarms: RtcAlarms, request: AlarmRequest) -> RtcAlarms {
    if refused(request) {
        alarms
    } else {
        match request {
            AlarmRequest::SetWakeupAlarm { .. } => RtcAlarms {
                wakeup_alarm_enabled: true,
                ..alarms
            },
            AlarmRequest::ClearWakeupAlarm => RtcAlarms { wakeup_alarm_enabled: false, ..alarms },
            AlarmRequest::SetRtcAlarm { .. } => RtcAlarms { rtc_alarm_enabled: true, ..alarms },
            AlarmRequest::ClearRtcAlarm => RtcAlarms { rtc_alarm_enabled: false, ..alarms },
        }
    }
}

/// The register writes that a request leads to, where `after` are the alarms
/// that are on once it is done.
pub open spec fn alarm_writes(request: AlarmRequest, after: RtcAlarms) -> Seq<RegisterWrite> {
    if refused(request) {
        Seq::empty()
    } else {
        match request {
            AlarmRequest::SetWakeupAlarm { delay } => seq![
                clock_write(ABRTCMC_CONTROL3, BATT_STD_BL_EN),
                clock_write(ABRTCMC_TIMERB_CLK, second_ticks()),
                clock_write(ABRTCMC_TIMERB, delay as u8),
                clock_write(ABRTCMC_CONTROL2, interrupt_bits(after)),
                clock_write(ABRTCMC_CONFIG, config_bits(after, pulse_of(request))),
            ],
            AlarmRequest::ClearWakeupAlarm => seq![
                clock_write(ABRTCMC_CONTROL3, BATT_STD_BL_EN),
                clock_write(ABRTCMC_CONFIG, config_bits(after, pulse_of(request))),
                clock_write(ABRTCMC_CONTROL2, interrupt_bits(after)),
            ],
            AlarmRequest::SetRtcAlarm { delay } => seq![
                clock_write(ABRTCMC_CONTROL3, BATT_STD_BL_EN),
                clock_write(ABRTCMC_TIMERA_CLK, second_ticks()),
                clock_write(ABRTCMC_TIMERA, delay as u8),
                clock_write(ABRTCMC_CONTROL2, interrupt_bits(after)),
                clock_write(ABRTCMC_CONFIG, config_bits(after, pulse_of(request))),
            ],
            AlarmRequest::ClearRtcAlarm => seq![
                clock_write(ABRTCMC_CONFIG, config_bits(after, pulse_of(request))),
                clock_write(ABRTCMC_CONTROL2, interrupt_bits(after)),
            ],
        }
    }
}

proof fn lemma_bits()
    ensures
        CLK_1_S | PULSE_218_MS == CLK_1_S + PULSE_218_MS,
        COUNTDOWN_A_INT | COUNTDOWN_B_INT == COUNTDOWN_A_INT + COUNTDOWN_B_INT,
        COUNTDOWN_B_INT | COUNTDOWN_A_INT == COUNTDOWN_A_INT + COUNTDOWN_B_INT,
        0u8 | COUNTDOWN_A_INT == COUNTDOWN_A_INT,
        0u8 | COUNTDOWN_B_INT == COUNTDOWN_B_INT,
        CLKOUT_DISABLE | TIMER_B_ENABLE == CLKOUT_DISABLE + TIMER_B_ENABLE,
        TIMER_A_COUNTDWN | TIMERA_SECONDS_INT_PULSED == TIMER_A_COUNTDWN
            + TIMERA_SECONDS_INT_PULSED,
        TIMER_B_ENABLE | TIMERB_INT_PULSED == TIMER_B_ENABLE + TIMERB_INT_PULSED,
        CLKOUT_DISABLE | (TIMER_A_COUNTDWN | TIMERA_SECONDS_INT_PULSED) == CLKOUT_DISABLE
            + TIMER_A_COUNTDWN + TIMERA_SECONDS_INT_PULSED,
        (CLKOUT_DISABLE | TIMER_B_ENABLE) | (TIMER_A_COUNTDWN | TIMERA_SECONDS_INT_PULSED)
            == CLKOUT_DISABLE + TIMER_A_COUNTDWN + TIMERA_SECONDS_INT_PULSED + TIMER_B_ENABLE,
        (CLKOUT_DISABLE | TIMER_A_COUNTDWN | TIMERA_SECONDS_INT_PULSED) == CLKOUT_DISABLE
            + TIMER_A_COUNTDWN + TIMERA_SECONDS_INT_PULSED,
        (CLKOUT_DISABLE | TIMER_A_COUNTDWN | TIMERA_SECONDS_INT_PULSED) | TIMER_B_ENABLE
            == CLKOUT_DISABLE + TIMER_A_COUNTDWN + TIMERA_SECONDS_INT_PULSED + TIMER_B_ENABLE,
        CLKOUT_DISABLE | (TIMER_B_ENABLE | TIMERB_INT_PULSED) == CLKOUT_DISABLE + TIMER_B_ENABLE
            + TIMERB_INT_PULSED,
{
    assert(2u8 | 0x70u8 == 0x72 && 2u8 | 1u8 == 3 && 1u8 | 2u8 == 3 && 0u8 | 2u8 == 2 && 0u8 | 1u8
        == 1 && 0x38u8 | 1u8 == 0x39 && 2u8 | 0x80u8 == 0x82 && 1u8 | 0x40u8 == 0x41 && 0x38u8
        | 0x82u8 == 0xba && 0x39u8 | 0x82u8 == 0xbb && 0x38u8 | 2u8 == 0x3a && 0x3au8 | 0x80u8
        == 0xba && 0xbau8 | 1u8 == 0xbb && 0x38u8 | 0x41u8 == 0x79) by (bit_vector);
}

impl RtcAlarms {
    /// Both alarms off.
    pub fn new() -> (alarms: RtcAlarms)
        ensures
            !alarms.rtc_alarm_enabled,
            !alarms.wakeup_alarm_enabled,
    {
        RtcAlarms { rtc_alarm_enabled: false, wakeup_alarm_enabled: false }
    }

    /// Programs the wakeup alarm to go off in `delay` seconds.
    pub fn set_wakeup_alarm(&mut self, delay: usize) -> (outcome: AlarmOutcome)
        ensures
            *final(self) == alarms_after(*old(self), AlarmRequest::SetWakeupAlarm { delay }),
            outcome.writes@ == alarm_writes(
                AlarmRequest::SetWakeupAlarm { delay },
                *final(self),
            ),
            outcome.reply == (if delay > MAX_DELAY { 1int } else { 0 }),
    {
        let mut writes: Vec<RegisterWrite> = Vec::new();
        if delay > MAX_DELAY {
            return AlarmOutcome { writes, reply: 1 };
        }
        proof {
            lemma_bits();
        }
        let seconds: u8 = delay as u8;
        self.wakeup_alarm_enabled = true;
        // make sure battery switchover is enabled, otherwise time is lost when power goes off
        writes.push(write_clock(ABRTCMC_CONTROL3, BATT_STD_BL_EN));
        // set clock units to 1 second, output pulse length to ~218ms
        writes.push(write_clock(ABRTCMC_TIMERB_CLK, CLK_1_S | PULSE_218_MS));
        // program elapsed time
        writes.push(write_clock(ABRTCMC_TIMERB, seconds));
        // enable the countdown interrupt, which also clears any prior interrupt flag
        let mut control2: u8 = COUNTDOWN_B_INT;
        if self.rtc_alarm_enabled {
            control2 = control2 | COUNTDOWN_A_INT;
        }
        writes.push(write_clock(ABRTCMC_CONTROL2, control2));
        // turn on the timer proper
        let mut config: u8 = CLKOUT_DISABLE | TIMER_B_ENABLE;
        if self.rtc_alarm_enabled {
            config = config | (TIMER_A_COUNTDWN | TIMERA_SECONDS_INT_PULSED);
        }
        writes.push(write_clock(ABRTCMC_CONFIG, config));
        AlarmOutcome { writes, reply: 0 }
    }

    /// Turns the wakeup alarm off.
    pub fn clear_wakeup_alarm(&mut self) -> (outcome: AlarmOutcome)
        ensures
            *final(self) == alarms_after(*old(self), AlarmRequest::ClearWakeupAlarm),
            outcome.writes@ == alarm_writes(AlarmRequest::ClearWakeupAlarm, *final(self)),
            outcome.reply == 0,
    {
        proof {
            lemma_bits();
        }
        let mut writes: Vec<RegisterWrite> = Vec::new();
        self.wakeup_alarm_enabled = false;
        // make sure battery switchover is enabled, otherwise time is lost when power goes off
        writes.push(write_clock(ABRTCMC_CONTROL3, BATT_STD_BL_EN));
        let mut config: u8 = CLKOUT_DISABLE;
        if self.rtc_alarm_enabled {
            config = config | (TIMER_A_COUNTDWN | TIMERA_SECONDS_INT_PULSED);
        }
        // turn off the wakeup timer, in case previously set
        writes.push(write_clock(ABRTCMC_CONFIG, config));
        // clear its interrupts and flags
        let mut control2: u8 = 0;
        if self.rtc_alarm_enabled {
            control2 = control2 | COUNTDOWN_A_INT;
        }
        writes.push(write_clock(ABRTCMC_CONTROL2, control2));
        AlarmOutcome { writes, reply: 0 }
    }

    /// Programs the RTC alarm to go off in `delay` seconds.
    pub fn set_rtc_alarm(&mut self, delay: usize) -> (outcome: AlarmOutcome)
        ensures
            *final(self) == alarms_after(*old(self), AlarmRequest::SetRtcAlarm { delay }),
            outcome.writes@ == alarm_writes(AlarmRequest::SetRtcAlarm { delay }, *final(self)),
            outcome.reply == (if delay > MAX_DELAY { 1int } else { 0 }),
    {
        let mut writes: Vec<RegisterWrite> = Vec::new();
        if delay > MAX_DELAY {
            return AlarmOutcome { writes, reply: 1 };
        }
        proof {
            lemma_bits();
        }
        let seconds: u8 = delay as u8;
        self.rtc_alarm_enabled = true;
        // make sure battery switchover is enabled, otherwise time is lost when power goes off
        writes.push(write_clock(ABRTCMC_CONTROL3, BATT_STD_BL_EN));
        // set clock units to 1 second, output pulse length to ~218ms
        writes.push(write_clock(ABRTCMC_TIMERA_CLK, CLK_1_S | PULSE_218_MS));
        // program elapsed time
        writes.push(write_clock(ABRTCMC_TIMERA, seconds));
        // enable the countdown interrupt, which also clears any prior interrupt flag
        let mut control2: u8 = COUNTDOWN_A_INT;
        if self.wakeup_alarm_enabled {
            control2 = control2 | COUNTDOWN_B_INT;
        }
        writes.push(write_clock(ABRTCMC_CONTROL2, control2));
        // turn on the timer proper
        let mut config: u8 = CLKOUT_DISABLE | TIMER_A_COUNTDWN | TIMERA_SECONDS_INT_PULSED;
        if self.wakeup_alarm_enabled {
            config = config | TIMER_B_ENABLE;
        }
        writes.push(write_clock(ABRTCMC_CONFIG, config));
        AlarmOutcome { writes, reply: 0 }
    }

    /// Turns the RTC alarm off.
    pub fn clear_rtc_alarm(&mut self) -> (outcome: AlarmOutcome)
        ensures
            *final(self) == alarms_after(*old(self), AlarmRequest::ClearRtcAlarm),
            outcome.writes@ == alarm_writes(AlarmRequest::ClearRtcAlarm, *final(self)),
            outcome.reply == 0,
    {
        proof {
            lemma_bits();
        }
        let mut writes: Vec<RegisterWrite> = Vec::new();
        self.rtc_alarm_enabled = false;
        // turn off the timer, in case previously set
        let mut config: u8 = CLKOUT_DISABLE;
        if self.wakeup_alarm_enabled {
            config = config | (TIMER_B_ENABLE | TIMERB_INT_PULSED);
        }
        writes.push(write_clock(ABRTCMC_CONFIG, config));
        // clear its interrupts and flags
        let mut control2: u8 = 0;
        if self.wakeup_alarm_enabled {
            control2 = control2 | COUNTDOWN_B_INT;
        }
        writes.push(write_clock(ABRTCMC_CONTROL2, control2));
        AlarmOutcome { writes, reply: 0 }
    }
}

fn write_clock(register: u8, value: u8) -> (write: RegisterWrite)
    ensures
        write == clock_write(register, value),
{
    RegisterWrite { device: ABRTCMC_I2C_ADR, register, value }
}

/// The registers of the clock after a series of writes.
pub open spec fn programmed(registers: Map<u8, u8>, writes: Seq<RegisterWrite>) -> Map<u8, u8>
    decreases writes.len(),
{
    if writes.len() == 0 {
        registers
    } else {
        programmed(registers, writes.drop_last()).insert(
            writes.last().register,
            writes.last().value,
        )
    }
}

/// The clock does what the alarms are said to do: a timer counts, and may
/// interrupt, if and only if its alarm is on. The interrupt of timer A is a
/// pulse; that of timer B may be one while its alarm is on.
pub open spec fn clock_agrees(alarms: RtcAlarms, registers: Map<u8, u8>) -> bool {
    let config = registers[ABRTCMC_CONFIG] as int;
    let control2 = registers[ABRTCMC_CONTROL2] as int;
    &&& registers.contains_key(ABRTCMC_CONFIG)
    &&& registers.contains_key(ABRTCMC_CONTROL2)
    &&& (config / 2) % 4 == (if alarms.rtc_alarm_enabled { 1int } else { 0 })
    &&& config / 128 == (if alarms.rtc_alarm_enabled { 1int } else { 0 })
    &&& config % 2 == (if alarms.wakeup_alarm_enabled { 1int } else { 0 })
    &&& (config / 64) % 2 == 1 ==> alarms.wakeup_alarm_enabled
    &&& (control2 / 2) % 2 == (if alarms.rtc_alarm_enabled { 1int } else { 0 })
    &&& control2 % 2 == (if alarms.wakeup_alarm_enabled { 1int } else { 0 })
}

proof fn lemma_programmed(registers: Map<u8, u8>, writes: Seq<RegisterWrite>)
    requires
        writes.len() <= 5,
    ensures
        writes.len() == 2 ==> programmed(registers, writes) == registers.insert(
            writes[0].register,
            writes[0].value,
        ).insert(writes[1].register, writes[1].value),
        writes.len() == 3 ==> programmed(registers, writes) == registers.insert(
            writes[0].register,
            writes[0].value,
        ).insert(writes[1].register, writes[1].value).insert(writes[2].register, writes[2].value),
        writes.len() == 5 ==> programmed(registers, writes) == registers.insert(
            writes[0].register,
            writes[0].value,
        ).insert(writes[1].register, writes[1].value).insert(
            writes[2].register,
            writes[2].value,
        ).insert(writes[3].register, writes[3].value).insert(writes[4].register, writes[4].value),
{
    reveal_with_fuel(programmed, 6);
}

/// Whatever was in the registers before, after a request that is not refused
/// the clock agrees with the alarms that are on. In particular a request for
/// one alarm leaves the other as it was.
pub proof fn law_clock_agrees_after_request(
    alarms: RtcAlarms,
    request: AlarmRequest,
    registers: Map<u8, u8>,
)
    requires
        !refused(request),
    ensures
        clock_agrees(
            alarms_after(alarms, request),
            programmed(registers, alarm_writes(request, alarms_after(alarms, request))),
        ),
{
    lemma_programmed(registers, alarm_writes(request, alarms_after(alarms, request)));
}

/// A refused request changes neither the alarms nor the clock.
pub proof fn law_refused_request_changes_nothing(
    alarms: RtcAlarms,
    request: AlarmRequest,
    registers: Map<u8, u8>,
)
    requires
        refused(request),
    ensures
        alarms_after(alarms, request) == alarms,
        programmed(registers, alarm_writes(request, alarms)) == registers,
{
}

/// Requests for one alarm touch neither the count nor the clock of the other
/// timer, and leave the other alarm on or off as it was.
pub proof fn law_alarms_are_independent(
    alarms: RtcAlarms,
    request: AlarmRequest,
    registers: Map<u8, u8>,
)
    ensures
        ({
            let after = alarms_after(alarms, request);
            let clock = programmed(registers, alarm_writes(request, after));
            if request is SetWakeupAlarm || request is ClearWakeupAlarm {
                &&& after.rtc_alarm_enabled == alarms.rtc_alarm_enabled
                &&& clock[ABRTCMC_TIMERA] == registers[ABRTCMC_TIMERA]
                &&& clock[ABRTCMC_TIMERA_CLK] == registers[ABRTCMC_TIMERA_CLK]
            } else {
                &&& after.wakeup_alarm_enabled == alarms.wakeup_alarm_enabled
                &&& clock[ABRTCMC_TIMERB] == registers[ABRTCMC_TIMERB]
                &&& clock[ABRTCMC_TIMERB_CLK] == registers[ABRTCMC_TIMERB_CLK]
            }
        }),
{
    lemma_programmed(registers, alarm_writes(request, alarms_after(alarms, request)));
}

/// An alarm that was set counts the seconds that were asked for.
pub proof fn law_set_alarm_counts_the_delay(
    alarms: RtcAlarms,
    delay: usize,
    registers: Map<u8, u8>,
)
    requires
        delay <= MAX_DELAY,
    ensures
        ({
            let request = AlarmRequest::SetWakeupAlarm { delay };
            let clock = programmed(registers, alarm_writes(request, alarms_after(alarms, request)));
            clock[ABRTCMC_TIMERB] == delay && clock[ABRTCMC_TIMERB_CLK] == second_ticks()
        }),
        ({
            let request = AlarmRequest::SetRtcAlarm { delay };
            let clock = programmed(registers, alarm_writes(request, alarms_after(alarms, request)));
            clock[ABRTCMC_TIMERA] == delay && clock[ABRTCMC_TIMERA_CLK] == second_ticks()
        }),
{
    let wakeup = AlarmRequest::SetWakeupAlarm { delay };
    let rtc = AlarmRequest::SetRtcAlarm { delay };
    lemma_programmed(registers, alarm_writes(wakeup, alarms_after(alarms, wakeup)));
    lemma_programmed(registers, alarm_writes(rtc, alarms_after(alarms, rtc)));
}

/// Whenever an alarm is set, and whenever the wakeup alarm is turned off, the
/// clock is made to run on its battery when power goes off. Every request that
/// is not refused clears all pending interrupts and keeps the clock output off.
pub proof fn law_clock_keeps_time(alarms: RtcAlarms, request: AlarmRequest, registers: Map<u8, u8>)
    requires
        !refused(request),
    ensures
        ({
            let after = alarms_after(alarms, request);
            let clock = programmed(registers, alarm_writes(request, after));
            &&& !(request is ClearRtcAlarm) ==> clock[ABRTCMC_CONTROL3] == BATT_STD_BL_EN
            &&& request is ClearRtcAlarm ==> clock[ABRTCMC_CONTROL3]
                == registers[ABRTCMC_CONTROL3]
            &&& clock[ABRTCMC_CONTROL2] as int / 8 == 0
            &&& (clock[ABRTCMC_CONFIG] as int / 8) % 8 == 7
        }),
{
    lemma_programmed(registers, alarm_writes(request, alarms_after(alarms, request)));
}

/// The count and the clock of a timer change only when its alarm is set.
pub proof fn law_count_changes_only_when_set(
    alarms: RtcAlarms,
    request: AlarmRequest,
    registers: Map<u8, u8>,
)
    ensures
        ({
            let clock = programmed(registers, alarm_writes(request, alarms_after(alarms, request)));
            &&& !(request is SetWakeupAlarm) || refused(request) ==> {
                &&& clock[ABRTCMC_TIMERB] == registers[ABRTCMC_TIMERB]
                &&& clock[ABRTCMC_TIMERB_CLK] == registers[ABRTCMC_TIMERB_CLK]
            }
            &&& !(request is SetRtcAlarm) || refused(request) ==> {
                &&& clock[ABRTCMC_TIMERA] == registers[ABRTCMC_TIMERA]
                &&& clock[ABRTCMC_TIMERA_CLK] == registers[ABRTCMC_TIMERA_CLK]
            }
        }),
{
    lemma_programmed(registers, alarm_writes(request, alarms_after(alarms, request)));
}

/// What a request that is not refused leaves in the registers that the alarms
/// share, to the last bit.
pub proof fn law_shared_registers_after_request(
    alarms: RtcAlarms,
    request: AlarmRequest,
    registers: Map<u8, u8>,
)
    requires
        !refused(request),
    ensures
        ({
            let after = alarms_after(alarms, request);
            let clock = programmed(registers, alarm_writes(request, after));
            &&& clock.contains_key(ABRTCMC_CONTROL2)
            &&& clock.contains_key(ABRTCMC_CONFIG)
            &&& clock[ABRTCMC_CONTROL2] == interrupt_bits(after)
            &&& clock[ABRTCMC_CONFIG] == config_bits(after, pulse_of(request))
        }),
{
    lemma_programmed(registers, alarm_writes(request, alarms_after(alarms, request)));
}

/// A request is refused if and only if it sets an alarm more than 255 seconds
/// ahead; it then changes nothing and writes nothing.
pub proof fn law_only_long_delays_are_refused(alarms: RtcAlarms, delay: usize)
    ensures
        refused(AlarmRequest::SetWakeupAlarm { delay }) <==> delay > 255,
        refused(AlarmRequest::SetRtcAlarm { delay }) <==> delay > 255,
        !refused(AlarmRequest::ClearWakeupAlarm),
        !refused(AlarmRequest::ClearRtcAlarm),
        delay > 255 ==> {
            &&& alarms_after(alarms, AlarmRequest::SetWakeupAlarm { delay }) == alarms
            &&& alarms_after(alarms, AlarmRequest::SetRtcAlarm { delay }) == alarms
            &&& alarm_writes(AlarmRequest::SetWakeupAlarm { delay }, alarms).len() == 0
            &&& alarm_writes(AlarmRequest::SetRtcAlarm { delay }, alarms).len() == 0
        },
{
}

/// What setting the wakeup alarm writes, byte for byte: battery switchover, one
/// tick per second with long pulses, the delay itself, then the interrupt of
/// timer B and timer B, each with what the RTC alarm needs if that is on.
pub proof fn law_set_wakeup_alarm_in_bytes(alarms: RtcAlarms, delay: usize)
    requires
        delay <= 255,
    ensures
        ({
            let after = alarms_after(alarms, AlarmRequest::SetWakeupAlarm { delay });
            let rtc = alarms.rtc_alarm_enabled;
            &&& after.wakeup_alarm_enabled
            &&& after.rtc_alarm_enabled == rtc
            &&& alarm_writes(AlarmRequest::SetWakeupAlarm { delay }, after) == seq![
                RegisterWrite { device: 0x68, register: 0x02, value: 0 },
                RegisterWrite { device: 0x68, register: 0x12, value: 0x72 },
                RegisterWrite { device: 0x68, register: 0x13, value: delay as u8 },
                RegisterWrite { device: 0x68, register: 0x01, value: if rtc { 0x03 } else { 0x01 } },
                RegisterWrite { device: 0x68, register: 0x0f, value: if rtc { 0xbb } else { 0x39 } },
            ]
        }),
{
}

/// What turning the wakeup alarm off writes, byte for byte.
pub proof fn law_clear_wakeup_alarm_in_bytes(alarms: RtcAlarms)
    ensures
        ({
            let after = alarms_after(alarms, AlarmRequest::ClearWakeupAlarm);
            let rtc = alarms.rtc_alarm_enabled;
            &&& !after.wakeup_alarm_enabled
            &&& after.rtc_alarm_enabled == rtc
            &&& alarm_writes(AlarmRequest::ClearWakeupAlarm, after) == seq![
                RegisterWrite { device: 0x68, register: 0x02, value: 0 },
                RegisterWrite { device: 0x68, register: 0x0f, value: if rtc { 0xba } else { 0x38 } },
                RegisterWrite { device: 0x68, register: 0x01, value: if rtc { 0x02 } else { 0x00 } },
            ]
        }),
{
}

/// What setting the RTC alarm writes, byte for byte.
pub proof fn law_set_rtc_alarm_in_bytes(alarms: RtcAlarms, delay: usize)
    requires
        delay <= 255,
    ensures
        ({
            let after = alarms_after(alarms, AlarmRequest::SetRtcAlarm { delay });
            let wakeup = alarms.wakeup_alarm_enabled;
            &&& after.rtc_alarm_enabled
            &&& after.wakeup_alarm_enabled == wakeup
            &&& alarm_writes(AlarmRequest::SetRtcAlarm { delay }, after) == seq![
                RegisterWrite { device: 0x68, register: 0x02, value: 0 },
                RegisterWrite { device: 0x68, register: 0x10, value: 0x72 },
                RegisterWrite { device: 0x68, register: 0x11, value: delay as u8 },
                RegisterWrite {
                    device: 0x68,
                    register: 0x01,
                    value: if wakeup { 0x03 } else { 0x02 },
                },
                RegisterWrite {
                    device: 0x68,
                    register: 0x0f,
                    value: if wakeup { 0xbb } else { 0xba },
                },
            ]
        }),
{
}

/// What turning the RTC alarm off writes, byte for byte.
pub proof fn law_clear_rtc_alarm_in_bytes(alarms: RtcAlarms)
    ensures
        ({
            let after = alarms_after(alarms, AlarmRequest::ClearRtcAlarm);
            let wakeup = alarms.wakeup_alarm_enabled;
            &&& !after.rtc_alarm_enabled
            &&& after.wakeup_alarm_enabled == wakeup
            &&& alarm_writes(AlarmRequest::ClearRtcAlarm, after) == seq![
                RegisterWrite {
                    device: 0x68,
                    register: 0x0f,
                    value: if wakeup { 0x79 } else { 0x38 },
                },
                RegisterWrite {
                    device: 0x68,
                    register: 0x01,
                    value: if wakeup { 0x01 } else { 0x00 },
                },
            ]
        }),
{
}

/// A register holds what was written to it last, and what it held before if
/// nothing was.
pub proof fn law_last_write_stands(
    registers: Map<u8, u8>,
    writes: Seq<RegisterWrite>,
    write: RegisterWrite,
    other: u8,
)
    requires
        other != write.register,
    ensures
        programmed(registers, Seq::empty()) == registers,
        programmed(registers, writes.push(write))[write.register] == write.value,
        programmed(registers, writes.push(write))[other] == programmed(registers, writes)[other],
{
    assert(writes.push(write).drop_last() =~= writes);
}

} // verus!
