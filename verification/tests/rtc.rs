use xous_core::rtc::{RegisterWrite, RtcAlarms};

fn write(register: u8, value: u8) -> RegisterWrite {
    RegisterWrite { device: 0x68, register, value }
}

#[test]
fn wakeup_alarm_alone() {
    let mut alarms = RtcAlarms::new();
    let outcome = alarms.set_wakeup_alarm(5);
    assert_eq!(outcome.reply, 0);
    assert_eq!(
        outcome.writes,
        vec![write(2, 0), write(0x12, 0x72), write(0x13, 5), write(1, 1), write(0xf, 0x39)]
    );
    assert!(alarms.wakeup_alarm_enabled && !alarms.rtc_alarm_enabled);
    let outcome = alarms.clear_wakeup_alarm();
    assert_eq!(outcome.reply, 0);
    assert_eq!(outcome.writes, vec![write(2, 0), write(0xf, 0x38), write(1, 0)]);
    assert_eq!(alarms, RtcAlarms::new());
}

#[test]
fn rtc_alarm_alone() {
    let mut alarms = RtcAlarms::new();
    let outcome = alarms.set_rtc_alarm(255);
    assert_eq!(outcome.reply, 0);
    assert_eq!(
        outcome.writes,
        vec![write(2, 0), write(0x10, 0x72), write(0x11, 255), write(1, 2), write(0xf, 0xba)]
    );
    let outcome = alarms.clear_rtc_alarm();
    assert_eq!(outcome.reply, 0);
    assert_eq!(outcome.writes, vec![write(0xf, 0x38), write(1, 0)]);
    assert_eq!(alarms, RtcAlarms::new());
}

#[test]
fn alarms_keep_each_other_on() {
    let mut alarms = RtcAlarms::new();
    alarms.set_rtc_alarm(10);
    assert_eq!(
        alarms.set_wakeup_alarm(20).writes,
        vec![write(2, 0), write(0x12, 0x72), write(0x13, 20), write(1, 3), write(0xf, 0xbb)]
    );
    assert_eq!(
        alarms.set_rtc_alarm(30).writes,
        vec![write(2, 0), write(0x10, 0x72), write(0x11, 30), write(1, 3), write(0xf, 0xbb)]
    );
    let mut other = alarms;
    assert_eq!(
        alarms.clear_wakeup_alarm().writes,
        vec![write(2, 0), write(0xf, 0xba), write(1, 2)]
    );
    assert_eq!(other.clear_rtc_alarm().writes, vec![write(0xf, 0x79), write(1, 1)]);
    assert!(alarms.rtc_alarm_enabled && !alarms.wakeup_alarm_enabled);
    assert!(other.wakeup_alarm_enabled && !other.rtc_alarm_enabled);
}

#[test]
fn long_delays_are_refused() {
    let mut alarms = RtcAlarms::new();
    for delay in [256, 257, usize::MAX] {
        let outcome = alarms.set_wakeup_alarm(delay);
        assert_eq!((outcome.reply, outcome.writes.len()), (1, 0));
        let outcome = alarms.set_rtc_alarm(delay);
        assert_eq!((outcome.reply, outcome.writes.len()), (1, 0));
    }
    assert_eq!(alarms, RtcAlarms::new());
}

/// Plays the writes into a model of the registers.
fn program(registers: &mut [u8; 32], writes: &[RegisterWrite]) {
    for write in writes {
        registers[write.register as usize] = write.value;
    }
}

#[test]
fn clock_agrees_with_the_alarms() {
    for steps in 0..256usize {
        let mut alarms = RtcAlarms::new();
        let mut registers = [0xffu8; 32];
        for step in 0..4 {
            let outcome = match (steps >> (2 * step)) & 3 {
                0 => alarms.set_wakeup_alarm(9),
                1 => alarms.clear_wakeup_alarm(),
                2 => alarms.set_rtc_alarm(11),
                _ => alarms.clear_rtc_alarm(),
            };
            program(&mut registers, &outcome.writes);
            assert_eq!((registers[0xf] >> 1) & 3 == 1, alarms.rtc_alarm_enabled);
            assert_eq!(registers[0xf] >> 7 == 1, alarms.rtc_alarm_enabled);
            assert_eq!(registers[0xf] & 1 == 1, alarms.wakeup_alarm_enabled);
            assert!(registers[0xf] & 0x40 == 0 || alarms.wakeup_alarm_enabled);
            assert_eq!(registers[1] & 2 == 2, alarms.rtc_alarm_enabled);
            assert_eq!(registers[1] & 1 == 1, alarms.wakeup_alarm_enabled);
        }
    }
}

#[test]
fn timers_hold_the_delay_that_was_set_last() {
    let mut alarms = RtcAlarms::new();
    let mut registers = [0u8; 32];
    let outcomes = [
        alarms.set_wakeup_alarm(10),
        alarms.set_wakeup_alarm(20),
        alarms.set_rtc_alarm(30),
        alarms.set_wakeup_alarm(300),
        alarms.clear_wakeup_alarm(),
        alarms.clear_rtc_alarm(),
    ];
    for outcome in outcomes {
        program(&mut registers, &outcome.writes);
    }
    assert_eq!((registers[0x13], registers[0x12]), (20, 0x72));
    assert_eq!((registers[0x11], registers[0x10]), (30, 0x72));
}
