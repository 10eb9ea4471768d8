//! What holds of the low-level I/O server as a whole.
use vstd::prelude::*;
use crate::callbacks::{CID, ScalarCallback, ScalarHook, ScalarMessage};
use crate::callbacks;
use crate::llio::{
    Action, Config, EventSource, LlioState, Opcode, Query, Reading, HOSTED_ACTIVITY_PERIOD,
};
use crate::llio;
use crate::message::{Args, Body};
use crate::rtc::RegisterWrite;
use crate::rtc;

verus! {

/// Whether an action answers the sender of the message.
pub open spec fn is_answer(action: Action) -> bool {
    action is Reply || action is Reply2 || action is Ask
}

/// Every sender that waits for an answer, with an opcode that gives one, gets
/// exactly one, after all else that is done about the message.
pub proof fn law_blocking_request_is_answered_once(state: LlioState, opcode: Opcode, args: Args)
    requires
        llio::kind_of(opcode) is BlockingScalar,
    ensures
        ({
            let actions = llio::actions_after(state, Some(opcode), Body::BlockingScalar(args));
            &&& actions.len() > 0
            &&& is_answer(actions.last())
            &&& forall|i: int| 0 <= i < actions.len() - 1 ==> !is_answer(#[trigger] actions[i])
        }),
{
}

/// A message whose sender does not wait is never answered, nor is one of the
/// wrong kind or with an opcode that is not known.
pub proof fn law_other_messages_are_not_answered(
    state: LlioState,
    opcode: Option<Opcode>,
    body: Body,
    i: int,
)
    requires
        opcode is Some && llio::kind_of(opcode->0) is BlockingScalar ==> !(body is BlockingScalar),
        0 <= i < llio::actions_after(state, opcode, body).len(),
    ensures
        !is_answer(llio::actions_after(state, opcode, body)[i]),
{
}

/// A message of the wrong kind is noted, and has no effect.
pub proof fn law_wrong_kind_has_no_effect(state: LlioState, opcode: Opcode, body: Body)
    requires
        !llio::fits(opcode, body),
    ensures
        llio::actions_after(state, Some(opcode), body) == seq![Action::NoteWrongKind],
        llio::state_after(state, Some(opcode), body) == state,
{
}

/// An opcode that is not known is noted, and has no effect.
pub proof fn law_unknown_opcode_has_no_effect(state: LlioState, body: Body)
    ensures
        llio::actions_after(state, None, body) == seq![Action::NoteUnknownOpcode],
        llio::state_after(state, None, body) == state,
{
}

/// Only the request to quit stops the server.
pub proof fn law_only_quit_stops(state: LlioState, opcode: Option<Opcode>, body: Body)
    ensures
        llio::state_after(state, opcode, body).running == (state.running && opcode != Some(Opcode::Quit)),
{
}

/// Every message keeps the state well formed, and so does every registration.
pub proof fn law_tables_stay_packed(
    state: LlioState,
    opcode: Option<Opcode>,
    body: Body,
    source: EventSource,
    callback: ScalarCallback,
)
    requires
        state.wf(),
    ensures
        llio::state_after(state, opcode, body).wf(),
        state.with_table(source, callbacks::hooked(state.table(source), callback)).wf(),
{
    lemma_empty_table();
    let after = llio::state_after(state, opcode, body);
    assert forall|s: EventSource|
        {
            &&& (#[trigger] after.table(s)).len() == callbacks::MAX_CALLBACKS
            &&& callbacks::packed(after.table(s))
        } by {
        assert(state.table(s).len() == callbacks::MAX_CALLBACKS);
    }
    callbacks::law_hook_appends(state.table(source), callback);
    let hooked_slots = callbacks::hooked(state.table(source), callback);
    let hooked = state.with_table(source, hooked_slots);
    assert forall|s: EventSource|
        {
            &&& (#[trigger] hooked.table(s)).len() == callbacks::MAX_CALLBACKS
            &&& callbacks::packed(hooked.table(s))
        } by {
        assert(state.table(s).len() == callbacks::MAX_CALLBACKS);
        assert(state.table(source).len() == callbacks::MAX_CALLBACKS);
        assert(hooked.table(s) == if s == source { hooked_slots } else { state.table(s) });
    }
}

proof fn lemma_empty_table()
    ensures
        llio::empty_table().len() == callbacks::MAX_CALLBACKS,
        callbacks::packed(llio::empty_table()),
        callbacks::subscribers(llio::empty_table()) == Seq::<ScalarCallback>::empty(),
{
    callbacks::law_nobody_hears_after_unhook(llio::empty_table(), 0);
    let subscribers = callbacks::subscribers(llio::empty_table());
    assert(callbacks::event_messages(subscribers, 0).len() == subscribers.len());
    assert(subscribers =~= Seq::<ScalarCallback>::empty());
}

/// The state that the server starts in is well formed, and nobody has subscribed.
pub proof fn law_boot_state(config: Config, source: EventSource)
    ensures
        llio::boot_state(config).wf(),
        callbacks::subscribers(llio::boot_state(config).table(source)) == Seq::<
            ScalarCallback,
        >::empty(),
{
    lemma_empty_table();
    assert forall|s: EventSource| #[trigger] llio::boot_state(config).table(s)
        == llio::empty_table() by {}
}

/// The opcode that says that a source has had an event.
pub open spec fn event_opcode(source: EventSource) -> Opcode {
    match source {
        EventSource::Usb => Opcode::EventUsbHappened,
        EventSource::Com => Opcode::EventComHappened,
        EventSource::Rtc => Opcode::EventRtcHappened,
        EventSource::Gpio => Opcode::GpioIntHappened,
    }
}

/// A subscriber that there was room for hears of the events of its source,
/// after all who had subscribed before; and of no other source.
pub proof fn law_subscriber_hears_its_source(
    state: LlioState,
    source: EventSource,
    hook: ScalarHook,
    connection: CID,
    args: Args,
)
    requires
        state.wf(),
        callbacks::subscribers(state.table(source)).len() < callbacks::MAX_CALLBACKS,
    ensures
        ({
            let subscribed = state.with_table(
                source,
                callbacks::hooked(
                    state.table(source),
                    callbacks::callback_for(hook, connection),
                ),
            );
            let which = if source is Gpio { args.arg1 } else { 0 };
            &&& llio::actions_after(subscribed, Some(event_opcode(source)), Body::Scalar(args))
                == llio::actions_after(state, Some(event_opcode(source)), Body::Scalar(args)).push(
                Action::TrySend(
                    ScalarMessage {
                        connection,
                        opcode: callbacks::EventCallback::Event,
                        args: (hook.cid as usize, hook.id as usize, which, 0),
                    },
                ),
            )
            &&& forall|other: EventSource|
                other != source ==> #[trigger] llio::actions_after(
                    subscribed,
                    Some(event_opcode(other)),
                    Body::Scalar(args),
                ) == llio::actions_after(state, Some(event_opcode(other)), Body::Scalar(args))
        }),
{
    let callback = callbacks::callback_for(hook, connection);
    let slots = state.table(source);
    let which = if source is Gpio { args.arg1 } else { 0 };
    assert(slots.len() == callbacks::MAX_CALLBACKS && callbacks::packed(slots));
    callbacks::law_hooked_subscriber_hears(slots, hook, connection, which);
    assert(llio::event_actions(callbacks::hooked(slots, callback), which) =~= llio::event_actions(
        slots,
        which,
    ).push(Action::TrySend(callbacks::event_message(callback, which))));
}

/// After the request to quit nobody is subscribed any more, and every
/// subscriber has been sent exactly one farewell.
pub proof fn law_quit_releases_every_subscriber(state: LlioState, body: Body, source: EventSource)
    ensures
        callbacks::subscribers(llio::state_after(state, Some(Opcode::Quit), body).table(source))
            == Seq::<ScalarCallback>::empty(),
        farewells_in(llio::actions_after(state, Some(Opcode::Quit), body)) == callbacks::drop_messages(
            callbacks::subscribers(state.com) + callbacks::subscribers(state.rtc)
                + callbacks::subscribers(state.usb) + callbacks::subscribers(state.gpio),
        ),
{
    lemma_empty_table();
    let com = callbacks::subscribers(state.com);
    let rtc = callbacks::subscribers(state.rtc);
    let usb = callbacks::subscribers(state.usb);
    let gpio = callbacks::subscribers(state.gpio);
    let stop = seq![llio::stop_i2c_action()];
    let end = seq![
        Action::UnregisterServer,
        Action::DestroyServer,
        Action::Terminate { code: 0 },
    ];
    let a = stop + llio::farewell_actions(state.com);
    let b = a + llio::farewell_actions(state.rtc);
    let c = b + llio::farewell_actions(state.usb);
    let d = c + llio::farewell_actions(state.gpio);
    assert(llio::actions_after(state, Some(Opcode::Quit), body) == d + end);
    reveal_with_fuel(farewells_in, 4);
    assert(farewells_in(stop) =~= Seq::<ScalarMessage>::empty()) by {
        assert(stop.drop_last() =~= Seq::<Action>::empty());
    }
    assert(farewells_in(end) =~= Seq::<ScalarMessage>::empty()) by {
        assert(end.drop_last().drop_last().drop_last() =~= Seq::<Action>::empty());
    }
    lemma_farewells_concat(stop, llio::farewell_actions(state.com));
    lemma_farewells_concat(a, llio::farewell_actions(state.rtc));
    lemma_farewells_concat(b, llio::farewell_actions(state.usb));
    lemma_farewells_concat(c, llio::farewell_actions(state.gpio));
    lemma_farewells_concat(d, end);
    lemma_farewells_of_table(com);
    lemma_farewells_of_table(rtc);
    lemma_farewells_of_table(usb);
    lemma_farewells_of_table(gpio);
    assert(callbacks::drop_messages(com + rtc + usb + gpio) =~= callbacks::drop_messages(com)
        + callbacks::drop_messages(rtc) + callbacks::drop_messages(usb) + callbacks::drop_messages(
        gpio,
    ));
    assert(farewells_in(d + end) =~= callbacks::drop_messages(com + rtc + usb + gpio));
}

/// The farewells in a series of actions.
pub open spec fn farewells_in(actions: Seq<Action>) -> Seq<ScalarMessage>
    decreases actions.len(),
{
    if actions.len() == 0 {
        Seq::empty()
    } else {
        match actions.last() {
            Action::SendAndDisconnect(message) => farewells_in(actions.drop_last()).push(message),
            _ => farewells_in(actions.drop_last()),
        }
    }
}

proof fn lemma_farewells_concat(a: Seq<Action>, b: Seq<Action>)
    ensures
        farewells_in(a + b) == farewells_in(a) + farewells_in(b),
    decreases b.len(),
{
    if b.len() == 0 {
        assert(a + b =~= a);
    } else {
        assert((a + b).drop_last() =~= a + b.drop_last());
        lemma_farewells_concat(a, b.drop_last());
    }
    assert(farewells_in(a + b) =~= farewells_in(a) + farewells_in(b));
}

proof fn lemma_farewells_of_table(subscribers: Seq<ScalarCallback>)
    ensures
        farewells_in(
            callbacks::drop_messages(subscribers).map_values(
                |message: ScalarMessage| Action::SendAndDisconnect(message),
            ),
        ) == callbacks::drop_messages(subscribers),
    decreases subscribers.len(),
{
    let actions = callbacks::drop_messages(subscribers).map_values(
        |message: ScalarMessage| Action::SendAndDisconnect(message),
    );
    if subscribers.len() > 0 {
        let front = subscribers.drop_last();
        lemma_farewells_of_table(front);
        assert(actions.drop_last() =~= callbacks::drop_messages(front).map_values(
            |message: ScalarMessage| Action::SendAndDisconnect(message),
        ));
    }
    assert(farewells_in(actions) =~= callbacks::drop_messages(subscribers));
}

/// What the lock status is answered with is what was read back, never what was
/// asked for.
pub proof fn law_lock_status_is_read_back(force_update: bool, locked: bool)
    ensures
        llio::answer_to(Query::UsbDisable { force_update }, Reading::Flag(locked)) == (Action::Reply2 {
            first: llio::flag_number(locked),
            second: llio::flag_number(force_update),
        }),
{
}

/// Made-up activity stays below the period once it has been asked for, so that
/// it can always be asked for again.
pub proof fn law_hosted_activity_stays_in_period(state: LlioState, question: Args)
    requires
        state.config.hosted,
        llio::acceptable(state, Some(Opcode::GetActivity), Body::BlockingScalar(question)),
    ensures
        ({
            let after = llio::state_after(
                state,
                Some(Opcode::GetActivity),
                Body::BlockingScalar(question),
            );
            &&& after.latest_activity < HOSTED_ACTIVITY_PERIOD
            &&& llio::acceptable(after, Some(Opcode::GetActivity), Body::BlockingScalar(question))
        }),
{
}

/// The writes to the clock in a series of actions.
pub open spec fn clock_writes_in(actions: Seq<Action>) -> Seq<RegisterWrite>
    decreases actions.len(),
{
    if actions.len() == 0 {
        Seq::empty()
    } else {
        match actions.last() {
            Action::WriteClock(write) => clock_writes_in(actions.drop_last()).push(write),
            _ => clock_writes_in(actions.drop_last()),
        }
    }
}

proof fn lemma_no_clock_writes(actions: Seq<Action>)
    requires
        forall|i: int| 0 <= i < actions.len() ==> !(#[trigger] actions[i] is WriteClock),
    ensures
        clock_writes_in(actions) == Seq::<RegisterWrite>::empty(),
    decreases actions.len(),
{
    if actions.len() > 0 {
        let front = actions.drop_last();
        assert forall|i: int| 0 <= i < front.len() implies !(#[trigger] front[i] is WriteClock) by {
            assert(front[i] == actions[i]);
        }
        lemma_no_clock_writes(front);
        assert(!(actions[actions.len() - 1] is WriteClock));
    }
}

proof fn lemma_clock_writes_of(writes: Seq<RegisterWrite>)
    ensures
        clock_writes_in(llio::clock_actions(writes)) == writes,
    decreases writes.len(),
{
    if writes.len() > 0 {
        lemma_clock_writes_of(writes.drop_last());
        assert(llio::clock_actions(writes).drop_last() =~= llio::clock_actions(writes.drop_last()));
    }
    assert(clock_writes_in(llio::clock_actions(writes)) =~= writes);
}

/// The message asks for something of the alarms that can be done.
pub open spec fn accepted_alarm_request(opcode: Option<Opcode>, body: Body) -> bool {
    &&& opcode is Some
    &&& llio::fits(opcode->0, body)
    &&& llio::alarm_request(opcode->0, llio::first_arg(body)) matches Some(request)
        && !rtc::refused(request)
}

/// What a message leaves in the registers of the clock: an alarm request that
/// can be done programs them, and no other message touches them.
proof fn lemma_clock_after_message(
    state: LlioState,
    opcode: Option<Opcode>,
    body: Body,
    registers: Map<u8, u8>,
)
    ensures
        ({
            let clock = rtc::programmed(
                registers,
                clock_writes_in(llio::actions_after(state, opcode, body)),
            );
            if accepted_alarm_request(opcode, body) {
                let request = llio::alarm_request(opcode->0, llio::first_arg(body))->0;
                let after = rtc::alarms_after(state.alarms, request);
                &&& clock == rtc::programmed(registers, rtc::alarm_writes(request, after))
                &&& llio::state_after(state, opcode, body).alarms == after
            } else {
                &&& clock == registers
                &&& llio::state_after(state, opcode, body).alarms == state.alarms
            }
        }),
{
    let actions = llio::actions_after(state, opcode, body);
    if accepted_alarm_request(opcode, body) {
        let request = llio::alarm_request(opcode->0, llio::first_arg(body))->0;
        let writes = rtc::alarm_writes(request, rtc::alarms_after(state.alarms, request));
        assert(actions.drop_last() =~= llio::clock_actions(writes));
        lemma_clock_writes_of(writes);
    } else {
        assert forall|i: int| 0 <= i < actions.len() implies !(#[trigger] actions[i] is WriteClock) by {}
        lemma_no_clock_writes(actions);
    }
}

/// Whatever messages come, the clock keeps doing what the alarms that are on
/// say: no message makes it disagree, and an alarm request that is not refused
/// makes it agree, whatever was in its registers.
pub proof fn law_clock_keeps_agreeing(
    state: LlioState,
    opcode: Option<Opcode>,
    body: Body,
    registers: Map<u8, u8>,
)
    ensures
        ({
            let after = llio::state_after(state, opcode, body).alarms;
            let clock = rtc::programmed(
                registers,
                clock_writes_in(llio::actions_after(state, opcode, body)),
            );
            &&& rtc::clock_agrees(state.alarms, registers) ==> rtc::clock_agrees(after, clock)
            &&& accepted_alarm_request(opcode, body) ==> rtc::clock_agrees(after, clock)
        }),
{
    lemma_clock_after_message(state, opcode, body, registers);
    if accepted_alarm_request(opcode, body) {
        let request = llio::alarm_request(opcode->0, llio::first_arg(body))->0;
        rtc::law_clock_agrees_after_request(state.alarms, request, registers);
    }
}

/// Something that changes the state of the server.
pub enum LlioEvent {
    Message { opcode: Option<Opcode>, body: Body },
    Hooked { source: EventSource, callback: ScalarCallback },
}

/// The server and the registers of the clock after an event.
pub open spec fn after_event(state: LlioState, registers: Map<u8, u8>, event: LlioEvent) -> (
    LlioState,
    Map<u8, u8>,
) {
    match event {
        LlioEvent::Message { opcode, body } => (
            llio::state_after(state, opcode, body),
            rtc::programmed(
                registers,
                clock_writes_in(llio::actions_after(state, opcode, body)),
            ),
        ),
        LlioEvent::Hooked { source, callback } => (
            state.with_table(source, callbacks::hooked(state.table(source), callback)),
            registers,
        ),
    }
}

/// The server and the registers of the clock after a series of events.
pub open spec fn after_run(state: LlioState, registers: Map<u8, u8>, events: Seq<LlioEvent>) -> (
    LlioState,
    Map<u8, u8>,
)
    decreases events.len(),
{
    if events.len() == 0 {
        (state, registers)
    } else {
        let (before, clock) = after_run(state, registers, events.drop_last());
        after_event(before, clock, events.last())
    }
}

/// However long the server runs, its tables stay well formed, and a clock that
/// did what the alarms say goes on doing so.
pub proof fn law_invariants_hold_over_run(
    state: LlioState,
    registers: Map<u8, u8>,
    events: Seq<LlioEvent>,
)
    requires
        state.wf(),
        rtc::clock_agrees(state.alarms, registers),
    ensures
        after_run(state, registers, events).0.wf(),
        rtc::clock_agrees(
            after_run(state, registers, events).0.alarms,
            after_run(state, registers, events).1,
        ),
        after_run(state, registers, events).0.config == state.config,
    decreases events.len(),
{
    if events.len() > 0 {
        law_invariants_hold_over_run(state, registers, events.drop_last());
        let (before, clock) = after_run(state, registers, events.drop_last());
        match events.last() {
            LlioEvent::Message { opcode, body } => {
                let any = ScalarCallback {
                    server_to_cb_cid: 0,
                    cb_to_client_cid: 0,
                    cb_to_client_id: 0,
                };
                law_tables_stay_packed(before, opcode, body, EventSource::Usb, any);
                law_clock_keeps_agreeing(before, opcode, body, clock);
            },
            LlioEvent::Hooked { source, callback } => {
                law_tables_stay_packed(before, None, Body::Memory, source, callback);
            },
        }
    }
}

/// The event is an alarm request that can be done.
pub open spec fn is_alarm_event(event: LlioEvent) -> bool {
    event matches LlioEvent::Message { opcode, body } && accepted_alarm_request(opcode, body)
}

/// From the first alarm request that is not refused on, the clock does what the
/// alarms say, whatever was in its registers when the server started.
pub proof fn law_clock_agrees_once_an_alarm_was_requested(
    state: LlioState,
    registers: Map<u8, u8>,
    events: Seq<LlioEvent>,
    i: int,
)
    requires
        0 <= i < events.len(),
        is_alarm_event(events[i]),
    ensures
        rtc::clock_agrees(
            after_run(state, registers, events).0.alarms,
            after_run(state, registers, events).1,
        ),
    decreases events.len(),
{
    let front = events.drop_last();
    let (before, clock) = after_run(state, registers, front);
    if i < front.len() {
        assert(front[i] == events[i]);
        law_clock_agrees_once_an_alarm_was_requested(state, registers, front, i);
    }
    match events.last() {
        LlioEvent::Message { opcode, body } => {
            law_clock_keeps_agreeing(before, opcode, body, clock);
        },
        LlioEvent::Hooked { source, callback } => {},
    }
}

/// The delay that an event sets an alarm to, if it does: the wakeup alarm, or
/// else the RTC alarm.
pub open spec fn delay_set(event: LlioEvent, wakeup: bool) -> Option<usize> {
    match event {
        LlioEvent::Message { opcode: Some(opcode), body } if is_alarm_event(event) => match (
            llio::alarm_request(opcode, llio::first_arg(body))->0
        ) {
            rtc::AlarmRequest::SetWakeupAlarm { delay } if wakeup => Some(delay),
            rtc::AlarmRequest::SetRtcAlarm { delay } if !wakeup => Some(delay),
            _ => None,
        },
        _ => None,
    }
}

/// The timer of an alarm holds the delay that it was set to last, in seconds,
/// whatever else is done with either alarm.
pub proof fn law_timer_holds_the_last_delay(
    state: LlioState,
    registers: Map<u8, u8>,
    events: Seq<LlioEvent>,
    i: int,
    wakeup: bool,
)
    requires
        0 <= i < events.len(),
        delay_set(events[i], wakeup) is Some,
        forall|j: int| i < j < events.len() ==> delay_set(#[trigger] events[j], wakeup) is None,
    ensures
        ({
            let clock = after_run(state, registers, events).1;
            let count = if wakeup { rtc::ABRTCMC_TIMERB } else { rtc::ABRTCMC_TIMERA };
            let ticks = if wakeup { rtc::ABRTCMC_TIMERB_CLK } else { rtc::ABRTCMC_TIMERA_CLK };
            &&& clock[count] == delay_set(events[i], wakeup)->0
            &&& clock[ticks] == rtc::second_ticks()
        }),
    decreases events.len(),
{
    let front = events.drop_last();
    let e = events.last();
    let (before, clock) = after_run(state, registers, front);
    if i < front.len() {
        assert forall|j: int| i < j < front.len() implies delay_set(
            #[trigger] front[j],
            wakeup,
        ) is None by {
            assert(front[j] == events[j]);
        }
        assert(front[i] == events[i]);
        law_timer_holds_the_last_delay(state, registers, front, i, wakeup);
        assert(delay_set(events[events.len() - 1], wakeup) is None);
    }
    match e {
        LlioEvent::Message { opcode, body } => {
            lemma_clock_after_message(before, opcode, body, clock);
            if accepted_alarm_request(opcode, body) {
                let request = llio::alarm_request(opcode->0, llio::first_arg(body))->0;
                rtc::law_count_changes_only_when_set(before.alarms, request, clock);
                match request {
                    rtc::AlarmRequest::SetWakeupAlarm { delay } => {
                        rtc::law_set_alarm_counts_the_delay(before.alarms, delay, clock);
                    },
                    rtc::AlarmRequest::SetRtcAlarm { delay } => {
                        rtc::law_set_alarm_counts_the_delay(before.alarms, delay, clock);
                    },
                    _ => {},
                }
            }
        },
        LlioEvent::Hooked { source, callback } => {},
    }
}

/// The event is a suspend of the system.
pub open spec fn is_suspend(event: LlioEvent) -> bool {
    event matches LlioEvent::Message { opcode, body } && opcode == Some(Opcode::SuspendResume)
        && body is Scalar
}

/// The event is a request for the lock status.
pub open spec fn is_lock_request(event: LlioEvent) -> bool {
    event matches LlioEvent::Message { opcode, body } && opcode == Some(Opcode::DebugUsbOp)
        && body is BlockingScalar
}

/// No lock-status request has come since the last suspend, or since the start
/// if there was no suspend: each such request was followed by a suspend.
pub open spec fn redraw_is_due(events: Seq<LlioEvent>) -> bool {
    forall|i: int|
        0 <= i < events.len() && is_lock_request(#[trigger] events[i]) ==> exists|j: int|
            i < j < events.len() && is_suspend(#[trigger] events[j])
}

/// Whoever asks for the lock status is told to draw it again if and only if
/// nobody has asked since the later of the start and the last suspend.
pub proof fn law_redraw_is_forced_once_after_suspend(
    config: Config,
    registers: Map<u8, u8>,
    events: Seq<LlioEvent>,
    question: Args,
)
    ensures
        ({
            let state = after_run(llio::boot_state(config), registers, events).0;
            &&& state.lockstatus_force_update == redraw_is_due(events)
            &&& llio::actions_after(
                state,
                Some(Opcode::DebugUsbOp),
                Body::BlockingScalar(question),
            ).last() == Action::Ask(Query::UsbDisable { force_update: redraw_is_due(events) })
        }),
    decreases events.len(),
{
    if events.len() > 0 {
        let front = events.drop_last();
        let last = events.len() - 1;
        let e = events[last];
        law_redraw_is_forced_once_after_suspend(config, registers, front, question);
        if is_suspend(e) {
            assert forall|i: int| 0 <= i < events.len() && is_lock_request(
                #[trigger] events[i],
            ) implies exists|j: int| i < j < events.len() && is_suspend(#[trigger] events[j]) by {
                assert(i < last && is_suspend(events[last]));
            }
        } else if is_lock_request(e) {
            if redraw_is_due(events) {
                assert(is_lock_request(events[last]));
                let j = choose|j: int| last < j < events.len() && is_suspend(#[trigger] events[j]);
                assert(false);
            }
        } else {
            if redraw_is_due(front) {
                assert forall|i: int| 0 <= i < events.len() && is_lock_request(
                    #[trigger] events[i],
                ) implies exists|j: int|
                    i < j < events.len() && is_suspend(#[trigger] events[j]) by {
                    assert(front[i] == events[i]);
                    let j = choose|j: int| i < j < front.len() && is_suspend(#[trigger] front[j]);
                    assert(front[j] == events[j]);
                }
            }
            if redraw_is_due(events) {
                assert forall|i: int| 0 <= i < front.len() && is_lock_request(
                    #[trigger] front[i],
                ) implies exists|j: int| i < j < front.len() && is_suspend(#[trigger] front[j]) by {
                    assert(front[i] == events[i]);
                    let j = choose|j: int| i < j < events.len() && is_suspend(#[trigger] events[j]);
                    assert(j != last);
                    assert(front[j] == events[j]);
                }
            }
        }
    }
}

/// The activity that an event reports.
pub open spec fn reported_activity(event: LlioEvent) -> Option<u32> {
    match event {
        LlioEvent::Message {
            opcode: Some(Opcode::EventActivityHappened),
            body: Body::Scalar(args),
        } => Some(args.arg1 as u32),
        _ => None,
    }
}

/// The activity that was reported last, and zero if none was.
pub open spec fn last_reported_activity(events: Seq<LlioEvent>) -> u32
    decreases events.len(),
{
    if events.len() == 0 {
        0
    } else {
        match reported_activity(events.last()) {
            Some(activity) => activity,
            None => last_reported_activity(events.drop_last()),
        }
    }
}

/// On hardware a question for the activity is answered with the activity that
/// was reported last, however long ago, together with the period.
pub proof fn law_activity_is_the_latest(
    config: Config,
    registers: Map<u8, u8>,
    events: Seq<LlioEvent>,
    question: Args,
    period: u32,
)
    requires
        !config.hosted,
    ensures
        ({
            let state = after_run(llio::boot_state(config), registers, events).0;
            let latest = last_reported_activity(events);
            let query = Query::ActivityPeriod { latest_activity: latest };
            &&& llio::actions_after(
                state,
                Some(Opcode::GetActivity),
                Body::BlockingScalar(question),
            ) == seq![Action::Ask(query)]
            &&& llio::answer_to(query, Reading::Word(period)) == (Action::Reply2 {
                first: latest as usize,
                second: period as usize,
            })
        }),
{
    lemma_latest_activity(config, registers, events);
}

proof fn lemma_latest_activity(config: Config, registers: Map<u8, u8>, events: Seq<LlioEvent>)
    requires
        !config.hosted,
    ensures
        after_run(llio::boot_state(config), registers, events).0.config == config,
        after_run(llio::boot_state(config), registers, events).0.latest_activity
            == last_reported_activity(events),
    decreases events.len(),
{
    if events.len() > 0 {
        lemma_latest_activity(config, registers, events.drop_last());
    }
}

/// The event is a request to quit.
pub open spec fn is_quit(event: LlioEvent) -> bool {
    event matches LlioEvent::Message { opcode, body } && opcode == Some(Opcode::Quit)
}

/// Those who asked to be told of a source, in order.
pub open spec fn hooks_of(events: Seq<LlioEvent>, source: EventSource) -> Seq<ScalarCallback>
    decreases events.len(),
{
    if events.len() == 0 {
        Seq::empty()
    } else {
        let before = hooks_of(events.drop_last(), source);
        match events.last() {
            LlioEvent::Hooked { source: hooked, callback } if hooked == source => before.push(
                callback,
            ),
            _ => before,
        }
    }
}

/// For as long as the server runs, the subscribers of a source are those who
/// asked first, as many as there is room for: no message and no failed delivery
/// makes it forget one, and no other source does.
pub proof fn law_subscriptions_last(
    config: Config,
    registers: Map<u8, u8>,
    events: Seq<LlioEvent>,
    source: EventSource,
)
    requires
        forall|i: int| 0 <= i < events.len() ==> !is_quit(#[trigger] events[i]),
    ensures
        callbacks::subscribers(
            after_run(llio::boot_state(config), registers, events).0.table(source),
        ) == {
            let hooks = hooks_of(events, source);
            if hooks.len() <= callbacks::MAX_CALLBACKS {
                hooks
            } else {
                hooks.take(callbacks::MAX_CALLBACKS as int)
            }
        },
{
    lemma_table_over_run(config, registers, events, source);
    lemma_empty_table();
    let hooks = hooks_of(events, source);
    callbacks::law_first_come_first_served(llio::empty_table(), hooks);
    assert(Seq::<ScalarCallback>::empty() + hooks =~= hooks);
}

proof fn lemma_table_over_run(
    config: Config,
    registers: Map<u8, u8>,
    events: Seq<LlioEvent>,
    source: EventSource,
)
    requires
        forall|i: int| 0 <= i < events.len() ==> !is_quit(#[trigger] events[i]),
    ensures
        after_run(llio::boot_state(config), registers, events).0.table(source)
            == callbacks::hooked_all(llio::empty_table(), hooks_of(events, source)),
    decreases events.len(),
{
    if events.len() > 0 {
        let front = events.drop_last();
        assert forall|i: int| 0 <= i < front.len() implies !is_quit(#[trigger] front[i]) by {
            assert(front[i] == events[i]);
        }
        lemma_table_over_run(config, registers, front, source);
        assert(!is_quit(events[events.len() - 1]));
        let before = hooks_of(front, source);
        if let LlioEvent::Hooked { source: hooked, callback } = events.last() {
            assert(before.push(callback).drop_last() =~= before);
        }
    }
}

/// The alarm request that an event makes, if it can be done.
pub open spec fn alarm_request_in(event: LlioEvent) -> Option<rtc::AlarmRequest> {
    match event {
        LlioEvent::Message { opcode: Some(opcode), body } if is_alarm_event(event) =>
            llio::alarm_request(opcode, llio::first_arg(body)),
        _ => None,
    }
}

/// The last alarm request that could be done.
pub open spec fn last_alarm_request(events: Seq<LlioEvent>) -> Option<rtc::AlarmRequest>
    decreases events.len(),
{
    if events.len() == 0 {
        None
    } else {
        match alarm_request_in(events.last()) {
            Some(request) => Some(request),
            None => last_alarm_request(events.drop_last()),
        }
    }
}

/// Whether a request turns an alarm on or off: the wakeup alarm, or else the
/// RTC alarm.
pub open spec fn switches(request: rtc::AlarmRequest, wakeup: bool) -> Option<bool> {
    match request {
        rtc::AlarmRequest::SetWakeupAlarm { .. } if wakeup => Some(true),
        rtc::AlarmRequest::ClearWakeupAlarm if wakeup => Some(false),
        rtc::AlarmRequest::SetRtcAlarm { .. } if !wakeup => Some(true),
        rtc::AlarmRequest::ClearRtcAlarm if !wakeup => Some(false),
        _ => None,
    }
}

/// Whether an alarm was last turned on rather than off; at the start it is off.
pub open spec fn last_switched_on(events: Seq<LlioEvent>, wakeup: bool) -> bool
    decreases events.len(),
{
    if events.len() == 0 {
        false
    } else {
        match alarm_request_in(events.last()) {
            Some(request) => match switches(request, wakeup) {
                Some(on) => on,
                None => last_switched_on(events.drop_last(), wakeup),
            },
            None => last_switched_on(events.drop_last(), wakeup),
        }
    }
}

/// However long the server runs, each alarm is on if and only if the last
/// request for it that was not refused turned it on. The registers that the
/// alarms share hold exactly the bits for the alarms that are on, with no
/// interrupt pending and the clock output off; until the first request that is
/// not refused the clock is not touched at all.
pub proof fn law_alarms_and_registers_over_run(
    config: Config,
    registers: Map<u8, u8>,
    events: Seq<LlioEvent>,
)
    ensures
        ({
            let (state, clock) = after_run(llio::boot_state(config), registers, events);
            &&& state.alarms == (rtc::RtcAlarms {
                rtc_alarm_enabled: last_switched_on(events, false),
                wakeup_alarm_enabled: last_switched_on(events, true),
            })
            &&& match last_alarm_request(events) {
                None => clock == registers,
                Some(request) => {
                    &&& clock.contains_key(rtc::ABRTCMC_CONTROL2)
                    &&& clock.contains_key(rtc::ABRTCMC_CONFIG)
                    &&& clock[rtc::ABRTCMC_CONTROL2] == rtc::interrupt_bits(state.alarms)
                    &&& clock[rtc::ABRTCMC_CONFIG] == rtc::config_bits(
                        state.alarms,
                        rtc::pulse_of(request),
                    )
                    &&& clock[rtc::ABRTCMC_CONTROL2] as int / 8 == 0
                    &&& (clock[rtc::ABRTCMC_CONFIG] as int / 8) % 8 == 7
                },
            }
        }),
    decreases events.len(),
{
    if events.len() > 0 {
        let front = events.drop_last();
        law_alarms_and_registers_over_run(config, registers, front);
        let (before, clock) = after_run(llio::boot_state(config), registers, front);
        match events.last() {
            LlioEvent::Message { opcode, body } => {
                lemma_clock_after_message(before, opcode, body, clock);
                if accepted_alarm_request(opcode, body) {
                    let request = llio::alarm_request(opcode->0, llio::first_arg(body))->0;
                    assert(alarm_request_in(events.last()) == Some(request));
                    rtc::law_shared_registers_after_request(before.alarms, request, clock);
                    rtc::law_clock_keeps_time(before.alarms, request, clock);
                } else {
                    assert(alarm_request_in(events.last()) is None);
                }
            },
            LlioEvent::Hooked { source, callback } => {
                assert(alarm_request_in(events.last()) is None);
            },
        }
    }
}

/// Once an alarm was set or the wakeup alarm turned off, the clock runs on its
/// battery when power goes off, whatever is asked for afterwards.
pub proof fn law_battery_switchover_stays_on(
    state: LlioState,
    registers: Map<u8, u8>,
    events: Seq<LlioEvent>,
    i: int,
)
    requires
        0 <= i < events.len(),
        alarm_request_in(events[i]) matches Some(request) && !(request is ClearRtcAlarm),
    ensures
        after_run(state, registers, events).1[rtc::ABRTCMC_CONTROL3] == rtc::BATT_STD_BL_EN,
    decreases events.len(),
{
    let front = events.drop_last();
    let (before, clock) = after_run(state, registers, front);
    if i < front.len() {
        assert(front[i] == events[i]);
        law_battery_switchover_stays_on(state, registers, front, i);
    }
    match events.last() {
        LlioEvent::Message { opcode, body } => {
            lemma_clock_after_message(before, opcode, body, clock);
            if accepted_alarm_request(opcode, body) {
                let request = llio::alarm_request(opcode->0, llio::first_arg(body))->0;
                rtc::law_clock_keeps_time(before.alarms, request, clock);
            }
        },
        LlioEvent::Hooked { source, callback } => {},
    }
}

} // verus!
