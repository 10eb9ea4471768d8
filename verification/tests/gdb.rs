use xous_core::gdb::{
    advance, ensure_can_accept_characters, ensure_can_accept_characters_inner, init,
    process_character, receive_irq, report_terminated, state_can_accept_characters,
    DebugAction, DebugEvent, Debugger, Flight, Note, ServerState, StopSignal, Termination,
    XousDebugState, XousTarget,
};

fn session(server: ServerState) -> XousDebugState {
    XousDebugState { target: XousTarget::new(), server }
}

fn moved(server: ServerState) -> DebugEvent {
    DebugEvent::Moved(session(server))
}

fn with(server: ServerState) -> Debugger {
    Debugger { state: Some(session(server)), flight: Flight::Ready }
}

const RETURN_TO_IDLE: DebugAction = DebugAction::ReturnToIdle;
const INTERRUPT: DebugAction =
    DebugAction::HandleInterrupt { pause: None, signal: StopSignal::Sigint };

fn start() -> DebugAction {
    DebugAction::StartServer {
        target: XousTarget { pid: None, patched_instruction: 0 },
        packet_buffer_size: 4096,
    }
}

#[test]
fn a_fresh_target_has_no_process() {
    let target = XousTarget::new();
    assert_eq!(target.pid(), None);
    assert_eq!(target.patched_instruction, 0);
}

#[test]
fn two_states_take_characters() {
    assert!(state_can_accept_characters(ServerState::Idle));
    assert!(state_can_accept_characters(ServerState::Running));
    assert!(!state_can_accept_characters(ServerState::CtrlCInterrupt));
    assert!(!state_can_accept_characters(ServerState::Disconnected));
}

#[test]
fn a_character_is_pumped() {
    for server in [ServerState::Idle, ServerState::Running] {
        let mut debugger = with(server);
        assert_eq!(process_character(&mut debugger, b'+'), DebugAction::IncomingData { byte: b'+' });
        assert_eq!(debugger.state, None);
        assert_eq!(advance(&mut debugger, moved(ServerState::Running)), DebugAction::Keep);
        assert_eq!(debugger, with(ServerState::Running));
    }
}

#[test]
fn a_character_starts_a_session() {
    let mut debugger = Debugger::new();
    assert_eq!(process_character(&mut debugger, b'x'), start());
    let next = advance(&mut debugger, moved(ServerState::Idle));
    assert_eq!(next, DebugAction::IncomingData { byte: b'x' });
    assert_eq!(advance(&mut debugger, moved(ServerState::Idle)), DebugAction::Keep);
    assert_eq!(debugger, with(ServerState::Idle));
}

#[test]
fn a_session_that_takes_no_characters_is_given_up() {
    for server in [ServerState::CtrlCInterrupt, ServerState::Disconnected] {
        let mut debugger = with(server);
        let action = process_character(&mut debugger, 0);
        assert_eq!(action, DebugAction::Discard { note: Note::NotAccepting });
        assert_eq!(debugger, Debugger::new());
    }
}

#[test]
fn a_failure_on_a_character_ends_the_session() {
    let mut debugger = with(ServerState::Idle);
    process_character(&mut debugger, 0);
    let action = advance(&mut debugger, DebugEvent::Failed);
    assert_eq!(action, DebugAction::Discard { note: Note::IncomingFailed });
    assert_eq!(debugger, Debugger::new());
}

#[test]
fn an_interrupt_pauses_the_process() {
    let mut debugger = with(ServerState::Running);
    process_character(&mut debugger, 3);
    let target = XousTarget { pid: Some(9), patched_instruction: 0 };
    let interrupted = XousDebugState { target, server: ServerState::CtrlCInterrupt };
    assert_eq!(
        advance(&mut debugger, DebugEvent::Moved(interrupted)),
        DebugAction::HandleInterrupt { pause: Some(9), signal: StopSignal::Sigint }
    );
    let stopped = XousDebugState { target, server: ServerState::Idle };
    assert_eq!(advance(&mut debugger, DebugEvent::Moved(stopped)), DebugAction::Keep);
    assert_eq!(debugger.state, Some(stopped));
}

#[test]
fn a_client_that_has_gone_leaves_an_idle_session() {
    let mut debugger = with(ServerState::Idle);
    process_character(&mut debugger, 0);
    assert_eq!(advance(&mut debugger, moved(ServerState::Disconnected)), RETURN_TO_IDLE);
    assert_eq!(advance(&mut debugger, moved(ServerState::Idle)), DebugAction::Keep);
    assert_eq!(debugger, with(ServerState::Idle));
}

#[test]
fn settling_is_given_up_in_the_end() {
    let mut debugger = with(ServerState::Idle);
    process_character(&mut debugger, 0);
    assert_eq!(advance(&mut debugger, moved(ServerState::CtrlCInterrupt)), INTERRUPT);
    assert_eq!(advance(&mut debugger, moved(ServerState::Disconnected)), RETURN_TO_IDLE);
    assert_eq!(advance(&mut debugger, moved(ServerState::CtrlCInterrupt)), INTERRUPT);
    assert_eq!(advance(&mut debugger, moved(ServerState::Disconnected)), RETURN_TO_IDLE);
    // even a machine that would take characters now comes too late
    let action = advance(&mut debugger, moved(ServerState::Idle));
    assert_eq!(action, DebugAction::Discard { note: Note::Unsettled });
    assert_eq!(debugger, Debugger::new());
}

#[test]
fn three_calls_are_enough_to_settle() {
    let mut debugger = with(ServerState::Idle);
    process_character(&mut debugger, 0);
    for _ in 0..3 {
        assert_eq!(advance(&mut debugger, moved(ServerState::Disconnected)), RETURN_TO_IDLE);
    }
    assert_eq!(advance(&mut debugger, moved(ServerState::Running)), DebugAction::Keep);
}

#[test]
fn a_failure_while_settling_ends_the_session() {
    let mut debugger = with(ServerState::Running);
    process_character(&mut debugger, 3);
    advance(&mut debugger, moved(ServerState::CtrlCInterrupt));
    let action = advance(&mut debugger, DebugEvent::Failed);
    assert_eq!(action, DebugAction::Discard { note: Note::Unsettled });
    assert_eq!(debugger, Debugger::new());
}

#[test]
fn a_lost_session_is_reconstituted() {
    let mut debugger = Debugger::new();
    assert_eq!(receive_irq(&mut debugger, None), Some(start()));
    assert_eq!(advance(&mut debugger, moved(ServerState::Idle)), DebugAction::Keep);
    assert_eq!(receive_irq(&mut debugger, None), None);
    let action = receive_irq(&mut debugger, Some(b'$'));
    assert_eq!(action, Some(DebugAction::IncomingData { byte: b'$' }));
}

#[test]
fn init_replaces_the_session() {
    let mut debugger = with(ServerState::Running);
    assert_eq!(init(&mut debugger), start());
    assert_eq!(advance(&mut debugger, moved(ServerState::Idle)), DebugAction::Keep);
    assert_eq!(debugger, with(ServerState::Idle));
}

#[test]
fn termination_is_reported_to_a_running_session() {
    let mut debugger = with(ServerState::Running);
    let stop = DebugAction::ReportStop { signal: StopSignal::ExcBadAccess };
    assert_eq!(report_terminated(&mut debugger, 5), (Termination { pid: 5 }, stop));
    // whatever state this leaves is kept
    assert_eq!(advance(&mut debugger, moved(ServerState::Disconnected)), DebugAction::Keep);
    assert_eq!(debugger, with(ServerState::Disconnected));

    let mut failing = with(ServerState::Running);
    report_terminated(&mut failing, 5);
    let action = advance(&mut failing, DebugEvent::Failed);
    assert_eq!(action, DebugAction::Discard { note: Note::StopFailed });
    assert_eq!(failing, Debugger::new());
}

#[test]
fn termination_ends_any_other_session() {
    for server in [ServerState::Idle, ServerState::CtrlCInterrupt, ServerState::Disconnected] {
        let mut debugger = with(server);
        let (_, action) = report_terminated(&mut debugger, 5);
        assert_eq!(action, DebugAction::Discard { note: Note::NotRunning { server } });
        assert_eq!(debugger, Debugger::new());
    }
    let (termination, action) = report_terminated(&mut Debugger::new(), 6);
    assert_eq!(termination, Termination { pid: 6 });
    assert_eq!(action, DebugAction::Discard { note: Note::NoServer });
}

#[test]
fn an_accepting_session_is_kept_as_it_is() {
    let target = XousTarget { pid: Some(4), patched_instruction: 77 };
    for server in [ServerState::Idle, ServerState::Running] {
        let kept = XousDebugState { target, server };
        for attempts in 1..5 {
            let mut debugger = Debugger::new();
            let action = ensure_can_accept_characters_inner(&mut debugger, kept, attempts);
            assert_eq!(action, DebugAction::Keep);
            assert_eq!(debugger, Debugger { state: Some(kept), flight: Flight::Ready });
        }
        let mut debugger = Debugger::new();
        assert_eq!(ensure_can_accept_characters(&mut debugger, kept), DebugAction::Keep);
        let action = ensure_can_accept_characters_inner(&mut debugger, kept, 0);
        assert_eq!(action, DebugAction::Discard { note: Note::Unsettled });
        assert_eq!(debugger, Debugger::new());
    }
}
