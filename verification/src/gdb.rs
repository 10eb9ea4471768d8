//! The debug server of the kernel: what is done with each character from the
//! debug port, and which of the four states of the GDB protocol machine are
//! worth keeping.
//!
//! The protocol machine itself talks to the port and to the debugged process.
//! Each function here gives the next call to make on it; the outcome of the
//! call comes back through [`advance`].
use vstd::prelude::*;

verus! {

/// A process number.
pub type PID = u8;

/// How often a machine is helped out of a state that takes no characters.
pub const SETTLE_ATTEMPTS: usize = 4;

/// Size of the buffer for the packets of the protocol.
pub const PACKET_BUFFER_SIZE: usize = 4096;

/// The states of the protocol machine.
#[derive(Clone, Copy, Debug, PartialEq, Eq)]
pub enum ServerState {
    /// The target is stopped, and the machine waits for input.
    Idle,
    /// The target runs.
    Running,
    /// The client has sent an interrupt.
    CtrlCInterrupt,
    /// The client has gone.
    Disconnected,
}

/// The signals that are reported to the client.
#[derive(Clone, Copy, Debug, PartialEq, Eq)]
pub enum StopSignal {
    /// Interrupt.
    Sigint,
    /// Access to memory that is not there.
    ExcBadAccess,
}

/// What is being debugged.
#[derive(Clone, Copy, Debug, PartialEq, Eq)]
pub struct XousTarget {
    pub pid: Option<PID>,
    /// While an instruction is stepped over it is patched with an illegal one;
    /// what was there before is kept here.
    pub patched_instruction: usize,
}

impl XousTarget {
    /// No process, and nothing patched.
    pub fn new() -> (target: XousTarget)
        ensures
            target == fresh_target(),
    {
        XousTarget { pid: None, patched_instruction: 0 }
    }

    /// The process that is being debugged.
    pub fn pid(&self) -> (pid: Option<PID>)
        ensures
            pid == self.pid,
    {
        self.pid
    }
}

/// A debug session: what is debugged, and the state of the protocol machine.
#[derive(Clone, Copy, Debug, PartialEq, Eq)]
pub struct XousDebugState {
    pub target: XousTarget,
    pub server: ServerState,
}

/// The call on the protocol machine whose outcome is awaited.
#[derive(Clone, Copy, Debug, PartialEq, Eq)]
pub enum Flight {
    /// None.
    Ready,
    /// A machine is being built; then it gets a character, if there is one.
    Starting { then_feed: Option<u8> },
    /// The machine is working on a character.
    Pumping,
    /// The machine is being helped out of a state that takes no characters,
    /// with so many attempts left.
    Settling { recurse_count: usize },
    /// The machine is reporting that the target has stopped.
    Stopping,
}

/// The next thing to do.
#[derive(Clone, Copy, Debug, PartialEq, Eq)]
pub enum DebugAction {
    /// Build a machine with room for packets of this size, and start it with
    /// this target.
    StartServer { target: XousTarget, packet_buffer_size: usize },
    /// Give the machine a character.
    IncomingData { byte: u8 },
    /// Pause the process, if there is one, and then tell the machine that the
    /// interrupt has been handled.
    HandleInterrupt { pause: Option<PID>, signal: StopSignal },
    /// Let the machine go back to idle.
    ReturnToIdle,
    /// Tell the machine that the target has stopped.
    ReportStop { signal: StopSignal },
    /// Done: put the machine away until the next character.
    Keep,
    /// Done: drop the machine and its target, and note why.
    Discard { note: Note },
}

/// Why there is no machine any more.
#[derive(Clone, Copy, Debug, PartialEq, Eq)]
pub enum Note {
    /// It was in a state that takes no characters.
    NotAccepting,
    /// It failed on a character.
    IncomingFailed,
    /// It could not be brought into a state that takes characters.
    Unsettled,
    /// There was none.
    NoServer,
    /// It failed to report the stop.
    StopFailed,
    /// A stop was to be reported, but it was in a state other than running.
    NotRunning { server: ServerState },
}

/// What is announced when a process has terminated.
#[derive(Clone, Copy, Debug, PartialEq, Eq)]
pub struct Termination {
    pub pid: PID,
}

/// The outcome of a call on the protocol machine.
#[derive(Clone, Copy, Debug, PartialEq, Eq)]
pub enum DebugEvent {
    /// The session that the call left.
    Moved(XousDebugState),
    /// The call failed, and the machine is gone.
    Failed,
}

/// The debug server.
#[derive(Clone, Copy, Debug, PartialEq, Eq)]
pub struct Debugger {
    /// The session that is put away between characters.
    pub state: Option<XousDebugState>,
    /// The call whose outcome is awaited.
    pub flight: Flight,
}

/// Two states take characters; the other two exist merely to be left.
pub open spec fn accepts_characters(server: ServerState) -> bool {
    server is Idle || server is Running
}

/// The session is put away.
pub open spec fn keep(session: XousDebugState) -> (Debugger, DebugAction) {
    (Debugger { state: Some(session), flight: Flight::Ready }, DebugAction::Keep)
}

/// The session is given up.
pub open spec fn discard(note: Note) -> (Debugger, DebugAction) {
    (Debugger { state: None, flight: Flight::Ready }, DebugAction::Discard { note })
}

/// A call is made on the machine of a session that is not put away.
pub open spec fn call(flight: Flight, action: DebugAction) -> (Debugger, DebugAction) {
    (Debugger { state: None, flight }, action)
}

/// The target that every session starts with: no process, and nothing patched.
pub open spec fn fresh_target() -> XousTarget {
    XousTarget { pid: None, patched_instruction: 0 }
}

/// A machine is built, and started with a fresh target.
pub open spec fn start_action() -> DebugAction {
    DebugAction::StartServer {
        target: fresh_target(),
        packet_buffer_size: PACKET_BUFFER_SIZE,
    }
}

/// A session is brought into a state that takes characters.
pub open spec fn settle(session: XousDebugState, recurse_count: nat) -> (Debugger, DebugAction) {
    if recurse_count == 0 {
        discard(Note::Unsettled)
    } else if accepts_characters(session.server) {
        keep(session)
    } else {
        call(
            Flight::Settling { recurse_count: (recurse_count - 1) as usize },
            if session.server is CtrlCInterrupt {
                DebugAction::HandleInterrupt {
                    pause: session.target.pid,
                    signal: StopSignal::Sigint,
                }
            } else {
                DebugAction::ReturnToIdle
            },
        )
    }
}

/// A session gets a character.
pub open spec fn feed(session: XousDebugState, byte: u8) -> (Debugger, DebugAction) {
    if accepts_characters(session.server) {
        call(Flight::Pumping, DebugAction::IncomingData { byte })
    } else {
        discard(Note::NotAccepting)
    }
}

/// The call in flight left `session`.
pub open spec fn moved(flight: Flight, session: XousDebugState) -> (Debugger, DebugAction) {
    match flight {
        Flight::Starting { then_feed: Some(byte) } => feed(session, byte),
        Flight::Pumping => settle(session, SETTLE_ATTEMPTS as nat),
        Flight::Settling { recurse_count } => settle(session, recurse_count as nat),
        _ => keep(session),
    }
}

/// The call in flight failed.
pub open spec fn failed(flight: Flight) -> (Debugger, DebugAction) {
    match flight {
        Flight::Pumping => discard(Note::IncomingFailed),
        Flight::Settling { .. } => discard(Note::Unsettled),
        _ => discard(Note::StopFailed),
    }
}

/// The outcome of the call in flight.
pub open spec fn after_event(flight: Flight, event: DebugEvent) -> (Debugger, DebugAction) {
    match event {
        DebugEvent::Moved(session) => moved(flight, session),
        DebugEvent::Failed => failed(flight),
    }
}

/// A start that fails cannot be recovered from.
pub open spec fn is_failed_start(flight: Flight, event: DebugEvent) -> bool {
    flight is Starting && event is Failed
}

/// A character has come.
pub open spec fn after_character(state: Option<XousDebugState>, byte: u8) -> (
    Debugger,
    DebugAction,
) {
    match state {
        Some(session) => feed(session, byte),
        None => call(Flight::Starting { then_feed: Some(byte) }, start_action()),
    }
}

/// The port holds no more characters: a session that has gone is started anew.
pub open spec fn after_port_is_empty(state: Option<XousDebugState>) -> (
    Debugger,
    Option<DebugAction>,
) {
    match state {
        Some(session) => (Debugger { state, flight: Flight::Ready }, None),
        None => {
            let (starting, start) = call(
                Flight::Starting { then_feed: None },
                start_action(),
            );
            (starting, Some(start))
        },
    }
}

/// A process has terminated.
pub open spec fn after_termination(state: Option<XousDebugState>) -> (Debugger, DebugAction) {
    match state {
        None => discard(Note::NoServer),
        Some(session) => if session.server is Running {
            call(
                Flight::Stopping,
                DebugAction::ReportStop { signal: StopSignal::ExcBadAccess },
            )
        } else {
            discard(Note::NotRunning { server: session.server })
        },
    }
}

/// Whether a machine in this state takes characters.
pub fn state_can_accept_characters(machine: ServerState) -> (accepts: bool)
    ensures
        accepts == accepts_characters(machine),
{
    match machine {
        ServerState::Idle | ServerState::Running => true,
        ServerState::CtrlCInterrupt | ServerState::Disconnected => false,
    }
}

impl Debugger {
    /// No session yet.
    pub fn new() -> (debugger: Debugger)
        ensures
            debugger == (Debugger { state: None, flight: Flight::Ready }),
    {
        Debugger { state: None, flight: Flight::Ready }
    }
}

/// Starts a session, in place of the one that may be there.
pub fn init(gdb: &mut Debugger) -> (action: DebugAction)
    requires
        old(gdb).flight is Ready,
    ensures
        action == start_action(),
        *final(gdb) == (Debugger {
            flight: Flight::Starting { then_feed: None },
            ..*old(gdb)
        }),
{
    gdb.flight = Flight::Starting { then_feed: None };
    DebugAction::StartServer {
        target: XousTarget::new(),
        packet_buffer_size: PACKET_BUFFER_SIZE,
    }
}

/// Takes what the debug port holds next. A character is processed. When
/// there is none left and the session has gone for some reason, a new one
/// is started.
pub fn receive_irq(gdb: &mut Debugger, next: Option<u8>) -> (action: Option<DebugAction>)
    requires
        old(gdb).flight is Ready,
    ensures
        match next {
            Some(byte) => {
                &&& action is Some
                &&& (*final(gdb), action->0) == after_character(old(gdb).state, byte)
            },
            None => (*final(gdb), action) == after_port_is_empty(old(gdb).state),
        },
{
    match next {
        Some(byte) => Some(process_character(gdb, byte)),
        None => {
            if gdb.state.is_none() {
                Some(init(gdb))
            } else {
                None
            }
        },
    }
}

/// Processes a character. The session is taken out for as long as it takes;
/// where there is none a new one is started.
pub fn process_character(gdb: &mut Debugger, byte: u8) -> (action: DebugAction)
    requires
        old(gdb).flight is Ready,
    ensures
        (*final(gdb), action) == after_character(old(gdb).state, byte),
{
    match gdb.state.take() {
        Some(session) => feed_character(gdb, session, byte),
        None => {
            gdb.flight = Flight::Starting { then_feed: Some(byte) };
            DebugAction::StartServer {
                target: XousTarget::new(),
                packet_buffer_size: PACKET_BUFFER_SIZE,
            }
        },
    }
}

fn feed_character(gdb: &mut Debugger, session: XousDebugState, byte: u8) -> (action: DebugAction)
    requires
        old(gdb).state is None,
    ensures
        (*final(gdb), action) == feed(session, byte),
{
    if !state_can_accept_characters(session.server) {
        gdb.flight = Flight::Ready;
        return DebugAction::Discard { note: Note::NotAccepting };
    }
    gdb.flight = Flight::Pumping;
    DebugAction::IncomingData { byte }
}

/// Puts the session away if it takes characters, and else gives the call
/// that helps it on, as long as there are attempts left.
pub fn ensure_can_accept_characters_inner(
    gdb: &mut Debugger,
    session: XousDebugState,
    recurse_count: usize,
) -> (action: DebugAction)
    ensures
        (*final(gdb), action) == settle(session, recurse_count as nat),
{
    gdb.state = None;
    if recurse_count == 0 {
        gdb.flight = Flight::Ready;
        return DebugAction::Discard { note: Note::Unsettled };
    }
    match session.server {
        ServerState::Idle | ServerState::Running => {
            gdb.state = Some(session);
            gdb.flight = Flight::Ready;
            DebugAction::Keep
        },
        ServerState::CtrlCInterrupt => {
            gdb.flight = Flight::Settling { recurse_count: recurse_count - 1 };
            DebugAction::HandleInterrupt {
                pause: session.target.pid(),
                signal: StopSignal::Sigint,
            }
        },
        ServerState::Disconnected => {
            gdb.flight = Flight::Settling { recurse_count: recurse_count - 1 };
            DebugAction::ReturnToIdle
        },
    }
}

/// Settles a session that is not put away, with all the attempts that there are.
pub fn ensure_can_accept_characters(gdb: &mut Debugger, session: XousDebugState) -> (action:
    DebugAction)
    ensures
        (*final(gdb), action) == settle(session, SETTLE_ATTEMPTS as nat),
{
    ensure_can_accept_characters_inner(gdb, session, SETTLE_ATTEMPTS)
}

/// Takes the outcome of the call in flight, and gives the next thing to do.
pub fn advance(gdb: &mut Debugger, event: DebugEvent) -> (action: DebugAction)
    requires
        !(old(gdb).flight is Ready),
        !is_failed_start(old(gdb).flight, event),
    ensures
        (*final(gdb), action) == after_event(old(gdb).flight, event),
{
    gdb.state = None;
    match event {
        DebugEvent::Moved(session) => match gdb.flight {
            Flight::Starting { then_feed: Some(byte) } => feed_character(gdb, session, byte),
            Flight::Pumping => ensure_can_accept_characters(gdb, session),
            Flight::Settling { recurse_count } => {
                ensure_can_accept_characters_inner(gdb, session, recurse_count)
            },
            _ => {
                gdb.state = Some(session);
                gdb.flight = Flight::Ready;
                DebugAction::Keep
            },
        },
        DebugEvent::Failed => {
            let note = match gdb.flight {
                Flight::Pumping => Note::IncomingFailed,
                Flight::Settling { .. } => Note::Unsettled,
                _ => Note::StopFailed,
            };
            gdb.flight = Flight::Ready;
            DebugAction::Discard { note }
        },
    }
}

/// A process has terminated, which is announced. A running session is told that its target has
/// stopped on a bad access; in any other state there is nothing to be told,
/// and the session is given up.
pub fn report_terminated(gdb: &mut Debugger, pid: PID) -> (reported: (
    Termination,
    DebugAction,
))
    requires
        old(gdb).flight is Ready,
    ensures
        reported.0 == (Termination { pid }),
        (*final(gdb), reported.1) == after_termination(old(gdb).state),
{
    let action = match gdb.state.take() {
        None => DebugAction::Discard { note: Note::NoServer },
        Some(session) => match session.server {
            ServerState::Running => {
                gdb.flight = Flight::Stopping;
                DebugAction::ReportStop { signal: StopSignal::ExcBadAccess }
            },
            server => DebugAction::Discard { note: Note::NotRunning { server } },
        },
    };
    (Termination { pid }, action)
}

/// How many more outcomes a call in flight can lead to, its own one included.
pub open spec fn outcomes_left(flight: Flight) -> nat {
    match flight {
        Flight::Ready => 0,
        Flight::Starting { then_feed: None } => 1,
        Flight::Starting { then_feed: Some(_) } => SETTLE_ATTEMPTS as nat + 2,
        Flight::Pumping => SETTLE_ATTEMPTS as nat + 1,
        Flight::Settling { recurse_count } => recurse_count as nat + 1,
        Flight::Stopping => 1,
    }
}

/// The work on a character, from its arrival to the end of the settling.
pub open spec fn is_character_work(flight: Flight) -> bool {
    match flight {
        Flight::Starting { then_feed } => then_feed is Some,
        Flight::Pumping => true,
        Flight::Settling { recurse_count } => recurse_count < SETTLE_ATTEMPTS,
        _ => false,
    }
}

/// Every outcome brings the end nearer, and the last one is the one after which
/// the session is kept or given up.
pub proof fn law_every_outcome_makes_progress(flight: Flight, event: DebugEvent)
    requires
        !(flight is Ready),
        !is_failed_start(flight, event),
    ensures
        ({
            let (after, action) = after_event(flight, event);
            &&& outcomes_left(after.flight) < outcomes_left(flight)
            &&& after.flight is Ready <==> (action is Keep || action is Discard)
            &&& after.state is Some <==> action is Keep
        }),
{
}

/// The debugger after a series of outcomes. What comes after the end of the
/// work is not looked at.
pub open spec fn after_events(debugger: Debugger, events: Seq<DebugEvent>) -> Debugger
    decreases events.len(),
{
    if events.len() == 0 || debugger.flight is Ready {
        debugger
    } else {
        after_events(after_event(debugger.flight, events[0]).0, events.skip(1))
    }
}

/// No start fails in a series of outcomes.
pub open spec fn no_start_fails(debugger: Debugger, events: Seq<DebugEvent>) -> bool
    decreases events.len(),
{
    if events.len() == 0 || debugger.flight is Ready {
        true
    } else {
        !is_failed_start(debugger.flight, events[0]) && no_start_fails(
            after_event(debugger.flight, events[0]).0,
            events.skip(1),
        )
    }
}

proof fn lemma_character_work_ends(debugger: Debugger, events: Seq<DebugEvent>)
    requires
        is_character_work(debugger.flight),
        outcomes_left(debugger.flight) <= events.len(),
        no_start_fails(debugger, events),
    ensures
        after_events(debugger, events).flight is Ready,
        after_events(debugger, events).state matches Some(session) ==> accepts_characters(
            session.server,
        ),
    decreases events.len(),
{
    let next = after_event(debugger.flight, events[0]).0;
    law_every_outcome_makes_progress(debugger.flight, events[0]);
    if next.flight is Ready {
        assert(after_events(next, events.skip(1)) == next);
    } else {
        lemma_character_work_ends(next, events.skip(1));
    }
}

/// Whatever the protocol machine does with a character, the work on it ends
/// after at most six outcomes, with the session given up or in a state that
/// takes the next character.
pub proof fn law_character_work_ends(
    state: Option<XousDebugState>,
    byte: u8,
    events: Seq<DebugEvent>,
)
    requires
        events.len() >= 6,
        no_start_fails(after_character(state, byte).0, events),
    ensures
        ({
            let end = after_events(after_character(state, byte).0, events);
            &&& end.flight is Ready
            &&& end.state matches Some(session) ==> accepts_characters(session.server)
        }),
{
    let first = after_character(state, byte).0;
    if !(first.flight is Ready) {
        lemma_character_work_ends(first, events);
    }
}

/// A session that takes characters is kept as it is, as long as there are
/// attempts left: nothing is called, no process is paused, and settling what was
/// kept leaves it once more.
pub proof fn law_accepting_session_is_kept(
    session: XousDebugState,
    recurse_count: nat,
    again: nat,
)
    requires
        recurse_count > 0,
        again > 0,
    ensures
        accepts_characters(session.server) ==> settle(session, recurse_count) == keep(session),
        settle(session, recurse_count).0.state matches Some(kept) ==> {
            &&& kept == session
            &&& accepts_characters(kept.server)
            &&& settle(kept, again) == keep(kept)
        },
{
}

/// A character that comes when there is no session is not lost: the session
/// that is started for it gets it.
pub proof fn law_character_waits_for_session(byte: u8, session: XousDebugState)
    requires
        accepts_characters(session.server),
    ensures
        ({
            let (starting, start) = after_character(None, byte);
            let (pumping, next) = after_event(starting.flight, DebugEvent::Moved(session));
            &&& start == start_action()
            &&& next == DebugAction::IncomingData { byte }
            &&& pumping.flight is Pumping
        }),
{
}

/// Once the port is empty there is a session: the one that was there, or the
/// one that was started in its place.
pub proof fn law_session_after_port_is_empty(
    state: Option<XousDebugState>,
    started: XousDebugState,
)
    ensures
        ({
            let (debugger, action) = after_port_is_empty(state);
            let end = if action is Some {
                after_event(debugger.flight, DebugEvent::Moved(started)).0
            } else {
                debugger
            };
            &&& end.flight is Ready
            &&& end.state == (if state is Some { state } else { Some(started) })
        }),
{
}

/// A machine that goes back to idle when it is let to, and from an interrupt to
/// idle or running, always settles.
pub proof fn law_well_behaved_machine_settles(
    session: XousDebugState,
    recurse_count: nat,
    next: XousDebugState,
)
    requires
        1 < recurse_count <= SETTLE_ATTEMPTS,
        accepts_characters(next.server),
    ensures
        ({
            let (settling, action) = settle(session, recurse_count);
            action is Keep || after_event(settling.flight, DebugEvent::Moved(next)) == keep(next)
        }),
{
}

/// A session that is there gets the very character that came, and is taken out
/// while it works on it, provided that its machine is idle or running. In the
/// other two states the session is given up, and the machine gets nothing.
pub proof fn law_character_reaches_the_machine(session: XousDebugState, byte: u8)
    ensures
        session.server == ServerState::Idle || session.server == ServerState::Running ==> {
            &&& after_character(Some(session), byte).1 == (DebugAction::IncomingData { byte })
            &&& after_character(Some(session), byte).0.flight == Flight::Pumping
            &&& after_character(Some(session), byte).0.state is None
        },
        session.server == ServerState::CtrlCInterrupt || session.server
            == ServerState::Disconnected ==> {
            &&& after_character(Some(session), byte).1 == (DebugAction::Discard {
                note: Note::NotAccepting,
            })
            &&& after_character(Some(session), byte).0.flight == Flight::Ready
            &&& after_character(Some(session), byte).0.state is None
        },
{
}

/// Without a session a machine is started with no process, nothing patched and
/// room for packets of 4096 bytes. The character that came waits, unchanged, for
/// the session, which then gets it as one that had been there would.
pub proof fn law_start_for_a_character(session: XousDebugState, byte: u8)
    ensures
        after_character(None, byte).1 == (DebugAction::StartServer {
            target: XousTarget { pid: None, patched_instruction: 0 },
            packet_buffer_size: 4096,
        }),
        after_character(None, byte).0.flight == (Flight::Starting { then_feed: Some(byte) }),
        after_character(None, byte).0.state is None,
        after_event(Flight::Starting { then_feed: Some(byte) }, DebugEvent::Moved(session))
            == after_character(Some(session), byte),
{
}

/// When the port is empty a session that is there stays, and nothing is done;
/// without one a machine is started, with nothing to be fed to it.
pub proof fn law_port_is_empty(session: XousDebugState)
    ensures
        after_port_is_empty(Some(session)).0.state == Some(session),
        after_port_is_empty(Some(session)).0.flight == Flight::Ready,
        after_port_is_empty(Some(session)).1 is None,
        after_port_is_empty(None).0.state is None,
        after_port_is_empty(None).0.flight == (Flight::Starting { then_feed: None }),
        after_port_is_empty(None).1 == Some(
            DebugAction::StartServer {
                target: XousTarget { pid: None, patched_instruction: 0 },
                packet_buffer_size: 4096,
            },
        ),
{
}

/// What follows when the machine has moved, after a character with four attempts
/// and while settling with those that are left. An idle or running session is
/// kept. An interrupt is handled: the process that is being debugged is paused,
/// if there is one, and an interrupt signal is reported. A machine whose client
/// has gone is sent back to idle. Each of these two takes one attempt, and
/// without any left the session is given up.
pub proof fn law_settling(session: XousDebugState, recurse_count: usize)
    ensures
        after_event(Flight::Pumping, DebugEvent::Moved(session)) == after_event(
            Flight::Settling { recurse_count: 4 },
            DebugEvent::Moved(session),
        ),
        ({
            let (after, action) = after_event(
                Flight::Settling { recurse_count },
                DebugEvent::Moved(session),
            );
            let left = Flight::Settling { recurse_count: (recurse_count - 1) as usize };
            if recurse_count == 0 {
                &&& after == (Debugger { state: None, flight: Flight::Ready })
                &&& action == (DebugAction::Discard { note: Note::Unsettled })
            } else {
                match session.server {
                    ServerState::Idle | ServerState::Running => {
                        &&& after == (Debugger { state: Some(session), flight: Flight::Ready })
                        &&& action == DebugAction::Keep
                    },
                    ServerState::CtrlCInterrupt => {
                        &&& after == (Debugger { state: None, flight: left })
                        &&& action == (DebugAction::HandleInterrupt {
                            pause: session.target.pid,
                            signal: StopSignal::Sigint,
                        })
                    },
                    ServerState::Disconnected => {
                        &&& after == (Debugger { state: None, flight: left })
                        &&& action == DebugAction::ReturnToIdle
                    },
                }
            }
        }),
        settle(session, recurse_count as nat) == after_event(
            Flight::Settling { recurse_count },
            DebugEvent::Moved(session),
        ),
{
}

/// What a start without a character and a reported stop leave is kept, whatever
/// state it is in. A failed call leaves nothing, and is noted for what it was.
pub proof fn law_other_outcomes(session: XousDebugState, recurse_count: usize)
    ensures
        after_event(Flight::Starting { then_feed: None }, DebugEvent::Moved(session)) == (
            Debugger { state: Some(session), flight: Flight::Ready },
            DebugAction::Keep,
        ),
        after_event(Flight::Stopping, DebugEvent::Moved(session)) == (
            Debugger { state: Some(session), flight: Flight::Ready },
            DebugAction::Keep,
        ),
        after_event(Flight::Pumping, DebugEvent::Failed) == (
            Debugger { state: None, flight: Flight::Ready },
            DebugAction::Discard { note: Note::IncomingFailed },
        ),
        after_event(Flight::Settling { recurse_count }, DebugEvent::Failed) == (
            Debugger { state: None, flight: Flight::Ready },
            DebugAction::Discard { note: Note::Unsettled },
        ),
        after_event(Flight::Stopping, DebugEvent::Failed) == (
            Debugger { state: None, flight: Flight::Ready },
            DebugAction::Discard { note: Note::StopFailed },
        ),
{
}

/// A termination is reported to a running session, as a bad access; a session in
/// any other state is given up, with a note of that state.
pub proof fn law_termination(session: XousDebugState)
    ensures
        after_termination(None) == (
            Debugger { state: None, flight: Flight::Ready },
            DebugAction::Discard { note: Note::NoServer },
        ),
        session.server == ServerState::Running ==> after_termination(Some(session)) == (
            Debugger { state: None, flight: Flight::Stopping },
            DebugAction::ReportStop { signal: StopSignal::ExcBadAccess },
        ),
        session.server != ServerState::Running ==> after_termination(Some(session)) == (
            Debugger { state: None, flight: Flight::Ready },
            DebugAction::Discard { note: Note::NotRunning { server: session.server } },
        ),
{
}

/// The states that take characters are the idle and the running one, and every
/// session starts with no process and nothing patched.
pub proof fn law_accepting_states_and_fresh_target()
    ensures
        accepts_characters(ServerState::Idle),
        accepts_characters(ServerState::Running),
        !accepts_characters(ServerState::CtrlCInterrupt),
        !accepts_characters(ServerState::Disconnected),
        fresh_target().pid is None,
        fresh_target().patched_instruction == 0,
        start_action() == (DebugAction::StartServer {
            target: XousTarget { pid: None, patched_instruction: 0 },
            packet_buffer_size: 4096,
        }),
        forall|flight: Flight, event: DebugEvent|
            #[trigger] is_failed_start(flight, event) <==> (exists|then_feed: Option<u8>|
                flight == Flight::Starting { then_feed }) && event == DebugEvent::Failed,
{
    assert forall|flight: Flight, event: DebugEvent| #[trigger] is_failed_start(flight, event) <==> (
    exists|then_feed: Option<u8>| flight == Flight::Starting { then_feed }) && event
        == DebugEvent::Failed by {
        if let Flight::Starting { then_feed } = flight {
            assert(flight == Flight::Starting { then_feed });
        }
    }
}

} // verus!
