//! The I2C server: hands transactions to the bus, and delays a suspend of the
//! system until the transaction at hand is done.
use vstd::prelude::*;
use vstd::multiset::Multiset;
use crate::message::{Args, Body};

verus! {

/// What the I2C server is asked to do.
#[derive(Clone, Copy, Debug, PartialEq, Eq)]
pub enum I2cOpcode {
    /// Start a transaction.
    I2cTxRx,
    /// Ask whether a transaction is at hand.
    I2cIsBusy,
    /// The bus has written all of a transaction.
    IrqI2cTxrxWriteDone,
    /// The bus has read all of a transaction.
    IrqI2cTxrxReadDone,
    /// The system is about to be suspended.
    SuspendResume,
    /// Stop the server.
    Quit,
}

/// The number that stands for an opcode in a message: its place in the list of
/// the opcodes.
pub open spec fn i2c_opcode_number(opcode: I2cOpcode) -> usize {
    match opcode {
        I2cOpcode::I2cTxRx => 0,
        I2cOpcode::I2cIsBusy => 1,
        I2cOpcode::IrqI2cTxrxWriteDone => 2,
        I2cOpcode::IrqI2cTxrxReadDone => 3,
        I2cOpcode::SuspendResume => 4,
        I2cOpcode::Quit => 5,
    }
}

/// The opcode that a number stands for, if there is one.
pub open spec fn i2c_opcode_of(id: usize) -> Option<I2cOpcode> {
    match id {
        0 => Some(I2cOpcode::I2cTxRx),
        1 => Some(I2cOpcode::I2cIsBusy),
        2 => Some(I2cOpcode::IrqI2cTxrxWriteDone),
        3 => Some(I2cOpcode::IrqI2cTxrxReadDone),
        4 => Some(I2cOpcode::SuspendResume),
        5 => Some(I2cOpcode::Quit),
        _ => None,
    }
}

impl I2cOpcode {
    /// The number that stands for the opcode in a message.
    pub fn to_usize(&self) -> (id: usize)
        ensures
            id == i2c_opcode_number(*self),
    {
        match self {
            I2cOpcode::I2cTxRx => 0,
            I2cOpcode::I2cIsBusy => 1,
            I2cOpcode::IrqI2cTxrxWriteDone => 2,
            I2cOpcode::IrqI2cTxrxReadDone => 3,
            I2cOpcode::SuspendResume => 4,
            I2cOpcode::Quit => 5,
        }
    }

    /// The opcode that a number stands for, if there is one.
    pub fn from_usize(id: usize) -> (opcode: Option<I2cOpcode>)
        ensures
            opcode == i2c_opcode_of(id),
    {
        match id {
            0 => Some(I2cOpcode::I2cTxRx),
            1 => Some(I2cOpcode::I2cIsBusy),
            2 => Some(I2cOpcode::IrqI2cTxrxWriteDone),
            3 => Some(I2cOpcode::IrqI2cTxrxReadDone),
            4 => Some(I2cOpcode::SuspendResume),
            5 => Some(I2cOpcode::Quit),
            _ => None,
        }
    }
}

/// A number stands for an opcode if and only if it is the number of that opcode.
pub proof fn law_i2c_opcode_numbers(opcode: I2cOpcode, id: usize)
    ensures
        i2c_opcode_of(id) == Some(opcode) <==> i2c_opcode_number(opcode) == id,
        i2c_opcode_of(id) is Some <==> id < 6,
{
}

/// The numbers run from zero up, in this order, without a gap.
pub proof fn law_i2c_opcode_order(id: usize)
    requires
        id < 6,
    ensures
        ({
            let order = seq![
                I2cOpcode::I2cTxRx,
                I2cOpcode::I2cIsBusy,
                I2cOpcode::IrqI2cTxrxWriteDone,
                I2cOpcode::IrqI2cTxrxReadDone,
                I2cOpcode::SuspendResume,
                I2cOpcode::Quit,
            ];
            &&& order.len() == 6
            &&& i2c_opcode_of(id) == Some(order[id as int])
            &&& i2c_opcode_number(order[id as int]) == id
        }),
{
}

/// What the I2C server does, one step after the other.
#[derive(Clone, Copy, Debug, PartialEq, Eq)]
pub enum I2cAction {
    /// Connect to the server itself, and set the bus up to report to it.
    OpenBus,
    /// Ask for a message with this opcode before every suspend, among the last
    /// or in no special order.
    HookSuspend { id: usize, late: bool },
    /// Save the state of the bus.
    Suspend,
    /// Tell the system that it may be suspended, and wait until it has resumed.
    SuspendUntilResume { token: usize },
    /// Restore the state of the bus.
    Resume,
    /// Let the bus go on after a write.
    ReportWriteDone,
    /// Let the bus go on after a read.
    ReportReadDone,
    /// Start the transaction in the message, and put its status in place of it.
    Initiate,
    /// Answer the sender.
    Reply { value: usize },
    /// Note that the message was not of the kind that its opcode asks for.
    NoteWrongKind,
    /// Note that the opcode is not known.
    NoteUnknownOpcode,
    /// Give up the name of the server.
    UnregisterServer,
    /// Give up the server.
    DestroyServer,
}

/// State of the I2C server.
pub struct I2cServer {
    /// The suspend that waits for the end of the transaction.
    pub suspend_pending_token: Option<usize>,
    /// Whether the server still takes messages.
    pub running: bool,
}

/// A suspend, from saving the state of the bus to restoring it.
pub open spec fn suspend_steps(token: usize) -> Seq<I2cAction> {
    seq![I2cAction::Suspend, I2cAction::SuspendUntilResume { token }, I2cAction::Resume]
}

/// The suspend that was waiting, if one was.
pub open spec fn pending_steps(pending: Option<usize>) -> Seq<I2cAction> {
    match pending {
        Some(token) => suspend_steps(token),
        None => Seq::empty(),
    }
}

/// What is done about a message, where `busy` says whether a transaction is at hand.
pub open spec fn i2c_actions(
    pending: Option<usize>,
    opcode: Option<I2cOpcode>,
    body: Body,
    busy: bool,
) -> Seq<I2cAction> {
    match (opcode, body) {
        (None, _) => seq![I2cAction::NoteUnknownOpcode],
        (Some(I2cOpcode::Quit), _) => seq![I2cAction::UnregisterServer, I2cAction::DestroyServer],
        (Some(I2cOpcode::I2cTxRx), _) => seq![I2cAction::Initiate],
        (Some(I2cOpcode::SuspendResume), Body::Scalar(args)) => if busy {
            Seq::empty()
        } else {
            suspend_steps(args.arg1)
        },
        (Some(I2cOpcode::IrqI2cTxrxWriteDone), Body::Scalar(_)) => pending_steps(pending).push(
            I2cAction::ReportWriteDone,
        ),
        (Some(I2cOpcode::IrqI2cTxrxReadDone), Body::Scalar(_)) => pending_steps(pending).push(
            I2cAction::ReportReadDone,
        ),
        (Some(I2cOpcode::I2cIsBusy), Body::BlockingScalar(_)) => seq![
            I2cAction::Reply {
                value: if busy {
                    1
                } else {
                    0
                },
            },
        ],
        _ => seq![I2cAction::NoteWrongKind],
    }
}

/// The suspend that waits after a message.
pub open spec fn pending_after(
    pending: Option<usize>,
    opcode: Option<I2cOpcode>,
    body: Body,
    busy: bool,
) -> Option<usize> {
    match (opcode, body) {
        (Some(I2cOpcode::SuspendResume), Body::Scalar(args)) if busy => Some(args.arg1),
        (Some(I2cOpcode::IrqI2cTxrxWriteDone), Body::Scalar(_)) => None,
        (Some(I2cOpcode::IrqI2cTxrxReadDone), Body::Scalar(_)) => None,
        _ => pending,
    }
}

/// What the server does before it takes its first message.
pub fn startup() -> (actions: Vec<I2cAction>)
    ensures
        actions@ == seq![
            I2cAction::OpenBus,
            I2cAction::HookSuspend {
                id: i2c_opcode_number(I2cOpcode::SuspendResume),
                late: false,
            },
        ],
        actions@ == seq![I2cAction::OpenBus, I2cAction::HookSuspend { id: 4, late: false }],
{
    let mut actions: Vec<I2cAction> = Vec::new();
    actions.push(I2cAction::OpenBus);
    actions.push(
        I2cAction::HookSuspend { id: I2cOpcode::SuspendResume.to_usize(), late: false },
    );
    actions
}

impl I2cServer {
    /// A server with no suspend waiting.
    pub fn new() -> (server: I2cServer)
        ensures
            server.suspend_pending_token is None,
            server.running,
    {
        I2cServer { suspend_pending_token: None, running: true }
    }

    /// Whether a message, whose opcode has the number `id`, can be handled: a
    /// transaction has to be in memory.
    pub fn accepts(id: usize, body: Body) -> (accepted: bool)
        ensures
            accepted == (i2c_opcode_of(id) == Some(I2cOpcode::I2cTxRx) ==> body is Memory),
    {
        match (I2cOpcode::from_usize(id), body) {
            (Some(I2cOpcode::I2cTxRx), Body::Memory) => true,
            (Some(I2cOpcode::I2cTxRx), _) => false,
            _ => true,
        }
    }

    /// Handles a message, whose opcode has the number `id`. `busy` says whether
    /// the bus has a transaction at hand.
    pub fn handle(&mut self, id: usize, body: Body, busy: bool) -> (actions: Vec<I2cAction>)
        requires
            old(self).running,
            i2c_opcode_of(id) == Some(I2cOpcode::I2cTxRx) ==> body is Memory,
        ensures
            actions@ == i2c_actions(
                old(self).suspend_pending_token,
                i2c_opcode_of(id),
                body,
                busy,
            ),
            final(self).suspend_pending_token == pending_after(
                old(self).suspend_pending_token,
                i2c_opcode_of(id),
                body,
                busy,
            ),
            final(self).running == (i2c_opcode_of(id) != Some(I2cOpcode::Quit)),
    {
        let opcode = I2cOpcode::from_usize(id);
        let mut actions: Vec<I2cAction> = Vec::new();
        match opcode {
            Some(I2cOpcode::SuspendResume) => match body {
                Body::Scalar(args) => {
                    if !busy {
                        push_suspend(&mut actions, args.arg1);
                    } else {
                        // stash the token, the suspend is done once the transaction is
                        self.suspend_pending_token = Some(args.arg1);
                    }
                },
                _ => actions.push(I2cAction::NoteWrongKind),
            },
            Some(I2cOpcode::IrqI2cTxrxWriteDone) => match body {
                Body::Scalar(_) => {
                    if let Some(token) = self.suspend_pending_token.take() {
                        push_suspend(&mut actions, token);
                    }
                    actions.push(I2cAction::ReportWriteDone);
                },
                _ => actions.push(I2cAction::NoteWrongKind),
            },
            Some(I2cOpcode::IrqI2cTxrxReadDone) => match body {
                Body::Scalar(_) => {
                    if let Some(token) = self.suspend_pending_token.take() {
                        push_suspend(&mut actions, token);
                    }
                    actions.push(I2cAction::ReportReadDone);
                },
                _ => actions.push(I2cAction::NoteWrongKind),
            },
            Some(I2cOpcode::I2cTxRx) => actions.push(I2cAction::Initiate),
            Some(I2cOpcode::I2cIsBusy) => match body {
                Body::BlockingScalar(_) => {
                    actions.push(I2cAction::Reply { value: if busy { 1 } else { 0 } });
                },
                _ => actions.push(I2cAction::NoteWrongKind),
            },
            Some(I2cOpcode::Quit) => {
                self.running = false;
                actions.push(I2cAction::UnregisterServer);
                actions.push(I2cAction::DestroyServer);
            },
            None => actions.push(I2cAction::NoteUnknownOpcode),
        }
        assert(actions@ =~= i2c_actions(old(self).suspend_pending_token, opcode, body, busy));
        actions
    }
}

fn push_suspend(actions: &mut Vec<I2cAction>, token: usize)
    ensures
        final(actions)@ == old(actions)@ + suspend_steps(token),
{
    actions.push(I2cAction::Suspend);
    actions.push(I2cAction::SuspendUntilResume { token });
    actions.push(I2cAction::Resume);
    assert(actions@ =~= old(actions)@ + suspend_steps(token));
}

/// The suspends that a series of steps carries out.
pub open spec fn suspends_in(actions: Seq<I2cAction>) -> Multiset<usize>
    decreases actions.len(),
{
    if actions.len() == 0 {
        Multiset::empty()
    } else {
        match actions.last() {
            I2cAction::SuspendUntilResume { token } => suspends_in(actions.drop_last()).insert(
                token,
            ),
            _ => suspends_in(actions.drop_last()),
        }
    }
}

/// The suspend that is waiting, as a collection.
pub open spec fn waiting(pending: Option<usize>) -> Multiset<usize> {
    match pending {
        Some(token) => Multiset::singleton(token),
        None => Multiset::empty(),
    }
}

/// The suspend that a message asks for, as a collection.
pub open spec fn requested(opcode: Option<I2cOpcode>, body: Body) -> Multiset<usize> {
    match (opcode, body) {
        (Some(I2cOpcode::SuspendResume), Body::Scalar(args)) => Multiset::singleton(args.arg1),
        _ => Multiset::empty(),
    }
}

/// Suspends are neither lost nor repeated: what was waiting and what is asked
/// for is what is carried out and what waits afterwards. This leaves out a
/// second suspend that comes while the bus is busy and one is waiting already,
/// for it takes the place of the first.
pub proof fn law_suspends_are_conserved(
    pending: Option<usize>,
    opcode: Option<I2cOpcode>,
    body: Body,
    busy: bool,
)
    requires
        !(busy && pending is Some && opcode == Some(I2cOpcode::SuspendResume) && body is Scalar),
    ensures
        waiting(pending).add(requested(opcode, body)) == suspends_in(
            i2c_actions(pending, opcode, body, busy),
        ).add(waiting(pending_after(pending, opcode, body, busy))),
{
    reveal_with_fuel(suspends_in, 5);
    let actions = i2c_actions(pending, opcode, body, busy);
    assert forall|token: usize| #![auto] suspends_in(suspend_steps(token)) == Multiset::singleton(
        token,
    ) by {
        assert(suspend_steps(token).drop_last() =~= seq![
            I2cAction::Suspend,
            I2cAction::SuspendUntilResume { token },
        ]);
        assert(suspend_steps(token).drop_last().drop_last() =~= seq![I2cAction::Suspend]);
        assert(Multiset::<usize>::empty().insert(token) =~= Multiset::singleton(token));
    }
    match (opcode, body) {
        (Some(I2cOpcode::IrqI2cTxrxWriteDone), Body::Scalar(_)) => {
            assert(actions.drop_last() =~= pending_steps(pending));
        },
        (Some(I2cOpcode::IrqI2cTxrxReadDone), Body::Scalar(_)) => {
            assert(actions.drop_last() =~= pending_steps(pending));
        },
        _ => {},
    }
    assert(waiting(pending).add(requested(opcode, body)) =~= suspends_in(actions).add(
        waiting(pending_after(pending, opcode, body, busy)),
    ));
}

/// A suspend that was put off is carried out, before anything else, when the
/// bus says that it is done with the transaction.
pub proof fn law_pending_suspend_comes_first(token: usize, opcode: I2cOpcode, body: Body, busy: bool)
    requires
        opcode == I2cOpcode::IrqI2cTxrxWriteDone || opcode == I2cOpcode::IrqI2cTxrxReadDone,
        body is Scalar,
    ensures
        suspend_steps(token).is_prefix_of(i2c_actions(Some(token), Some(opcode), body, busy)),
        pending_after(Some(token), Some(opcode), body, busy) is None,
{
    assert(suspend_steps(token) =~= i2c_actions(Some(token), Some(opcode), body, busy).take(3));
}

/// A suspend request never interrupts a transaction.
pub proof fn law_no_suspend_while_busy(pending: Option<usize>, body: Body)
    ensures
        !i2c_actions(pending, Some(I2cOpcode::SuspendResume), body, true).contains(
            I2cAction::Suspend,
        ),
{
}

/// A message to the server, with what the bus was at when it came.
pub struct I2cEvent {
    pub opcode: Option<I2cOpcode>,
    pub body: Body,
    pub busy: bool,
}

/// The suspend that waits after a series of messages.
pub open spec fn pending_after_all(pending: Option<usize>, events: Seq<I2cEvent>) -> Option<usize>
    decreases events.len(),
{
    if events.len() == 0 {
        pending
    } else {
        let e = events.last();
        pending_after(pending_after_all(pending, events.drop_last()), e.opcode, e.body, e.busy)
    }
}

/// All that is done about a series of messages, in order.
pub open spec fn actions_of_all(pending: Option<usize>, events: Seq<I2cEvent>) -> Seq<I2cAction>
    decreases events.len(),
{
    if events.len() == 0 {
        Seq::empty()
    } else {
        let e = events.last();
        let before = events.drop_last();
        actions_of_all(pending, before) + i2c_actions(
            pending_after_all(pending, before),
            e.opcode,
            e.body,
            e.busy,
        )
    }
}

/// The suspends that a series of messages asks for.
pub open spec fn requested_by_all(events: Seq<I2cEvent>) -> Multiset<usize>
    decreases events.len(),
{
    if events.len() == 0 {
        Multiset::empty()
    } else {
        requested_by_all(events.drop_last()).add(
            requested(events.last().opcode, events.last().body),
        )
    }
}

/// No suspend comes while the bus is busy and another one is waiting.
pub open spec fn suspends_do_not_collide(pending: Option<usize>, events: Seq<I2cEvent>) -> bool {
    forall|i: int|
        0 <= i < events.len() ==> !(#[trigger] events[i].busy && pending_after_all(
            pending,
            events.take(i),
        ) is Some && events[i].opcode == Some(I2cOpcode::SuspendResume) && events[i].body is Scalar)
}

proof fn lemma_suspends_in_concat(a: Seq<I2cAction>, b: Seq<I2cAction>)
    ensures
        suspends_in(a + b) == suspends_in(a).add(suspends_in(b)),
    decreases b.len(),
{
    if b.len() == 0 {
        assert(a + b =~= a);
        assert(suspends_in(a) =~= suspends_in(a).add(suspends_in(b)));
    } else {
        lemma_suspends_in_concat(a, b.drop_last());
        assert((a + b).drop_last() =~= a + b.drop_last());
        assert(suspends_in(a + b) =~= suspends_in(a).add(suspends_in(b)));
    }
}

/// Over any series of messages in which suspends do not collide, every suspend
/// that was asked for has been carried out once, but for the one that still waits.
pub proof fn law_suspends_are_conserved_over_run(pending: Option<usize>, events: Seq<I2cEvent>)
    requires
        suspends_do_not_collide(pending, events),
    ensures
        waiting(pending).add(requested_by_all(events)) == suspends_in(
            actions_of_all(pending, events),
        ).add(waiting(pending_after_all(pending, events))),
    decreases events.len(),
{
    if events.len() == 0 {
        assert(waiting(pending).add(requested_by_all(events)) =~= suspends_in(
            actions_of_all(pending, events),
        ).add(waiting(pending_after_all(pending, events))));
    } else {
        let before = events.drop_last();
        let e = events.last();
        let mid = pending_after_all(pending, before);
        assert forall|i: int| 0 <= i < before.len() implies !(#[trigger] before[i].busy
            && pending_after_all(pending, before.take(i)) is Some && before[i].opcode == Some(
            I2cOpcode::SuspendResume,
        ) && before[i].body is Scalar) by {
            assert(before[i] == events[i]);
            assert(before.take(i) =~= events.take(i));
            assert(!(events[i].busy && pending_after_all(pending, events.take(i)) is Some
                && events[i].opcode == Some(I2cOpcode::SuspendResume) && events[i].body is Scalar));
        }
        law_suspends_are_conserved_over_run(pending, before);
        assert(events.take(events.len() - 1) =~= before);
        assert(events[events.len() - 1] == e);
        law_suspends_are_conserved(mid, e.opcode, e.body, e.busy);
        lemma_suspends_in_concat(
            actions_of_all(pending, before),
            i2c_actions(mid, e.opcode, e.body, e.busy),
        );
        let served = suspends_in(actions_of_all(pending, before));
        let now = suspends_in(i2c_actions(mid, e.opcode, e.body, e.busy));
        let left = waiting(pending_after_all(pending, events));
        let asked = requested(e.opcode, e.body);
        assert(waiting(pending).add(requested_by_all(before).add(asked)) =~= waiting(pending).add(
            requested_by_all(before),
        ).add(asked));
        assert(served.add(waiting(mid)).add(asked) =~= served.add(waiting(mid).add(asked)));
        assert(served.add(now.add(left)) =~= served.add(now).add(left));
    }
}

/// A question whether the bus is busy gets one answer, which depends on the bus
/// alone: one if it is, and zero if not. It changes nothing.
pub proof fn law_busy_answer_is_the_bus(pending: Option<usize>, body: Body, busy: bool)
    requires
        body is BlockingScalar,
    ensures
        i2c_actions(pending, Some(I2cOpcode::I2cIsBusy), body, busy).len() == 1,
        busy ==> i2c_actions(pending, Some(I2cOpcode::I2cIsBusy), body, busy)[0]
            == (I2cAction::Reply { value: 1 }),
        !busy ==> i2c_actions(pending, Some(I2cOpcode::I2cIsBusy), body, busy)[0]
            == (I2cAction::Reply { value: 0 }),
        pending_after(pending, Some(I2cOpcode::I2cIsBusy), body, busy) == pending,
{
}

/// A suspend request on an idle bus is carried out with the token of the
/// message, between saving and restoring the bus. On a busy bus nothing is done,
/// and the token of the message waits.
pub proof fn law_suspend_request(pending: Option<usize>, args: Args)
    ensures
        i2c_actions(pending, Some(I2cOpcode::SuspendResume), Body::Scalar(args), false) == seq![
            I2cAction::Suspend,
            I2cAction::SuspendUntilResume { token: args.arg1 },
            I2cAction::Resume,
        ],
        pending_after(pending, Some(I2cOpcode::SuspendResume), Body::Scalar(args), false)
            == pending,
        i2c_actions(pending, Some(I2cOpcode::SuspendResume), Body::Scalar(args), true).len() == 0,
        pending_after(pending, Some(I2cOpcode::SuspendResume), Body::Scalar(args), true) == Some(
            args.arg1,
        ),
{
}

/// When the bus is done, it is told so as the last thing, according to what it
/// was done with. Before that the waiting suspend is carried out, if there is
/// one, and after that none waits.
pub proof fn law_end_of_a_transaction(pending: Option<usize>, args: Args, busy: bool)
    ensures
        i2c_actions(None, Some(I2cOpcode::IrqI2cTxrxWriteDone), Body::Scalar(args), busy) == seq![
            I2cAction::ReportWriteDone,
        ],
        i2c_actions(None, Some(I2cOpcode::IrqI2cTxrxReadDone), Body::Scalar(args), busy) == seq![
            I2cAction::ReportReadDone,
        ],
        pending matches Some(token) ==> {
            &&& i2c_actions(
                pending,
                Some(I2cOpcode::IrqI2cTxrxWriteDone),
                Body::Scalar(args),
                busy,
            ) == seq![
                I2cAction::Suspend,
                I2cAction::SuspendUntilResume { token },
                I2cAction::Resume,
                I2cAction::ReportWriteDone,
            ]
            &&& i2c_actions(
                pending,
                Some(I2cOpcode::IrqI2cTxrxReadDone),
                Body::Scalar(args),
                busy,
            ) == seq![
                I2cAction::Suspend,
                I2cAction::SuspendUntilResume { token },
                I2cAction::Resume,
                I2cAction::ReportReadDone,
            ]
        },
        pending_after(pending, Some(I2cOpcode::IrqI2cTxrxWriteDone), Body::Scalar(args), busy)
            is None,
        pending_after(pending, Some(I2cOpcode::IrqI2cTxrxReadDone), Body::Scalar(args), busy)
            is None,
{
    assert(i2c_actions(None, Some(I2cOpcode::IrqI2cTxrxWriteDone), Body::Scalar(args), busy)
        =~= seq![I2cAction::ReportWriteDone]);
    assert(i2c_actions(None, Some(I2cOpcode::IrqI2cTxrxReadDone), Body::Scalar(args), busy)
        =~= seq![I2cAction::ReportReadDone]);
    if let Some(token) = pending {
        assert(i2c_actions(
            pending,
            Some(I2cOpcode::IrqI2cTxrxWriteDone),
            Body::Scalar(args),
            busy,
        ) =~= seq![
            I2cAction::Suspend,
            I2cAction::SuspendUntilResume { token },
            I2cAction::Resume,
            I2cAction::ReportWriteDone,
        ]);
        assert(i2c_actions(
            pending,
            Some(I2cOpcode::IrqI2cTxrxReadDone),
            Body::Scalar(args),
            busy,
        ) =~= seq![
            I2cAction::Suspend,
            I2cAction::SuspendUntilResume { token },
            I2cAction::Resume,
            I2cAction::ReportReadDone,
        ]);
    }
}

/// A transaction in memory is started, and a request to quit gives up the name
/// and then the server, whatever the bus does; neither touches a waiting suspend.
pub proof fn law_transaction_and_quit(pending: Option<usize>, body: Body, busy: bool)
    ensures
        i2c_actions(pending, Some(I2cOpcode::I2cTxRx), Body::Memory, busy) == seq![
            I2cAction::Initiate,
        ],
        pending_after(pending, Some(I2cOpcode::I2cTxRx), Body::Memory, busy) == pending,
        i2c_actions(pending, Some(I2cOpcode::Quit), body, busy) == seq![
            I2cAction::UnregisterServer,
            I2cAction::DestroyServer,
        ],
        pending_after(pending, Some(I2cOpcode::Quit), body, busy) == pending,
{
}

/// A message that does not have the form that its opcode asks for, or that has
/// no opcode, is noted and has no effect.
pub proof fn law_odd_message_has_no_effect(
    pending: Option<usize>,
    opcode: I2cOpcode,
    body: Body,
    busy: bool,
)
    ensures
        i2c_actions(pending, None, body, busy) == seq![I2cAction::NoteUnknownOpcode],
        pending_after(pending, None, body, busy) == pending,
        !(body is Scalar) && (opcode == I2cOpcode::SuspendResume || opcode
            == I2cOpcode::IrqI2cTxrxWriteDone || opcode == I2cOpcode::IrqI2cTxrxReadDone) ==> {
            &&& i2c_actions(pending, Some(opcode), body, busy) == seq![I2cAction::NoteWrongKind]
            &&& pending_after(pending, Some(opcode), body, busy) == pending
        },
        !(body is BlockingScalar) && opcode == I2cOpcode::I2cIsBusy ==> {
            &&& i2c_actions(pending, Some(opcode), body, busy) == seq![I2cAction::NoteWrongKind]
            &&& pending_after(pending, Some(opcode), body, busy) == pending
        },
{
}

} // verus!
