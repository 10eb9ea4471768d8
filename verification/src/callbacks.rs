//! Tables of event subscribers: a bounded number of connections that are told
//! when something happened.
use vstd::prelude::*;

verus! {

/// Number of subscribers that a table has room for.
pub const MAX_CALLBACKS: usize = 32;

/// A connection to another server.
pub type CID = u32;

/// A subscription request, as a client sends it: the server to connect back
/// to, and what to quote to it with every event.
#[derive(Clone, Copy, Debug, PartialEq, Eq)]
pub struct ScalarHook {
    pub sid: (u32, u32, u32, u32),
    pub id: u32,
    pub cid: CID,
}

/// A subscriber: the connection that events go out on, and what to quote.
#[derive(Clone, Copy, Debug, PartialEq, Eq)]
pub struct ScalarCallback {
    pub server_to_cb_cid: CID,
    pub cb_to_client_cid: CID,
    pub cb_to_client_id: u32,
}

/// What a subscriber is told.
#[derive(Clone, Copy, Debug, PartialEq, Eq)]
pub enum EventCallback {
    Event,
    Drop,
}

/// The number that stands for the opcode in a message.
pub open spec fn event_callback_number(opcode: EventCallback) -> usize {
    match opcode {
        EventCallback::Event => 0,
        EventCallback::Drop => 1,
    }
}

impl EventCallback {
    /// The number that stands for the opcode in a message.
    pub fn to_usize(&self) -> (id: usize)
        ensures
            id == event_callback_number(*self),
    {
        match self {
            EventCallback::Event => 0,
            EventCallback::Drop => 1,
        }
    }
}

/// A message of an opcode and four numbers on a connection.
#[derive(Clone, Copy, Debug, PartialEq, Eq)]
pub struct ScalarMessage {
    pub connection: CID,
    pub opcode: EventCallback,
    pub args: (usize, usize, usize, usize),
}

/// Why a message was not taken.
#[derive(Clone, Copy, Debug, PartialEq, Eq)]
pub enum SendError {
    ServerQueueFull,
    ServerNotFound,
    Other,
}

/// How to comment on an event that did not reach its subscriber.
#[derive(Clone, Copy, Debug, PartialEq, Eq)]
pub enum Undelivered {
    /// A warning: the subscriber does not keep up, and the event is dropped.
    QueueFull,
    /// A warning: the subscriber has died, and the event is dropped.
    SubscriberDied,
    /// An error.
    Failed,
}

/// The subscribers in a table, in slot order.
pub open spec fn subscribers(slots: Seq<Option<ScalarCallback>>) -> Seq<ScalarCallback>
    decreases slots.len(),
{
    if slots.len() == 0 {
        Seq::empty()
    } else {
        match slots.last() {
            Some(callback) => subscribers(slots.drop_last()).push(callback),
            None => subscribers(slots.drop_last()),
        }
    }
}

/// No free slot comes before a taken one.
pub open spec fn packed(slots: Seq<Option<ScalarCallback>>) -> bool {
    forall|i: int, j: int|
        0 <= i < j < slots.len() && #[trigger] slots[i] is None ==> #[trigger] slots[j] is None
}

/// Slot `i` is free and every slot before it is taken.
pub open spec fn is_first_free(slots: Seq<Option<ScalarCallback>>, i: int) -> bool {
    &&& 0 <= i < slots.len()
    &&& slots[i] is None
    &&& forall|j: int| 0 <= j < i ==> #[trigger] slots[j] is Some
}

/// Every slot is taken.
pub open spec fn is_full(slots: Seq<Option<ScalarCallback>>) -> bool {
    forall|i: int| 0 <= i < slots.len() ==> #[trigger] slots[i] is Some
}

/// A table after `callback` has asked for a slot: it has the first free one,
/// and where there is none nothing has changed.
pub open spec fn hooked(slots: Seq<Option<ScalarCallback>>, callback: ScalarCallback) -> Seq<
    Option<ScalarCallback>,
> {
    if is_full(slots) {
        slots
    } else {
        slots.update(choose|i: int| is_first_free(slots, i), Some(callback))
    }
}

/// The subscriber that a request stands for, once it is connected.
pub open spec fn callback_for(hook: ScalarHook, server_to_cb_cid: CID) -> ScalarCallback {
    ScalarCallback {
        server_to_cb_cid,
        cb_to_client_cid: hook.cid,
        cb_to_client_id: hook.id,
    }
}

/// The message that tells a subscriber of an event.
pub open spec fn event_message(callback: ScalarCallback, which: usize) -> ScalarMessage {
    ScalarMessage {
        connection: callback.server_to_cb_cid,
        opcode: EventCallback::Event,
        args: (callback.cb_to_client_cid as usize, callback.cb_to_client_id as usize, which, 0),
    }
}

/// The message that tells a subscriber that its subscription is over.
pub open spec fn drop_message(callback: ScalarCallback) -> ScalarMessage {
    ScalarMessage {
        connection: callback.server_to_cb_cid,
        opcode: EventCallback::Drop,
        args: (0, 0, 0, 0),
    }
}

/// One event message to each of the subscribers.
pub open spec fn event_messages(callbacks: Seq<ScalarCallback>, which: usize) -> Seq<ScalarMessage> {
    callbacks.map_values(|callback: ScalarCallback| event_message(callback, which))
}

/// One farewell message to each of the subscribers.
pub open spec fn drop_messages(callbacks: Seq<ScalarCallback>) -> Seq<ScalarMessage> {
    callbacks.map_values(|callback: ScalarCallback| drop_message(callback))
}

/// A table without subscribers.
pub fn no_callbacks() -> (cb_conns: [Option<ScalarCallback>; 32])
    ensures
        forall|i: int| 0 <= i < MAX_CALLBACKS ==> #[trigger] cb_conns@[i] is None,
        subscribers(cb_conns@) == Seq::<ScalarCallback>::empty(),
        packed(cb_conns@),
{
    let cb_conns: [Option<ScalarCallback>; 32] = [None; 32];
    proof {
        lemma_no_subscribers(cb_conns@);
    }
    cb_conns
}

/// Registers a subscriber, connected to on `server_to_cb_cid`, in the first
/// free slot. Returns whether there was one; a full table is left as it is.
pub fn do_hook(
    hookdata: ScalarHook,
    server_to_cb_cid: CID,
    cb_conns: &mut [Option<ScalarCallback>; 32],
) -> (found: bool)
    ensures
        found <==> !is_full(old(cb_conns)@),
        final(cb_conns)@ == hooked(old(cb_conns)@, callback_for(hookdata, server_to_cb_cid)),
{
    let mut i: usize = 0;
    while i < MAX_CALLBACKS
        invariant
            i <= MAX_CALLBACKS,
            cb_conns@ == old(cb_conns)@,
            forall|j: int| 0 <= j < i ==> #[trigger] cb_conns@[j] is Some,
        decreases MAX_CALLBACKS - i,
    {
        if cb_conns[i].is_none() {
            cb_conns[i] = Some(
                ScalarCallback {
                    server_to_cb_cid,
                    cb_to_client_cid: hookdata.cid,
                    cb_to_client_id: hookdata.id,
                },
            );
            proof {
                let slots = old(cb_conns)@;
                assert(is_first_free(slots, i as int));
                assert(slots[i as int] is None);
            }
            return true;
        }
        i = i + 1;
    }
    false
}

/// Empties the table. Returns the farewell messages to send, one to each
/// subscriber in slot order; after each of them its connection is closed.
pub fn unhook(cb_conns: &mut [Option<ScalarCallback>; 32]) -> (farewells: Vec<ScalarMessage>)
    ensures
        forall|i: int| 0 <= i < MAX_CALLBACKS ==> #[trigger] final(cb_conns)@[i] is None,
        subscribers(final(cb_conns)@) == Seq::<ScalarCallback>::empty(),
        packed(final(cb_conns)@),
        farewells@ == drop_messages(subscribers(old(cb_conns)@)),
{
    let mut farewells: Vec<ScalarMessage> = Vec::new();
    let mut i: usize = 0;
    assert(old(cb_conns)@.take(0).len() == 0);
    while i < MAX_CALLBACKS
        invariant
            i <= MAX_CALLBACKS,
            forall|j: int| 0 <= j < i ==> #[trigger] cb_conns@[j] is None,
            forall|j: int| i <= j < MAX_CALLBACKS ==> #[trigger] cb_conns@[j] == old(cb_conns)@[j],
            farewells@ == drop_messages(subscribers(old(cb_conns)@.take(i as int))),
        decreases MAX_CALLBACKS - i,
    {
        assert(old(cb_conns)@.take(i + 1).drop_last() =~= old(cb_conns)@.take(i as int));
        if let Some(scb) = cb_conns[i] {
            farewells.push(
                ScalarMessage {
                    connection: scb.server_to_cb_cid,
                    opcode: EventCallback::Drop,
                    args: (0, 0, 0, 0),
                },
            );
        }
        cb_conns[i] = None;
        i = i + 1;
        assert(farewells@ =~= drop_messages(subscribers(old(cb_conns)@.take(i as int))));
    }
    assert(old(cb_conns)@.take(i as int) =~= old(cb_conns)@);
    proof {
        lemma_no_subscribers(cb_conns@);
    }
    farewells
}

/// The messages that tell every subscriber of an event, in slot order. The
/// number `which` says what part of the source had the event.
pub fn send_event(cb_conns: &[Option<ScalarCallback>; 32], which: usize) -> (messages: Vec<
    ScalarMessage,
>)
    ensures
        messages@ == event_messages(subscribers(cb_conns@), which),
{
    let mut messages: Vec<ScalarMessage> = Vec::new();
    let mut i: usize = 0;
    while i < MAX_CALLBACKS
        invariant
            i <= MAX_CALLBACKS,
            messages@ == event_messages(subscribers(cb_conns@.take(i as int)), which),
        decreases MAX_CALLBACKS - i,
    {
        assert(cb_conns@.take(i + 1).drop_last() =~= cb_conns@.take(i as int));
        if let Some(scb) = cb_conns[i] {
            messages.push(
                ScalarMessage {
                    connection: scb.server_to_cb_cid,
                    opcode: EventCallback::Event,
                    args: (scb.cb_to_client_cid as usize, scb.cb_to_client_id as usize, which, 0),
                },
            );
        }
        i = i + 1;
        assert(messages@ =~= event_messages(subscribers(cb_conns@.take(i as int)), which));
    }
    assert(cb_conns@.take(i as int) =~= cb_conns@);
    messages
}

/// How to comment on the outcome of sending an event. The subscription stays in
/// any case.
pub fn after_send(sent: Result<(), SendError>) -> (comment: Option<Undelivered>)
    ensures
        comment is None <==> sent is Ok,
        comment == Some(Undelivered::QueueFull) <==> sent == Err::<(), SendError>(
            SendError::ServerQueueFull,
        ),
        comment == Some(Undelivered::SubscriberDied) <==> sent == Err::<(), SendError>(
            SendError::ServerNotFound,
        ),
        comment == Some(Undelivered::Failed) <==> sent == Err::<(), SendError>(SendError::Other),
{
    match sent {
        Ok(_) => None,
        Err(SendError::ServerQueueFull) => Some(Undelivered::QueueFull),
        Err(SendError::ServerNotFound) => Some(Undelivered::SubscriberDied),
        Err(SendError::Other) => Some(Undelivered::Failed),
    }
}

proof fn lemma_no_subscribers(slots: Seq<Option<ScalarCallback>>)
    requires
        forall|i: int| 0 <= i < slots.len() ==> #[trigger] slots[i] is None,
    ensures
        subscribers(slots) == Seq::<ScalarCallback>::empty(),
    decreases slots.len(),
{
    if slots.len() > 0 {
        let front = slots.drop_last();
        assert forall|i: int| 0 <= i < front.len() implies #[trigger] front[i] is None by {
            assert(front[i] == slots[i]);
        }
        lemma_no_subscribers(front);
    }
}

/// Once a table has been emptied nobody hears of any event.
pub proof fn law_nobody_hears_after_unhook(slots: Seq<Option<ScalarCallback>>, which: usize)
    requires
        forall|i: int| 0 <= i < slots.len() ==> #[trigger] slots[i] is None,
    ensures
        event_messages(subscribers(slots), which) == Seq::<ScalarMessage>::empty(),
        packed(slots),
{
    lemma_no_subscribers(slots);
    assert(event_messages(subscribers(slots), which) =~= Seq::<ScalarMessage>::empty());
}

/// A table that is not full has exactly one first free slot.
pub proof fn law_first_free_slot(slots: Seq<Option<ScalarCallback>>) -> (first: int)
    requires
        !is_full(slots),
    ensures
        is_first_free(slots, first),
        forall|i: int| is_first_free(slots, i) ==> i == first,
{
    let free = choose|i: int| 0 <= i < slots.len() && !(#[trigger] slots[i] is Some);
    let first = lemma_first_free_from(slots, 0, free);
    assert forall|i: int| is_first_free(slots, i) implies i == first by {
        if i < first {
            assert(slots[i] is Some);
        }
        if first < i {
            assert(slots[first] is Some);
        }
    }
    first
}

proof fn lemma_first_free_from(slots: Seq<Option<ScalarCallback>>, from: int, free: int) -> (first:
    int)
    requires
        0 <= from <= free < slots.len(),
        slots[free] is None,
        forall|j: int| 0 <= j < from ==> #[trigger] slots[j] is Some,
    ensures
        is_first_free(slots, first),
    decreases free - from,
{
    if slots[from] is None {
        from
    } else {
        lemma_first_free_from(slots, from + 1, free)
    }
}

/// Registration keeps a table packed. Where there is room it adds the
/// subscriber behind those that were there, and where there is none it changes
/// nothing.
pub proof fn law_hook_appends(slots: Seq<Option<ScalarCallback>>, callback: ScalarCallback)
    requires
        packed(slots),
    ensures
        hooked(slots, callback).len() == slots.len(),
        packed(hooked(slots, callback)),
        subscribers(slots).len() < slots.len() ==> subscribers(hooked(slots, callback))
            == subscribers(slots).push(callback),
        subscribers(slots).len() == slots.len() ==> hooked(slots, callback) == slots,
{
    law_capacity(slots);
    if !is_full(slots) {
        let i = law_first_free_slot(slots);
        lemma_hook_at(slots, i, callback);
    }
}

proof fn lemma_hook_at(slots: Seq<Option<ScalarCallback>>, i: int, callback: ScalarCallback)
    requires
        packed(slots),
        is_first_free(slots, i),
    ensures
        packed(slots.update(i, Some(callback))),
        subscribers(slots.update(i, Some(callback))) == subscribers(slots).push(callback),
{
    lemma_subscribers_of_packed(slots, i);
    let after = slots.update(i, Some(callback));
    assert forall|a: int, b: int|
        0 <= a < b < after.len() && #[trigger] after[a] is None implies #[trigger] after[b] is None by {
        assert(slots[a] is None);
        assert(slots[b] is None);
        if b == i {
            assert(slots[a] is Some);
        }
    }
    assert forall|j: int| i + 1 <= j < after.len() implies #[trigger] after[j] is None by {
        assert(slots[i] is None && slots[j] is None);
    }
    lemma_subscribers_of_packed(after, i + 1);
    assert(subscribers(after) =~= subscribers(slots).push(callback));
}

/// Where the first `n` slots are taken and the others are free, the
/// subscribers are what those slots hold.
proof fn lemma_subscribers_of_packed(slots: Seq<Option<ScalarCallback>>, n: int)
    requires
        0 <= n <= slots.len(),
        forall|j: int| 0 <= j < n ==> #[trigger] slots[j] is Some,
        n < slots.len() ==> slots[n] is None,
        packed(slots),
    ensures
        subscribers(slots) == Seq::new(n as nat, |j: int| slots[j]->0),
    decreases slots.len(),
{
    let expected = Seq::new(n as nat, |j: int| slots[j]->0);
    if slots.len() == 0 {
        assert(subscribers(slots) =~= expected);
    } else {
        let front = slots.drop_last();
        assert(packed(front)) by {
            assert forall|a: int, b: int|
                0 <= a < b < front.len()
                    && #[trigger] front[a] is None implies #[trigger] front[b] is None by {
                assert(slots[a] is None && slots[b] is None);
            }
        }
        assert forall|j: int| 0 <= j < n && j < front.len() implies #[trigger] front[j] is Some by {
            assert(slots[j] is Some);
        }
        if n == slots.len() {
            lemma_subscribers_of_packed(front, n - 1);
            assert(slots[n - 1] is Some);
            assert(subscribers(slots) =~= expected);
        } else {
            if n < front.len() {
                assert(slots[n] is None && slots[slots.len() - 1] is None);
            }
            lemma_subscribers_of_packed(front, n);
            assert(subscribers(slots) =~= expected);
        }
    }
}

/// A subscriber that was registered in a packed table with room hears of every
/// event, after those that were there before, with the numbers it asked for.
pub proof fn law_hooked_subscriber_hears(
    slots: Seq<Option<ScalarCallback>>,
    hook: ScalarHook,
    connection: CID,
    which: usize,
)
    requires
        packed(slots),
        subscribers(slots).len() < slots.len(),
    ensures
        event_messages(subscribers(hooked(slots, callback_for(hook, connection))), which)
            == event_messages(subscribers(slots), which).push(
            ScalarMessage {
                connection,
                opcode: EventCallback::Event,
                args: (hook.cid as usize, hook.id as usize, which, 0),
            },
        ),
{
    let callback = callback_for(hook, connection);
    law_hook_appends(slots, callback);
    assert(event_messages(subscribers(slots).push(callback), which) =~= event_messages(
        subscribers(slots),
        which,
    ).push(event_message(callback, which)));
}

/// The number of subscribers never exceeds the number of slots, and a table is
/// full exactly when the two are equal.
pub proof fn law_capacity(slots: Seq<Option<ScalarCallback>>)
    ensures
        subscribers(slots).len() <= slots.len(),
        is_full(slots) <==> subscribers(slots).len() == slots.len(),
    decreases slots.len(),
{
    if slots.len() > 0 {
        let front = slots.drop_last();
        law_capacity(front);
        if is_full(slots) {
            assert forall|j: int| 0 <= j < front.len() implies #[trigger] front[j] is Some by {
                assert(slots[j] is Some);
            }
            assert(slots[slots.len() - 1] is Some);
        }
        if subscribers(slots).len() == slots.len() {
            assert forall|j: int| 0 <= j < slots.len() implies #[trigger] slots[j] is Some by {
                if j < front.len() {
                    assert(front[j] is Some);
                }
            }
        }
    }
}

/// A table after each of `callbacks` has asked for a slot, one after the other.
pub open spec fn hooked_all(
    slots: Seq<Option<ScalarCallback>>,
    callbacks: Seq<ScalarCallback>,
) -> Seq<Option<ScalarCallback>>
    decreases callbacks.len(),
{
    if callbacks.len() == 0 {
        slots
    } else {
        hooked(hooked_all(slots, callbacks.drop_last()), callbacks.last())
    }
}

/// The subscribers of a packed table are those that were there and those that
/// asked for a slot since, in the order in which they asked, as many as there
/// is room for. Whoever comes too late never takes the place of another.
pub proof fn law_first_come_first_served(
    slots: Seq<Option<ScalarCallback>>,
    callbacks: Seq<ScalarCallback>,
)
    requires
        packed(slots),
    ensures
        packed(hooked_all(slots, callbacks)),
        hooked_all(slots, callbacks).len() == slots.len(),
        subscribers(hooked_all(slots, callbacks)) == {
            let all = subscribers(slots) + callbacks;
            if all.len() <= slots.len() {
                all
            } else {
                all.take(slots.len() as int)
            }
        },
    decreases callbacks.len(),
{
    law_capacity(slots);
    let all = subscribers(slots) + callbacks;
    if callbacks.len() == 0 {
        assert(all =~= subscribers(slots));
    } else {
        let front = callbacks.drop_last();
        law_first_come_first_served(slots, front);
        let before = hooked_all(slots, front);
        law_hook_appends(before, callbacks.last());
        law_capacity(before);
        let all_before = subscribers(slots) + front;
        assert(all_before.push(callbacks.last()) =~= all);
        if all_before.len() >= slots.len() {
            assert(all.take(slots.len() as int) =~= all_before.take(slots.len() as int));
            assert(all_before.len() == slots.len() ==> all_before.take(slots.len() as int)
                =~= all_before);
        }
    }
}

/// A table where every slot is taken stays as it is. In any other one exactly
/// one slot changes, from free to the new subscriber, and none before it was
/// free.
pub proof fn law_hook_changes_one_free_slot(
    slots: Seq<Option<ScalarCallback>>,
    callback: ScalarCallback,
)
    ensures
        hooked(slots, callback).len() == slots.len(),
        is_full(slots) <==> (forall|i: int| 0 <= i < slots.len() ==> #[trigger] slots[i] != None::<
            ScalarCallback,
        >),
        (forall|i: int| 0 <= i < slots.len() ==> #[trigger] slots[i] != None::<ScalarCallback>)
            ==> hooked(slots, callback) == slots,
        forall|k: int|
            #![trigger slots[k]]
            0 <= k < slots.len() && slots[k] == None::<ScalarCallback> && (forall|j: int|
                0 <= j < k ==> #[trigger] slots[j] != None::<ScalarCallback>) ==> {
                &&& hooked(slots, callback)[k] == Some(callback)
                &&& forall|j: int|
                    0 <= j < slots.len() && j != k ==> #[trigger] hooked(slots, callback)[j]
                        == slots[j]
            },
        forall|k: int|
            0 <= k < slots.len() && #[trigger] slots[k] == None::<ScalarCallback> ==> exists|i: int|
                0 <= i <= k && #[trigger] hooked(slots, callback)[i] == Some(callback) && slots[i]
                    == None::<ScalarCallback>,
{
    if is_full(slots) {
        assert forall|i: int| 0 <= i < slots.len() implies #[trigger] slots[i] != None::<
            ScalarCallback,
        > by {
            assert(slots[i] is Some);
        }
    } else {
        let first = law_first_free_slot(slots);
        assert(slots[first] == None::<ScalarCallback>);
        assert forall|k: int|
            #![trigger slots[k]]
            0 <= k < slots.len() && slots[k] == None::<ScalarCallback> && (forall|j: int|
                0 <= j < k ==> #[trigger] slots[j] != None::<ScalarCallback>) implies {
            &&& hooked(slots, callback)[k] == Some(callback)
            &&& forall|j: int|
                0 <= j < slots.len() && j != k ==> #[trigger] hooked(slots, callback)[j] == slots[j]
        } by {
            assert(is_first_free(slots, k));
        }
        assert forall|k: int|
            0 <= k < slots.len() && #[trigger] slots[k] == None::<
                ScalarCallback,
            > implies exists|i: int|
            0 <= i <= k && #[trigger] hooked(slots, callback)[i] == Some(callback) && slots[i]
                == None::<ScalarCallback> by {
            if k < first {
                assert(slots[k] is Some);
            }
            assert(hooked(slots, callback)[first] == Some(callback));
        }
    }
}

/// A subscriber is told on the connection that was made to it, and is quoted
/// what its request asked for.
pub proof fn law_subscriber_of_a_request(hook: ScalarHook, connection: CID)
    ensures
        callback_for(hook, connection).server_to_cb_cid == connection,
        callback_for(hook, connection).cb_to_client_cid == hook.cid,
        callback_for(hook, connection).cb_to_client_id == hook.id,
{
}

/// An event leads to one message for each taken slot, in slot order, on the
/// connection of the subscriber, with its two numbers and the number of the
/// part that had the event.
pub proof fn law_event_reaches_every_taken_slot(slots: Seq<Option<ScalarCallback>>, which: usize)
    ensures
        event_messages(subscribers(slots), which) == slots.filter_map(
            |slot: Option<ScalarCallback>|
                match slot {
                    Some(c) => Some(
                        ScalarMessage {
                            connection: c.server_to_cb_cid,
                            opcode: EventCallback::Event,
                            args: (c.cb_to_client_cid as usize, c.cb_to_client_id as usize, which, 0),
                        },
                    ),
                    None => None,
                },
        ),
    decreases slots.len(),
{
    if slots.len() > 0 {
        law_event_reaches_every_taken_slot(slots.drop_last(), which);
    }
    assert(event_messages(subscribers(slots), which) =~= slots.filter_map(
        |slot: Option<ScalarCallback>|
            match slot {
                Some(c) => Some(
                    ScalarMessage {
                        connection: c.server_to_cb_cid,
                        opcode: EventCallback::Event,
                        args: (c.cb_to_client_cid as usize, c.cb_to_client_id as usize, which, 0),
                    },
                ),
                None => None,
            },
    ));
}

/// Emptying a table leads to one farewell for each taken slot, in slot order, on
/// the connection of the subscriber.
pub proof fn law_farewell_reaches_every_taken_slot(slots: Seq<Option<ScalarCallback>>)
    ensures
        drop_messages(subscribers(slots)) == slots.filter_map(
            |slot: Option<ScalarCallback>|
                match slot {
                    Some(c) => Some(
                        ScalarMessage {
                            connection: c.server_to_cb_cid,
                            opcode: EventCallback::Drop,
                            args: (0, 0, 0, 0),
                        },
                    ),
                    None => None,
                },
        ),
    decreases slots.len(),
{
    if slots.len() > 0 {
        law_farewell_reaches_every_taken_slot(slots.drop_last());
    }
    assert(drop_messages(subscribers(slots)) =~= slots.filter_map(
        |slot: Option<ScalarCallback>|
            match slot {
                Some(c) => Some(
                    ScalarMessage {
                        connection: c.server_to_cb_cid,
                        opcode: EventCallback::Drop,
                        args: (0, 0, 0, 0),
                    },
                ),
                None => None,
            },
    ));
}

/// An event and a farewell can be told apart.
pub proof fn law_event_callback_numbers(a: EventCallback, b: EventCallback)
    ensures
        event_callback_number(a) == event_callback_number(b) <==> a == b,
        event_callback_number(a) < 2,
        event_callback_number(EventCallback::Event) < event_callback_number(EventCallback::Drop),
        event_callback_number(EventCallback::Event) == 0,
{
}

} // verus!
