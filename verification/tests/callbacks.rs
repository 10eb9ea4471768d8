use xous_core::callbacks::{
    after_send, do_hook, no_callbacks, send_event, unhook, EventCallback, ScalarCallback,
    ScalarHook, ScalarMessage, SendError, Undelivered,
};

fn hook(n: u32) -> ScalarHook {
    ScalarHook { sid: (n, 0, 0, 0), id: 100 + n, cid: 200 + n }
}

fn event(n: u32, which: usize) -> ScalarMessage {
    ScalarMessage {
        connection: n,
        opcode: EventCallback::Event,
        args: (200 + n as usize, 100 + n as usize, which, 0),
    }
}

fn farewell(n: u32) -> ScalarMessage {
    ScalarMessage { connection: n, opcode: EventCallback::Drop, args: (0, 0, 0, 0) }
}

#[test]
fn a_hook_takes_the_first_free_slot() {
    let mut table = no_callbacks();
    assert!(do_hook(hook(1), 1, &mut table));
    assert!(do_hook(hook(2), 2, &mut table));
    let expected = ScalarCallback { server_to_cb_cid: 2, cb_to_client_cid: 202, cb_to_client_id: 102 };
    assert_eq!(table[1], Some(expected));
    assert_eq!(table[2], None);
    table[0] = None;
    assert!(do_hook(hook(3), 3, &mut table));
    assert_eq!(table[0].map(|c| c.server_to_cb_cid), Some(3));
    assert_eq!(table[1], Some(expected));
}

#[test]
fn a_full_table_stays_as_it_is() {
    let mut table = no_callbacks();
    for n in 0..32 {
        assert!(do_hook(hook(n), n, &mut table));
    }
    let before = table;
    assert!(!do_hook(hook(99), 99, &mut table));
    assert_eq!(table, before);
    let connections: Vec<u32> = send_event(&table, 0).iter().map(|m| m.connection).collect();
    assert_eq!(connections, (0..32).collect::<Vec<u32>>());
}

#[test]
fn every_subscriber_is_told() {
    let mut table = no_callbacks();
    assert_eq!(send_event(&table, 5), vec![]);
    do_hook(hook(1), 1, &mut table);
    do_hook(hook(2), 2, &mut table);
    assert_eq!(send_event(&table, 5), vec![event(1, 5), event(2, 5)]);
}

#[test]
fn farewells_empty_the_table() {
    let mut table = no_callbacks();
    do_hook(hook(1), 1, &mut table);
    do_hook(hook(2), 2, &mut table);
    assert_eq!(unhook(&mut table), vec![farewell(1), farewell(2)]);
    assert_eq!(table, no_callbacks());
    assert_eq!(send_event(&table, 0), vec![]);
    assert_eq!(unhook(&mut table), vec![]);
}

#[test]
fn comments_on_delivery() {
    assert_eq!(after_send(Ok(())), None);
    assert_eq!(after_send(Err(SendError::ServerQueueFull)), Some(Undelivered::QueueFull));
    assert_eq!(after_send(Err(SendError::ServerNotFound)), Some(Undelivered::SubscriberDied));
    assert_eq!(after_send(Err(SendError::Other)), Some(Undelivered::Failed));
}

#[test]
fn numbers_of_the_callback_opcodes() {
    assert_eq!(EventCallback::Event.to_usize(), 0);
    assert_eq!(EventCallback::Drop.to_usize(), 1);
}
