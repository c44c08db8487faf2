use futures::channel::mpsc::unbounded;
use game_gateway::command_worker::{CmdWorkerMsg, Command, CommandWorker, Delivery, WorkerAction};
use game_gateway::event::ClientEvent;
use game_gateway::server::GameServer;
use game_gateway::stream::EventType;
use std::collections::HashMap;

fn raw(ev: Option<ClientEvent>) -> Option<String> {
    match ev {
        Some(ClientEvent::RawMessage(s)) => Some(s),
        _ => None,
    }
}

#[test]
fn registered_client_receives_send() {
    let mut w = CommandWorker::with_instance_id("node-a".to_string());
    let (tx, mut rx) = unbounded();
    w.register_client(3, tx);
    assert_eq!(w.process(Command::Send(3, "hello".to_string())), Delivery::Delivered);
    assert_eq!(raw(rx.try_next().unwrap()), Some("hello".to_string()));
}

#[test]
fn delivery_target_is_the_current_channel() {
    let mut w = CommandWorker::with_instance_id("node-a".to_string());
    assert!(w.delivery_target(&Command::Send(2, "p".to_string())).is_none());
    let (tx, mut rx) = unbounded();
    w.register_client(2, tx);
    let (ch, ev) = w.delivery_target(&Command::Send(2, "p".to_string())).unwrap();
    assert!(matches!(&ev, ClientEvent::RawMessage(s) if s == "p"));
    ch.unbounded_send(ev).unwrap();
    assert_eq!(raw(rx.try_next().unwrap()), Some("p".to_string()));
}

#[test]
fn after_send_keeps_or_drops_the_entry() {
    let mut w = CommandWorker::with_instance_id("node-a".to_string());
    let (tx, _rx) = unbounded();
    w.register_client(4, tx);
    assert_eq!(w.after_send(4, true), Delivery::Delivered);
    assert!(w.has_client(4));
    assert_eq!(w.after_send(4, false), Delivery::ReceiverGone);
    assert!(!w.has_client(4));
}

#[test]
fn register_claims_directory_entry() {
    let mut w = CommandWorker::with_instance_id("node-a".to_string());
    let (tx, _rx) = unbounded();
    match w.register_client(42, tx) {
        WorkerAction::PutOwner { key, owner } => {
            assert_eq!(key, "clients:42");
            assert_eq!(owner, "node-a");
        }
        _ => panic!("expected a directory write"),
    }
    match w.remove_client(42) {
        WorkerAction::DeleteOwner { key } => assert_eq!(key, "clients:42"),
        _ => panic!("expected a directory deletion"),
    }
    assert!(!w.has_client(42));
}

#[test]
fn reregister_replaces_delivery_target() {
    let mut w = CommandWorker::with_instance_id("node-a".to_string());
    let (tx1, mut rx1) = unbounded();
    let (tx2, mut rx2) = unbounded();
    w.register_client(5, tx1);
    w.register_client(5, tx2);
    assert_eq!(w.client_count(), 1);
    assert_eq!(w.process(Command::Send(5, "x".to_string())), Delivery::Delivered);
    assert_eq!(raw(rx2.try_next().unwrap()), Some("x".to_string()));
    // the first channel was dropped by the worker and got nothing
    assert!(matches!(rx1.try_next(), Ok(None)));
}

#[test]
fn removed_client_receives_nothing() {
    let mut w = CommandWorker::with_instance_id("node-a".to_string());
    let (tx, mut rx) = unbounded();
    w.register_client(8, tx);
    w.remove_client(8);
    assert_eq!(w.process(Command::Send(8, "late".to_string())), Delivery::NotLocal);
    assert!(matches!(rx.try_next(), Ok(None)));
    assert_eq!(w.client_count(), 0);
}

#[test]
fn gone_receiver_is_dropped_on_send() {
    let mut w = CommandWorker::with_instance_id("node-a".to_string());
    let (tx, rx) = unbounded();
    w.register_client(7, tx);
    drop(rx);
    assert_eq!(w.process(Command::Send(7, "x".to_string())), Delivery::ReceiverGone);
    assert!(!w.has_client(7));
}

#[test]
fn local_send_for_unknown_target_is_forwarded() {
    let mut w = CommandWorker::with_instance_id("node-a".to_string());
    match w.handle(EventType::A(CmdWorkerMsg::Dispatch(Command::Send(9, "p".to_string())))) {
        WorkerAction::Forward { key, command: Command::Send(target, payload) } => {
            assert_eq!(key, "clients:9");
            assert_eq!(target, 9);
            assert_eq!(payload, "p");
        }
        _ => panic!("expected a forward"),
    }
}

#[test]
fn broker_send_for_unknown_target_is_dropped() {
    let mut w = CommandWorker::with_instance_id("node-a".to_string());
    assert!(matches!(
        w.handle(EventType::B(Command::Send(9, "p".to_string()))),
        WorkerAction::Dropped
    ));
}

#[test]
fn handle_applies_register_remove_and_send() {
    let mut w = CommandWorker::with_instance_id("node-a".to_string());
    let (tx, mut rx) = unbounded();
    assert!(matches!(w.handle(EventType::A(CmdWorkerMsg::Register(1, tx))), WorkerAction::PutOwner { .. }));
    assert!(matches!(
        w.handle(EventType::B(Command::Send(1, "b".to_string()))),
        WorkerAction::Handled(Delivery::Delivered)
    ));
    assert!(matches!(
        w.handle(EventType::A(CmdWorkerMsg::Dispatch(Command::Send(1, "a".to_string())))),
        WorkerAction::Handled(Delivery::Delivered)
    ));
    assert_eq!(raw(rx.try_next().unwrap()), Some("b".to_string()));
    assert_eq!(raw(rx.try_next().unwrap()), Some("a".to_string()));
    assert!(matches!(w.handle(EventType::A(CmdWorkerMsg::Remove(1))), WorkerAction::DeleteOwner { .. }));
    assert!(!w.has_client(1));
}

#[test]
fn forward_channel_names_the_owner() {
    let w = CommandWorker::with_instance_id("node-a".to_string());
    assert_eq!(w.channel_id(), "workers:node-a");
    assert_eq!(w.instance_id(), "node-a");
    assert_eq!(w.forward_channel(Some("node-b".to_string())), Some("workers:node-b".to_string()));
    assert_eq!(w.forward_channel(Some("node-a".to_string())), None);
    assert_eq!(w.forward_channel(None), None);
}

#[test]
fn new_workers_get_distinct_instance_ids() {
    let a = CommandWorker::new();
    let b = CommandWorker::new();
    assert_eq!(a.instance_id().len(), 36);
    assert_ne!(a.instance_id(), b.instance_id());
}

#[test]
fn ten_thousand_register_remove_pairs() {
    let mut w = CommandWorker::with_instance_id("node-a".to_string());
    let mut receivers = Vec::new();
    for id in 0..10_000usize {
        let (tx, rx) = unbounded();
        receivers.push(rx);
        w.handle(EventType::A(CmdWorkerMsg::Register(id, tx)));
    }
    for id in 0..10_000usize {
        if id % 3 != 0 {
            w.handle(EventType::A(CmdWorkerMsg::Remove(id)));
        }
    }
    for id in 0..10_000usize {
        assert_eq!(w.has_client(id), id % 3 == 0);
    }
    assert_eq!(w.client_count(), 3334);
}

#[test]
fn cross_instance_send_reaches_owner() {
    // identities, as the registry hands them out
    let mut registry = GameServer::new();
    assert_eq!(registry.connect_with(None, "tok-0".to_string()).unwrap(), (0, "tok-0".to_string()));
    assert_eq!(
        registry.connect_with(Some("tok-0".to_string()), "tok-9".to_string()).unwrap(),
        (0, "tok-0".to_string())
    );
    assert_eq!(registry.connect_with(None, "tok-1".to_string()).unwrap(), (1, "tok-1".to_string()));

    // A lives on node-a, B on node-b; the directory records the owners
    let mut directory: HashMap<String, String> = HashMap::new();
    let mut node_a = CommandWorker::with_instance_id("node-a".to_string());
    let mut node_b = CommandWorker::with_instance_id("node-b".to_string());
    let (tx_a, _rx_a) = unbounded();
    let (tx_b, mut rx_b) = unbounded();
    for (worker, id, tx) in [(&mut node_a, 0usize, tx_a), (&mut node_b, 1usize, tx_b)] {
        match worker.handle(EventType::A(CmdWorkerMsg::Register(id, tx))) {
            WorkerAction::PutOwner { key, owner } => {
                directory.insert(key, owner);
            }
            _ => panic!("expected a directory write"),
        }
    }

    // node-a is asked to send to 1, which it does not hold
    let (key, command) = match node_a.handle(EventType::A(CmdWorkerMsg::Dispatch(Command::Send(1, "hi".to_string())))) {
        WorkerAction::Forward { key, command } => (key, command),
        _ => panic!("expected a forward"),
    };
    let channel = node_a.forward_channel(directory.get(&key).cloned()).unwrap();
    assert_eq!(channel, node_b.channel_id());

    // the broker brings it to node-b, which delivers it
    assert!(matches!(node_b.handle(EventType::B(command)), WorkerAction::Handled(Delivery::Delivered)));
    assert_eq!(raw(rx_b.try_next().unwrap()), Some("hi".to_string()));
}
