use supervisor::channel::{Channel, Side};
use supervisor::context::{Context, ContextTable};
use supervisor::error::Error;
use supervisor::packet::PACKET_SIZE;
use supervisor::supervisor::SupervisorResource;

fn table_with_child(ppid: usize, supervised: bool) -> ContextTable {
    ContextTable {
        contexts: vec![
            Context { pid: 1, ppid: 0, supervised: false, supervised_resource: None },
            Context { pid: 2, ppid, supervised, supervised_resource: None },
        ],
        current_pid: Some(1),
    }
}

fn filled(value: u8) -> Vec<u8> {
    vec![value; PACKET_SIZE]
}

#[test]
fn attach_returns_supervisor_endpoint() {
    let mut table = table_with_child(1, true);
    let (resource, _channel) = SupervisorResource::new(&mut table, 2).unwrap();
    assert_eq!(resource.side(), Side::Supervisor);
    let installed = table.contexts[1].supervised_resource.as_ref().unwrap();
    assert_eq!(installed.side(), Side::Supervised);
}

#[test]
fn attach_unsupervised_returns_operation_not_permitted() {
    // The target has not opted in: refused no matter who asks.
    for caller in [1usize, 2, 99] {
        let mut table = table_with_child(1, false);
        table.current_pid = Some(caller);
        match SupervisorResource::new(&mut table, 2) {
            Err(e) => assert_eq!(e, Error::OperationNotPermitted),
            Ok(_) => panic!("attach must be refused"),
        }
        assert!(table.contexts[1].supervised_resource.is_none());
    }
}

#[test]
fn attach_not_parent_returns_access_denied() {
    // Opted in, but the caller is not the direct parent.
    let mut table = table_with_child(7, true);
    match SupervisorResource::new(&mut table, 2) {
        Err(e) => assert_eq!(e, Error::AccessDenied),
        Ok(_) => panic!("attach must be refused"),
    }
    assert!(table.contexts[1].supervised_resource.is_none());
}

#[test]
fn attach_unknown_pid_returns_no_such_process() {
    let mut table = table_with_child(1, true);
    match SupervisorResource::new(&mut table, 5) {
        Err(e) => assert_eq!(e, Error::NoSuchProcess),
        Ok(_) => panic!("attach must be refused"),
    }
}

#[test]
fn attach_unresolved_caller_returns_no_such_process() {
    let mut table = table_with_child(1, true);
    table.current_pid = None;
    match SupervisorResource::new(&mut table, 2) {
        Err(e) => assert_eq!(e, Error::NoSuchProcess),
        Ok(_) => panic!("attach must be refused"),
    }
}

#[test]
fn second_attach_returns_already_exists_and_original_stays_usable() {
    let mut table = table_with_child(1, true);
    let (first, mut channel) = SupervisorResource::new(&mut table, 2).unwrap();

    match SupervisorResource::new(&mut table, 2) {
        Err(e) => assert_eq!(e, Error::AlreadyExists),
        Ok(_) => panic!("second attach must be refused"),
    }

    // The endpoint installed by the first attach still works both ways.
    let installed = table.contexts[1].supervised_resource.take().unwrap();
    assert_eq!(first.write(&mut channel, &filled(0xAB)), Ok(PACKET_SIZE));
    let mut buf = filled(0);
    assert_eq!(installed.read(&mut channel, &mut buf), Ok(PACKET_SIZE));
    assert_eq!(buf, filled(0xAB));
}

#[test]
fn racing_attach_attempts_yield_one_success() {
    // The table lock serializes the two attempts; whichever runs second
    // sees the installed endpoint and is refused.
    let mut table = table_with_child(1, true);
    let first = SupervisorResource::new(&mut table, 2);
    let second = SupervisorResource::new(&mut table, 2);
    assert!(first.is_ok());
    match second {
        Err(e) => assert_eq!(e, Error::AlreadyExists),
        Ok(_) => panic!("never two successes"),
    }
    // A racing attempt by another process fails as well.
    table.current_pid = Some(99);
    match SupervisorResource::new(&mut table, 2) {
        Err(e) => assert_eq!(e, Error::AccessDenied),
        Ok(_) => panic!("never two successes"),
    }
}

#[test]
fn read_rejects_wrong_size_buffer() {
    let mut table = table_with_child(1, true);
    let (resource, mut channel) = SupervisorResource::new(&mut table, 2).unwrap();
    let installed = table.contexts[1].supervised_resource.take().unwrap();
    installed.write(&mut channel, &filled(3)).unwrap();

    for len in [0usize, 1, PACKET_SIZE - 1, PACKET_SIZE + 1, 2 * PACKET_SIZE] {
        let mut buf = vec![0u8; len];
        assert_eq!(resource.read(&mut channel, &mut buf), Err(Error::InvalidArgument));
        assert_eq!(buf, vec![0u8; len]);
        // The pending packet was not consumed.
        assert_eq!(channel.pending(Side::Supervisor), 1);
    }
}

#[test]
fn write_rejects_wrong_size_buffer() {
    let mut table = table_with_child(1, true);
    let (resource, mut channel) = SupervisorResource::new(&mut table, 2).unwrap();

    for len in [0usize, 1, PACKET_SIZE - 1, PACKET_SIZE + 1, 2 * PACKET_SIZE] {
        let buf = vec![9u8; len];
        assert_eq!(resource.write(&mut channel, &buf), Err(Error::InvalidArgument));
        // Nothing was enqueued for the peer.
        assert_eq!(channel.pending(Side::Supervised), 0);
    }
}

#[test]
fn round_trip_is_byte_identical_in_both_directions() {
    let mut table = table_with_child(1, true);
    let (parent, mut channel) = SupervisorResource::new(&mut table, 2).unwrap();
    let child = table.contexts[1].supervised_resource.take().unwrap();

    let mut request = filled(0);
    for (i, b) in request.iter_mut().enumerate() {
        *b = i as u8;
    }
    assert_eq!(child.write(&mut channel, &request), Ok(PACKET_SIZE));
    let mut seen = filled(0xFF);
    assert_eq!(parent.read(&mut channel, &mut seen), Ok(PACKET_SIZE));
    assert_eq!(seen, request);

    let response = filled(0x5A);
    assert_eq!(parent.write(&mut channel, &response), Ok(PACKET_SIZE));
    let mut answer = filled(0);
    assert_eq!(child.read(&mut channel, &mut answer), Ok(PACKET_SIZE));
    assert_eq!(answer, response);
}

#[test]
fn writes_after_peer_close_return_broken_pipe() {
    let mut table = table_with_child(1, true);
    let (parent, mut channel) = SupervisorResource::new(&mut table, 2).unwrap();
    let child = table.contexts[1].supervised_resource.take().unwrap();

    child.close(&mut channel);
    assert!(!channel.reader_alive(Side::Supervised));
    // Deterministic, immediate, and repeatable.
    assert_eq!(parent.write(&mut channel, &filled(1)), Err(Error::BrokenPipe));
    assert_eq!(parent.write(&mut channel, &filled(2)), Err(Error::BrokenPipe));
    assert_eq!(channel.pending(Side::Supervised), 0);
}

#[test]
fn close_discards_pending_packets_of_own_queue_only() {
    let mut table = table_with_child(1, true);
    let (parent, mut channel) = SupervisorResource::new(&mut table, 2).unwrap();
    let child = table.contexts[1].supervised_resource.take().unwrap();

    child.write(&mut channel, &filled(1)).unwrap();
    parent.write(&mut channel, &filled(2)).unwrap();
    parent.close(&mut channel);

    // The parent's queue dies with it; the child's own queue survives.
    assert_eq!(channel.pending(Side::Supervisor), 0);
    assert_eq!(channel.pending(Side::Supervised), 1);
    let mut buf = filled(0);
    assert_eq!(child.read(&mut channel, &mut buf), Ok(PACKET_SIZE));
    assert_eq!(buf, filled(2));
    // And the child can no longer reach the parent.
    assert_eq!(child.write(&mut channel, &filled(3)), Err(Error::BrokenPipe));
}

#[test]
fn packets_arrive_first_in_first_out() {
    let mut table = table_with_child(1, true);
    let (parent, mut channel) = SupervisorResource::new(&mut table, 2).unwrap();
    let child = table.contexts[1].supervised_resource.take().unwrap();

    child.write(&mut channel, &filled(1)).unwrap();
    child.write(&mut channel, &filled(2)).unwrap();
    child.write(&mut channel, &filled(3)).unwrap();
    assert_eq!(channel.pending(Side::Supervisor), 3);

    for expected in 1u8..=3 {
        let mut buf = filled(0);
        assert_eq!(parent.read(&mut channel, &mut buf), Ok(PACKET_SIZE));
        assert_eq!(buf, filled(expected));
    }
    assert_eq!(channel.pending(Side::Supervisor), 0);
}

#[test]
fn fresh_channel_is_empty_and_alive() {
    let channel = Channel::new();
    assert_eq!(channel.pending(Side::Supervised), 0);
    assert_eq!(channel.pending(Side::Supervisor), 0);
    assert!(channel.reader_alive(Side::Supervised));
    assert!(channel.reader_alive(Side::Supervisor));
}

#[test]
fn duplicate_pids_resolve_to_first_record() {
    // A malformed table with a duplicated pid: the protocol goes by the
    // first record, as the table lookup does.
    let mut table = ContextTable {
        contexts: vec![
            Context { pid: 2, ppid: 1, supervised: false, supervised_resource: None },
            Context { pid: 2, ppid: 1, supervised: true, supervised_resource: None },
        ],
        current_pid: Some(1),
    };
    match SupervisorResource::new(&mut table, 2) {
        Err(e) => assert_eq!(e, Error::OperationNotPermitted),
        Ok(_) => panic!("first record has not opted in"),
    }
}
