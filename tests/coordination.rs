use single_instance::delivery::{
    signal_running_instance, ConnectOutcome, DeliveryStep, IPC_CONNECT_TIMEOUT_MS,
    IPC_RETRY_DELAY_MS,
};
use single_instance::framing::{decode_message, ensure_payload, MessageReader, CHUNK_SIZE};
use single_instance::identity::{ipc_identity, names_from_keys, CHANNEL_PREFIX, EXCLUSION_PREFIX};
use single_instance::instance::{
    acquire_lock, handle_single_instance, CreateOutcome, ExclusionTable, InstanceGuard, IpcError,
    LaunchPlan,
};
use single_instance::listener::{Listener, ListenerAction, ListenerEvent};

const APP_ID: &str = "dev.zed.Zed";

fn acquire(table: &mut ExclusionTable, app_id: &str) -> Result<InstanceGuard<()>, IpcError> {
    table.acquire(&ipc_identity(app_id))
}

/// Runs one connection through a listener that awaits a client, feeding it
/// the message in reads of at most a chunk; returns what it delivered.
fn receive(listener: &mut Listener, message: &[u8]) -> Option<String> {
    let action = listener.next(ListenerEvent::ClientConnected);
    assert!(matches!(action, ListenerAction::ReadChunk));
    let mut offset = 0;
    loop {
        let end = (offset + CHUNK_SIZE).min(message.len());
        let read = message[offset..end].to_vec();
        offset = end;
        match listener.next(ListenerEvent::Read(read)) {
            ListenerAction::ReadChunk => continue,
            ListenerAction::Deliver(text) => {
                let action = listener.next(ListenerEvent::PipeCreated);
                assert!(matches!(action, ListenerAction::WaitForClient));
                return Some(text);
            }
            _ => return None,
        }
    }
}

fn ready_listener(pipe_name: &str) -> Listener {
    let mut listener = Listener::new(pipe_name);
    assert!(matches!(listener.next(ListenerEvent::PipeCreated), ListenerAction::WaitForClient));
    listener
}

fn deliver(listener: &mut Listener, payload: &[u8]) -> Option<String> {
    let delivery = signal_running_instance(payload);
    assert_eq!(delivery.on_connect(ConnectOutcome::Connected, 0), DeliveryStep::WritePayload);
    let text = receive(listener, delivery.message());
    assert_eq!(delivery.on_write(true), Ok(()));
    text
}

#[test]
fn identity_is_derived_from_uuid_v5() {
    let identity = ipc_identity(APP_ID);
    assert_eq!(identity.exclusion_name, format!("{}2e39d718-b8d1-5fbf-91c0-2ce987b0e9d9", EXCLUSION_PREFIX));
    assert_eq!(identity.channel_name, format!("{}d0ab032e-7617-5c15-85f3-4152aa168c47", CHANNEL_PREFIX));
    assert_eq!(identity.exclusion_name, r"Global\\Zed_2e39d718-b8d1-5fbf-91c0-2ce987b0e9d9");
    assert_eq!(identity.channel_name, r"\\.\pipe\zed-launcher-d0ab032e-7617-5c15-85f3-4152aa168c47");
}

#[test]
fn names_are_built_on_their_keys() {
    let identity = names_from_keys("k-1", "k-2");
    assert_eq!(identity.exclusion_name, r"Global\\Zed_k-1");
    assert_eq!(identity.channel_name, r"\\.\pipe\zed-launcher-k-2");
}

#[test]
fn identity_is_deterministic_and_distinct() {
    let a = ipc_identity(APP_ID);
    let again = ipc_identity(APP_ID);
    let b = ipc_identity("dev.zed.Zed-Preview");
    assert_eq!(a.exclusion_name, again.exclusion_name);
    assert_eq!(a.channel_name, again.channel_name);
    assert_ne!(a.exclusion_name, b.exclusion_name);
    assert_ne!(a.channel_name, b.channel_name);
    assert_ne!(a.exclusion_name, a.channel_name);
    assert!(b.exclusion_name.ends_with("b54a7c10-34a8-5b67-94bd-4e8468b8bc67"));
    assert!(b.channel_name.ends_with("0bd0a845-9db8-5792-a2d2-446846bf0743"));
    // Neither name gives away the other's key.
    let key = |name: &str| name[name.len() - 36..].to_string();
    assert_ne!(key(&a.exclusion_name), key(&a.channel_name));
}

#[test]
fn exactly_one_of_many_acquisitions_is_primary() {
    let mut table = ExclusionTable::new();
    let mut primaries = 0;
    for _ in 0..20 {
        let guard = acquire(&mut table, APP_ID).expect("acquire lock");
        if guard.is_primary() {
            primaries += 1;
        }
    }
    assert_eq!(primaries, 1);
}

#[test]
fn dropped_secondaries_never_flip_leadership() {
    let mut table = ExclusionTable::new();
    let primary = acquire(&mut table, APP_ID).unwrap();
    assert!(primary.is_primary());
    let held = primary.into_held();
    for _ in 0..10 {
        let secondary = acquire(&mut table, APP_ID).unwrap();
        assert!(!secondary.is_primary());
        secondary.release();
    }
    let identity = ipc_identity(APP_ID);
    assert!(table.holds(&identity.exclusion_name));
    assert_eq!(held.pipe_name(), identity.channel_name);
    // The primary ends: the next launch takes over.
    table.release_owner(&identity.exclusion_name);
    assert!(!table.holds(&identity.exclusion_name));
    assert!(acquire(&mut table, APP_ID).unwrap().is_primary());
}

#[test]
fn other_applications_elect_their_own_primary() {
    let mut table = ExclusionTable::new();
    assert!(acquire(&mut table, APP_ID).unwrap().is_primary());
    assert!(acquire(&mut table, "dev.zed.Zed-Preview").unwrap().is_primary());
    assert!(!acquire(&mut table, APP_ID).unwrap().is_primary());
}

#[test]
fn failed_creation_is_lock_unavailable() {
    let identity = ipc_identity(APP_ID);
    let r = acquire_lock::<u64>(&identity, CreateOutcome::Failed(5));
    assert!(matches!(r, Err(IpcError::LockUnavailable)));
    let guard = acquire_lock(&identity, CreateOutcome::Created(42u64)).unwrap();
    assert_eq!(*guard.handle(), 42);
    assert_eq!(guard.pipe_name(), identity.channel_name);
    assert_eq!(guard.release(), 42);
}

#[test]
fn launch_plans() {
    let identity = ipc_identity(APP_ID);
    let primary = acquire_lock(&identity, CreateOutcome::Created(())).map_err(|e| e);
    let secondary = acquire_lock(&identity, CreateOutcome::AlreadyExists(()));
    let failed = acquire_lock::<()>(&identity, CreateOutcome::Failed(1));
    assert_eq!(handle_single_instance(&primary, false), LaunchPlan::ServeAsPrimary);
    assert!(handle_single_instance(&primary, true).is_first_instance());
    assert_eq!(handle_single_instance(&secondary, false), LaunchPlan::ForwardToPrimary);
    assert_eq!(handle_single_instance(&secondary, true), LaunchPlan::RunInForeground);
    assert_eq!(handle_single_instance(&failed, false), LaunchPlan::FallBack);
    assert!(!handle_single_instance(&failed, false).is_first_instance());
}

#[test]
fn payload_gets_one_terminator() {
    assert_eq!(ensure_payload(b"ping"), b"ping\0".to_vec());
    assert_eq!(ensure_payload(b"ping\0"), b"ping\0".to_vec());
    assert_eq!(ensure_payload(b""), vec![0u8]);
    assert_eq!(signal_running_instance(b"zed://open").message(), b"zed://open\0");
}

#[test]
fn decoding_drops_terminators_and_replaces_invalid_bytes() {
    assert_eq!(decode_message(b"ping\0\0\0"), "ping");
    assert_eq!(decode_message(&[0x66, 0xff, 0x6f, 0, 0]), "f\u{FFFD}o");
    assert_eq!(decode_message(b""), "");
    assert_eq!(decode_message("h\u{e9}\0".as_bytes()), "h\u{e9}");
}

#[test]
fn round_trip_of_text_payloads() {
    let identity = ipc_identity(APP_ID);
    let mut listener = ready_listener(&identity.channel_name);
    for payload in ["ping", "zed-cli://server-1", "", "ünïcödé ✓ 😀", "zed://file/C:/a b"] {
        assert_eq!(deliver(&mut listener, payload.as_bytes()).as_deref(), Some(payload));
    }
}

#[test]
fn long_payloads_arrive_whole() {
    let mut listener = ready_listener("chan");
    for len in [CHUNK_SIZE - 1, CHUNK_SIZE, CHUNK_SIZE + 1, 2 * CHUNK_SIZE - 1, 5000] {
        let payload: String = (0..len).map(|i| (b'a' + (i % 26) as u8) as char).collect();
        assert_eq!(deliver(&mut listener, payload.as_bytes()), Some(payload));
    }
}

#[test]
fn reader_stops_at_a_short_read() {
    let mut reader = MessageReader::new();
    reader.push_chunk(&vec![1u8; CHUNK_SIZE]);
    assert!(!reader.is_complete());
    reader.push_chunk(&[2u8, 0u8]);
    assert!(reader.is_complete());
    assert_eq!(reader.bytes().len(), CHUNK_SIZE + 2);
}

#[test]
fn concurrent_deliveries_are_each_handled_once() {
    // Twenty secondaries contend for the single listening instance: while it
    // serves one, the others find it busy and retry within the deadline.
    let mut listener = ready_listener("chan");
    let deliveries: Vec<_> = (0..20).map(|i| signal_running_instance(format!("msg-{i}").as_bytes())).collect();
    let mut done = vec![false; deliveries.len()];
    let mut handled = Vec::new();
    let mut successes = 0;
    let mut elapsed = 0u64;
    while done.iter().any(|d| !d) {
        let mut served = false;
        for (i, delivery) in deliveries.iter().enumerate() {
            if done[i] {
                continue;
            }
            let outcome = if served { ConnectOutcome::PipeBusy } else { ConnectOutcome::Connected };
            match delivery.on_connect(outcome, elapsed) {
                DeliveryStep::WritePayload => {
                    served = true;
                    handled.push(receive(&mut listener, delivery.message()).unwrap());
                    if delivery.on_write(true).is_ok() {
                        successes += 1;
                    }
                    done[i] = true;
                }
                DeliveryStep::WaitAndRetry => {}
                DeliveryStep::GiveUp(_) => done[i] = true,
            }
        }
        elapsed += IPC_RETRY_DELAY_MS;
    }
    assert_eq!(handled.len(), successes);
    let mut expected: Vec<String> = (0..20).map(|i| format!("msg-{i}")).collect();
    expected.truncate(successes);
    assert_eq!(handled, expected);
    assert!(elapsed <= IPC_CONNECT_TIMEOUT_MS + IPC_RETRY_DELAY_MS);
}

#[test]
fn a_vanished_primary_ends_delivery() {
    let delivery = signal_running_instance(b"ping");
    assert_eq!(
        delivery.on_connect(ConnectOutcome::NotFound, 0),
        DeliveryStep::GiveUp(IpcError::DeliveryUnreachable)
    );
    assert_eq!(delivery.on_connect(ConnectOutcome::PipeBusy, 0), DeliveryStep::WaitAndRetry);
    assert_eq!(delivery.on_connect(ConnectOutcome::PipeBusy, IPC_CONNECT_TIMEOUT_MS - 1), DeliveryStep::WaitAndRetry);
    assert_eq!(
        delivery.on_connect(ConnectOutcome::PipeBusy, IPC_CONNECT_TIMEOUT_MS),
        DeliveryStep::GiveUp(IpcError::DeliveryTimeout)
    );
    assert_eq!(
        delivery.on_connect(ConnectOutcome::Failed, 0),
        DeliveryStep::GiveUp(IpcError::DeliveryFailed)
    );
    assert_eq!(delivery.on_write(false), Err(IpcError::DeliveryFailed));
}

#[test]
fn listener_recovers_from_failures() {
    let mut listener = Listener::new("chan");
    assert_eq!(listener.pipe_name(), "chan");
    assert!(matches!(listener.next(ListenerEvent::CreateFailed), ListenerAction::RetryCreate));
    assert!(matches!(listener.next(ListenerEvent::ReadFailed), ListenerAction::CreatePipe));
    assert!(matches!(listener.next(ListenerEvent::PipeCreated), ListenerAction::WaitForClient));
    assert!(matches!(listener.next(ListenerEvent::WaitFailed), ListenerAction::CloseAndRecreate));
    assert!(matches!(listener.next(ListenerEvent::PipeCreated), ListenerAction::WaitForClient));
    assert!(matches!(listener.next(ListenerEvent::AlreadyConnected), ListenerAction::ReadChunk));
    assert!(matches!(listener.next(ListenerEvent::Read(vec![1u8; CHUNK_SIZE])), ListenerAction::ReadChunk));
    assert!(matches!(listener.next(ListenerEvent::ReadFailed), ListenerAction::CloseAndRecreate));
    assert!(matches!(listener.next(ListenerEvent::PipeCreated), ListenerAction::WaitForClient));
    assert!(matches!(listener.next(ListenerEvent::ClientConnected), ListenerAction::ReadChunk));
    assert!(matches!(listener.next(ListenerEvent::Read(vec![1u8; CHUNK_SIZE + 1])), ListenerAction::CloseAndRecreate));
    // A fresh connection starts from an empty message.
    assert!(matches!(listener.next(ListenerEvent::PipeCreated), ListenerAction::WaitForClient));
    assert_eq!(receive(&mut listener, b"after\0"), Some(String::from("after")));
}

#[test]
fn empty_read_delivers_empty_message() {
    let mut listener = ready_listener("chan");
    listener.next(ListenerEvent::ClientConnected);
    match listener.next(ListenerEvent::Read(Vec::new())) {
        ListenerAction::Deliver(text) => assert_eq!(text, ""),
        _ => panic!("expected a delivery"),
    }
}

#[test]
fn guard_spawns_listener_on_its_channel() {
    let identity = ipc_identity(APP_ID);
    let guard = acquire_lock(&identity, CreateOutcome::Created(())).unwrap();
    let mut listener = guard.spawn_listener();
    assert_eq!(listener.pipe_name(), identity.channel_name);
    assert!(matches!(listener.next(ListenerEvent::PipeCreated), ListenerAction::WaitForClient));
}
