use km_harness::codec::{encode_id, encode_retv};
use km_harness::command::DispatchError;
use km_harness::commands::{EchoCommand, StoreCommand, ECHO_ID, STORE_ID};
use km_harness::harness::Harness;
use km_harness::port::{MemPort, TrapKind};
use km_harness::registry::{ChainExecutor, SingleExecutor};

type EchoRegistry = SingleExecutor<EchoCommand>;
type FullRegistry = ChainExecutor<SingleExecutor<EchoCommand>, SingleExecutor<StoreCommand>>;

fn command_buffer(id: usize, payload: &[u8]) -> Vec<u8> {
    let mut buf = encode_id(id);
    buf.extend_from_slice(payload);
    buf
}

fn port_with_command(cmd: Vec<u8>) -> MemPort {
    MemPort::new(cmd, vec![0xEEu8; 8], Vec::new())
}

#[test]
fn step_echoes_the_payload_word() {
    // Registry: ID 0 = echo. Command buffer: ID 0, payload = 42.
    let cmd = command_buffer(ECHO_ID, encode_retv(42).as_slice());
    assert_eq!(cmd, {
        let mut raw = vec![0u8; 8];
        raw.extend_from_slice(&[0x2A, 0, 0, 0, 0, 0, 0, 0]);
        raw
    });
    let mut harness: Harness<MemPort, EchoRegistry, 16> =
        Harness::new(port_with_command(cmd), SingleExecutor::new());

    assert_eq!(harness.step(), Ok(42));

    let port = harness.port_ref();
    assert_eq!(
        port.traps_seen(),
        &vec![
            TrapKind::Command,
            TrapKind::CheckRetv,
            TrapKind::GetState,
            TrapKind::CheckState,
        ]
    );
    assert_eq!(port.retv_bytes(), &encode_retv(42));
    // The extra-output region was sent but left untouched: still all zero.
    assert_eq!(port.extra_bytes(), &vec![0u8; 16]);
}

#[test]
fn step_rejects_an_unregistered_id() {
    // Registry has no ID 99: the step aborts and no command executes.
    let cmd = command_buffer(99, &[]);
    assert_eq!(cmd, vec![0x63, 0, 0, 0, 0, 0, 0, 0]);
    let mut harness: Harness<MemPort, EchoRegistry, 16> =
        Harness::new(port_with_command(cmd), SingleExecutor::new());

    assert_eq!(harness.step(), Err(DispatchError::UnknownId(99)));

    let port = harness.port_ref();
    assert_eq!(port.traps_seen(), &vec![TrapKind::Command]);
    // Nothing was sent: the return-value slot still holds its initial fill.
    assert_eq!(port.retv_bytes(), &vec![0xEE; 8]);
    assert_eq!(port.extra_bytes(), &Vec::new());
}

#[test]
fn init_streams_every_chunk_then_finishes() {
    let mut port = port_with_command(Vec::new());
    port.load_state_chunks(3);
    let mut harness: Harness<MemPort, EchoRegistry, 16> =
        Harness::new(port, SingleExecutor::new());

    harness.init();

    let port = harness.port_ref();
    assert_eq!(
        port.traps_seen(),
        &vec![
            TrapKind::Start,
            TrapKind::GetState,
            TrapKind::GetState,
            TrapKind::GetState,
            TrapKind::CheckState,
        ]
    );
    assert_eq!(port.state_chunks_left(), 0);
    assert!(!port.state_armed());
}

#[test]
fn init_with_no_state_still_makes_one_fetch() {
    let mut harness: Harness<MemPort, EchoRegistry, 16> =
        Harness::new(port_with_command(Vec::new()), SingleExecutor::new());

    harness.init();

    let port = harness.port_ref();
    assert_eq!(
        port.traps_seen(),
        &vec![TrapKind::Start, TrapKind::GetState, TrapKind::CheckState]
    );
    assert!(!port.state_armed());
}

#[test]
fn step_trap_order_covers_every_pending_chunk() {
    let cmd = command_buffer(ECHO_ID, encode_retv(7).as_slice());
    let mut port = port_with_command(cmd);
    port.load_state_chunks(2);
    let mut harness: Harness<MemPort, EchoRegistry, 16> =
        Harness::new(port, SingleExecutor::new());

    assert_eq!(harness.step(), Ok(7));

    assert_eq!(
        harness.port_ref().traps_seen(),
        &vec![
            TrapKind::Command,
            TrapKind::CheckRetv,
            TrapKind::GetState,
            TrapKind::GetState,
            TrapKind::CheckState,
        ]
    );
}

#[test]
fn step_writes_store_output_through_the_port() {
    let cmd = command_buffer(STORE_ID, encode_retv(-2).as_slice());
    let registry = ChainExecutor::new(SingleExecutor::new(), SingleExecutor::new());
    let mut harness: Harness<MemPort, FullRegistry, 16> =
        Harness::new(port_with_command(cmd), registry);

    assert_eq!(harness.step(), Ok(8));

    let port = harness.port_ref();
    assert_eq!(port.retv_bytes(), &encode_retv(8));
    let mut expected = encode_retv(-2);
    expected.extend_from_slice(&[0u8; 8]);
    assert_eq!(port.extra_bytes(), &expected);
}

#[test]
fn whole_session_handshake_then_step() {
    let cmd = command_buffer(ECHO_ID, encode_retv(11).as_slice());
    let mut port = port_with_command(cmd);
    port.load_state_chunks(1);
    let mut harness: Harness<MemPort, EchoRegistry, 16> =
        Harness::new(port, SingleExecutor::new());

    harness.init();
    assert_eq!(harness.step(), Ok(11));

    assert_eq!(
        harness.port_ref().traps_seen(),
        &vec![
            TrapKind::Start,
            TrapKind::GetState,
            TrapKind::CheckState,
            TrapKind::Command,
            TrapKind::CheckRetv,
            TrapKind::GetState,
            TrapKind::CheckState,
        ]
    );
    assert_eq!(harness.port_ref().retv_bytes(), &encode_retv(11));
}

#[test]
fn repeated_steps_keep_the_protocol_order() {
    let cmd = command_buffer(ECHO_ID, encode_retv(5).as_slice());
    let mut harness: Harness<MemPort, EchoRegistry, 16> =
        Harness::new(port_with_command(cmd), SingleExecutor::new());

    assert_eq!(harness.step(), Ok(5));
    assert_eq!(harness.step(), Ok(5));

    let one_round = vec![
        TrapKind::Command,
        TrapKind::CheckRetv,
        TrapKind::GetState,
        TrapKind::CheckState,
    ];
    let mut expected = one_round.clone();
    expected.extend_from_slice(one_round.as_slice());
    assert_eq!(harness.port_ref().traps_seen(), &expected);
}
