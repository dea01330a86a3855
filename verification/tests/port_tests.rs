use km_harness::port::{HarnessPort, MemPort, TrapKind};

fn empty_port() -> MemPort {
    MemPort::new(Vec::new(), vec![0u8; 8], Vec::new())
}

#[test]
fn receive_command_hands_back_the_buffer() {
    let port = MemPort::new(vec![1, 2, 3], vec![0u8; 8], Vec::new());
    assert_eq!(port.receive_command(), &[1, 2, 3]);
}

#[test]
fn send_retv_fills_the_slot_little_endian() {
    let mut port = empty_port();
    port.send_retv(42);
    assert_eq!(port.retv_bytes(), &vec![0x2A, 0, 0, 0, 0, 0, 0, 0]);
    port.send_retv(-1);
    assert_eq!(port.retv_bytes(), &vec![0xFF; 8]);
}

#[test]
fn send_extra_data_copies_the_bytes() {
    let mut port = empty_port();
    port.send_extra_data(&[9, 8, 7]);
    assert_eq!(port.extra_bytes(), &vec![9, 8, 7]);
}

#[test]
fn signal_records_traps_in_order() {
    let mut port = empty_port();
    port.signal(TrapKind::Start);
    port.signal(TrapKind::Command);
    port.signal(TrapKind::CheckRetv);
    assert_eq!(
        port.traps_seen(),
        &vec![TrapKind::Start, TrapKind::Command, TrapKind::CheckRetv]
    );
}

#[test]
fn state_pass_sends_each_chunk_then_reports_exhaustion() {
    let mut port = empty_port();
    port.load_state_chunks(3);
    port.start_state_sending();
    assert!(port.state_armed());
    let mut calls = 0;
    loop {
        let done = port.send_state_data();
        calls += 1;
        if done {
            break;
        }
    }
    assert_eq!(calls, 3);
    assert_eq!(port.state_chunks_left(), 0);
    port.finish_state_sending();
    assert!(!port.state_armed());
}

#[test]
fn empty_state_pass_reports_exhaustion_on_first_call() {
    let mut port = empty_port();
    port.start_state_sending();
    assert!(port.send_state_data());
    port.finish_state_sending();
    assert!(!port.state_armed());
}
