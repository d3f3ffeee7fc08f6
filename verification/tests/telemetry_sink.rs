use voice_direction_finder::telemetry::{
    sink_initial, sink_step, telemetry_line, u64_to_decimal, SinkAction, SinkEvent, SinkState,
};

#[test]
fn transition_table() {
    assert_eq!(sink_initial(), SinkState::Reconnecting);
    assert_eq!(
        sink_step(SinkState::Connected, SinkEvent::SendRequested),
        (SinkState::Connected, SinkAction::Write)
    );
    assert_eq!(
        sink_step(SinkState::Connected, SinkEvent::WriteSucceeded),
        (SinkState::Connected, SinkAction::Idle)
    );
    assert_eq!(
        sink_step(SinkState::Connected, SinkEvent::WriteFailed),
        (SinkState::Reconnecting, SinkAction::Connect)
    );
    assert_eq!(
        sink_step(SinkState::Reconnecting, SinkEvent::ConnectFailed),
        (SinkState::Reconnecting, SinkAction::RetryAfterDelay)
    );
    assert_eq!(
        sink_step(SinkState::Reconnecting, SinkEvent::ConnectSucceeded),
        (SinkState::Connected, SinkAction::Idle)
    );
    assert_eq!(
        sink_step(SinkState::Reconnecting, SinkEvent::SendRequested),
        (SinkState::Reconnecting, SinkAction::Connect)
    );
}

/// Substitute transport: a scripted socket whose write outcomes are fixed in
/// advance and whose connect attempts always succeed, counting both.
struct ScriptedSocket {
    write_outcomes: Vec<bool>,
    writes: usize,
    connects: usize,
}

impl ScriptedSocket {
    fn write(&mut self) -> bool {
        let ok = self.write_outcomes[self.writes];
        self.writes += 1;
        ok
    }

    fn connect(&mut self) -> bool {
        self.connects += 1;
        true
    }
}

/// Transmit one record the way the owning thread does: request the send,
/// perform each action the controller returns, and feed the outcome back.
fn send_record(state: &mut SinkState, socket: &mut ScriptedSocket) -> bool {
    let mut delivered = false;
    let (s, mut action) = sink_step(*state, SinkEvent::SendRequested);
    *state = s;
    loop {
        match action {
            SinkAction::Write => {
                let ok = socket.write();
                let ev = if ok { SinkEvent::WriteSucceeded } else { SinkEvent::WriteFailed };
                delivered = ok;
                let (s2, a2) = sink_step(*state, ev);
                *state = s2;
                action = a2;
            }
            SinkAction::Connect | SinkAction::RetryAfterDelay => {
                let ok = socket.connect();
                let ev = if ok { SinkEvent::ConnectSucceeded } else { SinkEvent::ConnectFailed };
                let (s2, a2) = sink_step(*state, ev);
                *state = s2;
                action = a2;
            }
            SinkAction::Idle => {
                return delivered;
            }
        }
    }
}

#[test]
fn one_reconnect_after_first_write_failure() {
    let mut socket = ScriptedSocket {
        write_outcomes: vec![false, true],
        writes: 0,
        connects: 0,
    };
    let mut state = SinkState::Connected;
    // First send: the write fails, one reconnect sequence runs, and the
    // failed record is not retried.
    let delivered = send_record(&mut state, &mut socket);
    assert!(!delivered);
    assert_eq!(socket.connects, 1);
    assert_eq!(state, SinkState::Connected);
    // Second send succeeds with no further reconnect.
    let delivered = send_record(&mut state, &mut socket);
    assert!(delivered);
    assert_eq!(socket.connects, 1);
    assert_eq!(socket.writes, 2);
}

#[test]
fn decimal_rendering() {
    assert_eq!(u64_to_decimal(0), b"0".to_vec());
    assert_eq!(u64_to_decimal(7), b"7".to_vec());
    assert_eq!(u64_to_decimal(120), b"120".to_vec());
    assert_eq!(u64_to_decimal(18446744073709551615), b"18446744073709551615".to_vec());
}

#[test]
fn wire_line_layout() {
    let line = telemetry_line(
        1700000000123,
        &b"1.5".to_vec(),
        &b"2.5".to_vec(),
        &b"0.25".to_vec(),
        &b"0.055".to_vec(),
        &b"-0.0003".to_vec(),
    );
    assert_eq!(line, b"1700000000123,1.5,2.5,0.25,0.055,-0.0003\n".to_vec());
}
