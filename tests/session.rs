use rpresence::activity::Activity;
use rpresence::framer::{decode, encode, encode_frame};
use rpresence::session::{
    check_listener, keep_listening, on_frame, on_read_error, ready_wait_failed, ConnectionState, ListenerOutcome, ListenerStep, Notice, Session,
    SessionError,
};

fn split(frame: &[u8]) -> (u32, u32, &[u8]) {
    let (op, len) = decode(&frame[..8]);
    (op, len, &frame[8..])
}

#[test]
fn connect_is_a_no_op_once_connected() {
    let s = Session::new(1, 2);
    assert!(s.begin_connect(ConnectionState::Disconnected));
    assert!(!s.begin_connect(ConnectionState::Connected));
    assert!(!s.begin_connect(ConnectionState::Ready));
}

#[test]
fn handshake_frame_and_state() {
    let mut s = Session::new(42, 7);
    let mut state = ConnectionState::Disconnected;
    let f = s.handshake();
    assert_eq!(state, ConnectionState::Disconnected);
    s.connected(&mut state);
    assert_eq!(state, ConnectionState::Connected);
    let (op, len, payload) = split(&f);
    assert_eq!(op, 0);
    assert_eq!(payload, b"{\"v\":1,\"client_id\":\"42\"}");
    assert_eq!(len as usize, payload.len());
}

#[test]
fn acknowledgment_while_connected_makes_ready() {
    let step = on_frame(ConnectionState::Connected, 1, b"");
    assert_eq!(
        step,
        ListenerStep {
            state: ConnectionState::Ready,
            wake_waiter: true,
            notice: Some(Notice::Ready),
            teardown: false,
            finished: None,
        }
    );
    let next = on_frame(step.state, 1, b"{}");
    assert_eq!(next.notice, Some(Notice::Update));
    assert_eq!(next.state, ConnectionState::Ready);
    assert!(!next.wake_waiter);
}

#[test]
fn close_frame_disconnects() {
    let step = on_frame(ConnectionState::Ready, 2, b"{\"code\":1000}");
    assert_eq!(step.state, ConnectionState::Disconnected);
    assert_eq!(step.notice, Some(Notice::Disconnect));
    assert!(step.teardown);
    assert!(step.wake_waiter);
    assert_eq!(step.finished, Some(ListenerOutcome::Stopped));
}

#[test]
fn reject_ends_listener_and_next_update_fails() {
    let step = on_frame(
        ConnectionState::Connected,
        2,
        b"{\"code\":4000,\"message\":\"Invalid Client ID\"}",
    );
    assert_eq!(step.finished, Some(ListenerOutcome::Rejected));
    assert_eq!(step.state, ConnectionState::Disconnected);
    assert!(!step.teardown);
    let s = Session::new(1, 2);
    let a = Activity::new().details("x");
    assert_eq!(s.plan_update(step.finished, &a), Err(SessionError::Rejected));
    assert_eq!(s.plan_clear(step.finished), Err(SessionError::Rejected));
    assert_eq!(SessionError::Rejected.message(), "Invalid Client ID");
}

#[test]
fn partial_marker_is_no_reject() {
    let step = on_frame(ConnectionState::Connected, 2, b"Invalid Client");
    assert_eq!(step.finished, Some(ListenerOutcome::Stopped));
}

#[test]
fn other_opcodes_and_late_frames_are_ignored() {
    let step = on_frame(ConnectionState::Ready, 3, b"");
    assert_eq!(step.state, ConnectionState::Ready);
    assert_eq!(step.notice, None);
    assert_eq!(step.finished, None);
    let late = on_frame(ConnectionState::Disconnected, 1, b"");
    assert_eq!(late.state, ConnectionState::Disconnected);
    assert_eq!(late.notice, None);
    assert_eq!(late.finished, Some(ListenerOutcome::Stopped));
}

#[test]
fn check_listener_outcomes() {
    assert_eq!(check_listener(None), Ok(()));
    assert_eq!(check_listener(Some(ListenerOutcome::Stopped)), Ok(()));
    assert_eq!(
        check_listener(Some(ListenerOutcome::Rejected)),
        Err(SessionError::Rejected)
    );
}

#[test]
fn update_dedup() {
    let mut s = Session::new(1, 99);
    let a = Activity::new().details("A");
    let a2 = Activity::new().details("A");
    let b = Activity::new().details("A").state("B");
    let first = s.plan_update(None, &a).unwrap().unwrap();
    s.sent(a);
    assert_eq!(s.plan_update(None, &a2), Ok(None));
    let second = s.plan_update(None, &b).unwrap().unwrap();
    assert_ne!(first, second);
    let (op, _, payload) = split(&second);
    assert_eq!(op, 1);
    assert!(std::str::from_utf8(payload).unwrap().contains("\"state\":\"B\""));
}

#[test]
fn clear_always_sends() {
    let mut s = Session::new(1, 5);
    let a = Activity::new();
    s.sent(a);
    let f = s.plan_clear(None).unwrap();
    let (op, len, payload) = split(&f);
    assert_eq!(op, 1);
    assert_eq!(len as usize, payload.len());
    assert_eq!(
        payload,
        b"{\"cmd\":\"SET_ACTIVITY\",\"nonce\":\"-\",\"args\":{\"pid\":5}}"
    );
}

#[test]
fn shutdown_sends_close_once() {
    let mut s = Session::new(77, 5);
    let mut state = ConnectionState::Ready;
    let f = s.plan_shutdown(state).unwrap().unwrap();
    let (op, _, payload) = split(&f);
    assert_eq!(op, 2);
    assert_eq!(payload, b"{\"v\":1,\"client_id\":77}");
    s.shut_down(&mut state);
    assert_eq!(state, ConnectionState::Disconnected);
    assert_eq!(s.plan_shutdown(state), Ok(None));
}

#[test]
fn shutdown_forgets_last_value() {
    let mut s = Session::new(1, 5);
    let a = Activity::new().details("same");
    s.sent(a);
    let mut state = ConnectionState::Ready;
    s.shut_down(&mut state);
    assert!(s.plan_update(None, &a).unwrap().is_some());
}

/// A peer on the other end of an in-memory stream.
struct SimulatedTransport {
    to_peer: Vec<u8>,
    from_peer: Vec<u8>,
    open: bool,
}

impl SimulatedTransport {
    fn read_frame(&mut self) -> Option<(u32, Vec<u8>)> {
        if self.from_peer.len() < 8 {
            return None;
        }
        let (op, len) = decode(&self.from_peer[..8]);
        let end = 8 + len as usize;
        let payload = self.from_peer[8..end].to_vec();
        self.from_peer.drain(..end);
        Some((op, payload))
    }
}

#[test]
fn end_to_end_against_simulated_transport() {
    let mut t = SimulatedTransport { to_peer: Vec::new(), from_peer: Vec::new(), open: false };
    let mut s = Session::new(1219918645770059796, 4242);
    let mut state = ConnectionState::Disconnected;

    // connect(block = true)
    assert!(s.begin_connect(state));
    t.open = true;
    t.to_peer.extend(s.handshake());
    s.connected(&mut state);
    assert_eq!(state, ConnectionState::Connected);
    t.from_peer.extend(encode(1, 0));
    let mut released = false;
    while !released {
        let (op, payload) = t.read_frame().unwrap();
        let step = on_frame(state, op, &payload);
        state = step.state;
        released = step.wake_waiter;
        assert_eq!(step.notice, Some(Notice::Ready));
    }
    assert_eq!(state, ConnectionState::Ready);

    // update
    t.to_peer.clear();
    let a = Activity::new().details("test");
    let f = s.plan_update(None, &a).unwrap().unwrap();
    t.to_peer.extend(&f);
    s.sent(a);
    let (op, len, payload) = split(&t.to_peer);
    assert_eq!(op, 1);
    assert_eq!(len as usize, payload.len());
    assert!(std::str::from_utf8(payload).unwrap().contains("\"details\":\"test\""));

    // shutdown
    t.to_peer.clear();
    let close = s.plan_shutdown(state).unwrap().unwrap();
    t.to_peer.extend(&close);
    t.open = false;
    s.shut_down(&mut state);
    let (op, _, _) = split(&t.to_peer);
    assert_eq!(op, 2);
    assert!(!t.open);
    assert_eq!(state, ConnectionState::Disconnected);
    assert_eq!(s.plan_shutdown(state), Ok(None));
    assert_eq!(encode_frame(2, b"").len(), 8);
}

#[test]
fn read_error_ends_listener_without_error() {
    let step = on_read_error(ConnectionState::Ready);
    assert_eq!(
        step,
        ListenerStep {
            state: ConnectionState::Ready,
            wake_waiter: false,
            notice: None,
            teardown: false,
            finished: Some(ListenerOutcome::Stopped),
        }
    );
    assert!(keep_listening(ConnectionState::Connected));
    assert!(keep_listening(ConnectionState::Ready));
    assert!(!keep_listening(ConnectionState::Disconnected));
}

#[test]
fn blocked_connect_errors() {
    assert_eq!(
        ready_wait_failed(Some(ListenerOutcome::Rejected)),
        SessionError::Rejected
    );
    assert_eq!(
        ready_wait_failed(Some(ListenerOutcome::Stopped)),
        SessionError::Closed
    );
    assert_eq!(ready_wait_failed(None), SessionError::Closed);
    assert_eq!(
        SessionError::Closed.message(),
        "the stream closed before the handshake completed"
    );
    assert_eq!(
        SessionError::Oversized.message(),
        "payload too large for one frame"
    );
}

#[test]
fn reconnect_forgets_last_value() {
    let mut s = Session::new(3, 4);
    let a = Activity::new().details("kept");
    s.sent(a);
    assert_eq!(s.plan_update(None, &a), Ok(None));
    let mut state = ConnectionState::Disconnected;
    s.connected(&mut state);
    assert!(s.plan_update(None, &a).unwrap().is_some());
}
