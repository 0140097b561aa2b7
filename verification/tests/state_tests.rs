use overlive_bridge::state::{plan_send_line, plan_send_ws, ConnectionState};

#[test]
fn second_start_request_is_refused() {
    // Under the state's lock, of two start requests exactly the first may
    // spawn a supervisor loop.
    let mut s: ConnectionState<u32> = ConnectionState::new();
    assert!(s.begin_connect());
    assert!(!s.begin_connect());
    assert!(!s.begin_connect());
}

#[test]
fn publish_and_clear_handle() {
    let mut s: ConnectionState<u32> = ConnectionState::new();
    assert!(!s.has_handle());
    s.publish(7);
    assert!(s.has_handle());
    s.clear();
    assert!(!s.has_handle());
}

#[test]
fn send_while_disconnected_is_dropped_without_error() {
    // No handle: the plan is empty, the caller performs no I/O, and the
    // call itself returns normally.
    let s: ConnectionState<u32> = ConnectionState::new();
    assert_eq!(plan_send_line(&s, b"whoami"), None);
    assert_eq!(plan_send_ws(&s, String::from("whoami")), None);
}

#[test]
fn line_send_appends_crlf() {
    let mut s: ConnectionState<u32> = ConnectionState::new();
    s.publish(1);
    let plan = plan_send_line(&s, b"clientlist");
    assert_eq!(plan, Some(b"clientlist\r\n".to_vec()));
}

#[test]
fn ws_send_is_verbatim() {
    let mut s: ConnectionState<u32> = ConnectionState::new();
    s.publish(1);
    let plan = plan_send_ws(&s, String::from("{\"type\":\"query\"}"));
    assert_eq!(plan, Some(String::from("{\"type\":\"query\"}")));
}
