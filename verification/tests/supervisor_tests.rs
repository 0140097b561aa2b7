use overlive_bridge::auth::build_auth_frame;
use overlive_bridge::line_supervisor::{LineAction, LineEvent, LinePhase, LineSupervisor};
use overlive_bridge::ws_supervisor::{WsAction, WsEvent, WsPhase, WsSupervisor};

#[test]
fn line_connect_then_one_message() {
    // A server accepts the connection and sends one notification line: the
    // core emits exactly one message event, payload framed with `\n`.
    let mut sup = LineSupervisor::new();
    let acts = sup.step(LineEvent::ConnectOk);
    assert_eq!(
        acts,
        vec![LineAction::PublishHandle, LineAction::EmitConnected, LineAction::Read]
    );
    let acts = sup.step(LineEvent::Data(b"notifytalkstatuschange id=1\n".to_vec()));
    assert_eq!(
        acts,
        vec![
            LineAction::EmitMessage(b"notifytalkstatuschange id=1\n".to_vec()),
            LineAction::Read,
        ]
    );
}

#[test]
fn line_partial_line_across_two_reads() {
    let mut sup = LineSupervisor::new();
    sup.step(LineEvent::ConnectOk);
    let acts = sup.step(LineEvent::Data(b"AB".to_vec()));
    assert_eq!(acts, vec![LineAction::Read]);
    let acts = sup.step(LineEvent::Data(b"CD\n".to_vec()));
    assert_eq!(
        acts,
        vec![LineAction::EmitMessage(b"ABCD\n".to_vec()), LineAction::Read]
    );
}

#[test]
fn line_connect_timeout_retries_every_three_seconds() {
    // A server that never accepts: after each bounded attempt the core
    // emits disconnected and schedules the next attempt 3 seconds later,
    // indefinitely.
    let mut sup = LineSupervisor::new();
    for _ in 0..3 {
        let acts = sup.step(LineEvent::ConnectTimedOut);
        assert_eq!(
            acts,
            vec![
                LineAction::EmitDisconnected,
                LineAction::Sleep(3),
                LineAction::Connect,
            ]
        );
        assert_eq!(sup.phase, LinePhase::Connecting);
    }
}

#[test]
fn line_connect_refused_takes_same_recovery_path() {
    let mut sup = LineSupervisor::new();
    let acts = sup.step(LineEvent::ConnectFailed);
    assert_eq!(
        acts,
        vec![
            LineAction::EmitDisconnected,
            LineAction::Sleep(3),
            LineAction::Connect,
        ]
    );
}

#[test]
fn line_read_timeout_keeps_connection_alive() {
    let mut sup = LineSupervisor::new();
    sup.step(LineEvent::ConnectOk);
    let acts = sup.step(LineEvent::ReadTimedOut);
    assert_eq!(acts, vec![LineAction::Read]);
    assert_eq!(sup.phase, LinePhase::Connected);
}

#[test]
fn line_peer_close_clears_handle_and_recovers() {
    let mut sup = LineSupervisor::new();
    sup.step(LineEvent::ConnectOk);
    let acts = sup.step(LineEvent::Closed);
    assert_eq!(
        acts,
        vec![
            LineAction::ClearHandle,
            LineAction::EmitDisconnected,
            LineAction::Sleep(3),
            LineAction::Connect,
        ]
    );
    assert_eq!(sup.phase, LinePhase::Connecting);
}

#[test]
fn line_arbitrary_bytes_pass_through() {
    // The decoder is byte-clean: a complete non-blank line is emitted even
    // when its bytes are not valid UTF-8, and a multi-byte character split
    // across two reads survives the chunk boundary.
    let mut sup = LineSupervisor::new();
    sup.step(LineEvent::ConnectOk);
    let acts = sup.step(LineEvent::Data(vec![0xff, 0xfe, b'\n']));
    assert_eq!(
        acts,
        vec![
            LineAction::EmitMessage(vec![0xff, 0xfe, b'\n']),
            LineAction::Read,
        ]
    );
    // "é" (0xC3 0xA9) split across two reads arrives whole.
    let acts = sup.step(LineEvent::Data(vec![b'x', 0xc3]));
    assert_eq!(acts, vec![LineAction::Read]);
    let acts = sup.step(LineEvent::Data(vec![0xa9, b'\n']));
    assert_eq!(
        acts,
        vec![
            LineAction::EmitMessage(vec![b'x', 0xc3, 0xa9, b'\n']),
            LineAction::Read,
        ]
    );
}

#[test]
fn line_blank_lines_produce_no_events() {
    let mut sup = LineSupervisor::new();
    sup.step(LineEvent::ConnectOk);
    let acts = sup.step(LineEvent::Data(b"\r\n  \n".to_vec()));
    assert_eq!(acts, vec![LineAction::Read]);
}

#[test]
fn line_reconnect_drops_old_backlog() {
    let mut sup = LineSupervisor::new();
    sup.step(LineEvent::ConnectOk);
    sup.step(LineEvent::Data(b"half".to_vec()));
    sup.step(LineEvent::ReadFailed);
    sup.step(LineEvent::ConnectOk);
    let acts = sup.step(LineEvent::Data(b"whole\n".to_vec()));
    assert_eq!(
        acts,
        vec![LineAction::EmitMessage(b"whole\n".to_vec()), LineAction::Read]
    );
}

#[test]
fn line_events_out_of_phase_are_ignored() {
    let mut sup = LineSupervisor::new();
    assert!(sup.step(LineEvent::ReadTimedOut).is_empty());
    assert!(sup.step(LineEvent::Closed).is_empty());
    sup.step(LineEvent::ConnectOk);
    assert!(sup.step(LineEvent::ConnectOk).is_empty());
}

#[test]
fn ws_upgrade_sends_auth_then_publishes_and_recovers_after_three_seconds() {
    // A server accepts the upgrade: the core sends the auth frame with the
    // API key embedded, publishes the handle once the send succeeded, and
    // when the server closes the socket it emits disconnected and reattempts
    // after 3 seconds.
    let key = "my-api-key";
    let mut sup = WsSupervisor::new(String::from(key));
    let acts = sup.step(WsEvent::UpgradeOk);
    assert_eq!(acts, vec![WsAction::SendAuth(build_auth_frame(key))]);
    assert_eq!(sup.phase, WsPhase::Authenticating);
    if let WsAction::SendAuth(frame) = &acts[0] {
        assert!(frame.contains("\"apiKey\":\"my-api-key\""));
    } else {
        panic!("expected an auth send");
    }
    let acts = sup.step(WsEvent::AuthSendOk);
    assert_eq!(acts, vec![WsAction::PublishHandle, WsAction::Read]);
    assert_eq!(sup.phase, WsPhase::Connected);
    let acts = sup.step(WsEvent::Closed);
    assert_eq!(
        acts,
        vec![
            WsAction::ClearHandle,
            WsAction::EmitDisconnected,
            WsAction::Sleep(3),
            WsAction::Connect,
        ]
    );
    assert_eq!(sup.phase, WsPhase::Connecting);
}

#[test]
fn ws_backoff_grows_across_failures_and_resets_on_success() {
    let mut sup = WsSupervisor::new(String::from("k"));
    let mut sleeps: Vec<u64> = Vec::new();
    for _ in 0..6 {
        let acts = sup.step(WsEvent::UpgradeFailed);
        match &acts[1] {
            WsAction::Sleep(d) => sleeps.push(*d),
            other => panic!("expected a sleep, got {:?}", other),
        }
    }
    assert_eq!(sleeps, vec![3, 6, 12, 24, 30, 30]);
    sup.step(WsEvent::UpgradeOk);
    sup.step(WsEvent::AuthSendOk);
    let acts = sup.step(WsEvent::ReadFailed);
    assert_eq!(acts[2], WsAction::Sleep(3));
}

#[test]
fn ws_failed_handshake_does_not_publish_or_reset_backoff() {
    let mut sup = WsSupervisor::new(String::from("k"));
    sup.step(WsEvent::UpgradeFailed);
    sup.step(WsEvent::UpgradeFailed);
    sup.step(WsEvent::UpgradeOk);
    let acts = sup.step(WsEvent::AuthSendFailed);
    assert_eq!(
        acts,
        vec![
            WsAction::EmitDisconnected,
            WsAction::Sleep(12),
            WsAction::Connect,
        ]
    );
    assert_eq!(sup.phase, WsPhase::Connecting);
}

#[test]
fn ws_text_frames_are_forwarded_verbatim() {
    let mut sup = WsSupervisor::new(String::from("k"));
    sup.step(WsEvent::UpgradeOk);
    sup.step(WsEvent::AuthSendOk);
    let acts = sup.step(WsEvent::TextFrame(String::from("{\"event\":\"talk\"}")));
    assert_eq!(
        acts,
        vec![
            WsAction::EmitMessage(String::from("{\"event\":\"talk\"}")),
            WsAction::Read,
        ]
    );
}

#[test]
fn ws_non_text_frames_are_ignored() {
    let mut sup = WsSupervisor::new(String::from("k"));
    sup.step(WsEvent::UpgradeOk);
    sup.step(WsEvent::AuthSendOk);
    let acts = sup.step(WsEvent::OtherFrame);
    assert_eq!(acts, vec![WsAction::Read]);
}

#[test]
fn ws_events_out_of_phase_are_ignored() {
    let mut sup = WsSupervisor::new(String::from("k"));
    assert!(sup.step(WsEvent::AuthSendOk).is_empty());
    assert!(sup.step(WsEvent::TextFrame(String::from("x"))).is_empty());
    sup.step(WsEvent::UpgradeOk);
    assert!(sup.step(WsEvent::UpgradeOk).is_empty());
}
