//! Supervisor state machine for the WebSocket plugin transport.
//!
//! The machine decides; the application's transport loop performs the I/O
//! and hands every observation back to [`WsSupervisor::step`]. After a
//! successful upgrade the supervisor first sends one authentication frame;
//! only when that send succeeds is the write handle published and the
//! backoff reset. Connect failure, handshake failure and post-connect drops
//! all take the same recovery path, sleeping the scheduled backoff delay,
//! which doubles per consecutive failure up to the cap. The loop never
//! terminates on its own.
use crate::auth::{auth_frame_spec, build_auth_frame};
use crate::backoff::{delay_after_failures, Backoff, WS_MIN_DELAY_SECS};
use vstd::prelude::*;

verus! {

/// The fixed local endpoint of the WebSocket plugin protocol.
pub const WS_ENDPOINT: &'static str = "ws://127.0.0.1:5899";

/// What the transport loop observed since the last step.
#[derive(Debug, PartialEq, Eq)]
pub enum WsEvent {
    /// The WebSocket connect and upgrade completed.
    UpgradeOk,
    /// The connect or upgrade failed (the transport's own failure; no
    /// explicit timeout is applied on top of it).
    UpgradeFailed,
    /// The authentication frame was sent successfully.
    AuthSendOk,
    /// Sending the authentication frame failed.
    AuthSendFailed,
    /// One inbound text frame, forwarded verbatim.
    TextFrame(String),
    /// One inbound non-text frame; ignored.
    OtherFrame,
    /// A close frame arrived or the stream ended.
    Closed,
    /// A transport error ended the read loop.
    ReadFailed,
}

/// What the transport loop must do next, in order.
#[derive(Debug, PartialEq, Eq)]
pub enum WsAction {
    /// Attempt the WebSocket connect and upgrade to `WS_ENDPOINT`.
    Connect,
    /// Send this authentication frame as one text frame.
    SendAuth(String),
    /// Store the write half in the shared state.
    PublishHandle,
    /// Clear the write handle in the shared state.
    ClearHandle,
    /// Emit one message event carrying the inbound frame verbatim.
    EmitMessage(String),
    /// Emit the disconnected event.
    EmitDisconnected,
    /// Sleep this many seconds.
    Sleep(u64),
    /// Await the next inbound frame.
    Read,
}

/// A `WsAction` with its payloads abstracted to their views.
pub enum WsActionModel {
    Connect,
    SendAuth(Seq<char>),
    PublishHandle,
    ClearHandle,
    EmitMessage(Seq<char>),
    EmitDisconnected,
    Sleep(int),
    Read,
}

/// The model of one action.
pub open spec fn ws_action_model(a: WsAction) -> WsActionModel {
    match a {
        WsAction::Connect => WsActionModel::Connect,
        WsAction::SendAuth(f) => WsActionModel::SendAuth(f@),
        WsAction::PublishHandle => WsActionModel::PublishHandle,
        WsAction::ClearHandle => WsActionModel::ClearHandle,
        WsAction::EmitMessage(m) => WsActionModel::EmitMessage(m@),
        WsAction::EmitDisconnected => WsActionModel::EmitDisconnected,
        WsAction::Sleep(s) => WsActionModel::Sleep(s as int),
        WsAction::Read => WsActionModel::Read,
    }
}

/// The model of an action list.
pub open spec fn ws_actions_model(v: Seq<WsAction>) -> Seq<WsActionModel> {
    v.map_values(|a: WsAction| ws_action_model(a))
}

/// The recovery action list after the failure that ends the `n`-th
/// consecutive failure-free stretch: clear the handle if one was published,
/// emit disconnected, sleep the scheduled delay, retry.
pub open spec fn ws_recovery_actions(clear: bool, n: nat) -> Seq<WsActionModel> {
    let tail = seq![
        WsActionModel::EmitDisconnected,
        WsActionModel::Sleep(delay_after_failures(n)),
        WsActionModel::Connect,
    ];
    if clear {
        seq![WsActionModel::ClearHandle] + tail
    } else {
        tail
    }
}

/// Where the machine stands in its connection lifecycle.
#[derive(Clone, Copy, Debug, PartialEq, Eq)]
pub enum WsPhase {
    /// Between attempts or mid-attempt; no live connection.
    Connecting,
    /// Upgraded; the authentication frame is on its way out.
    Authenticating,
    /// Authenticated and being read, handle published.
    Connected,
}

/// The supervisor for the WebSocket transport: lifecycle phase, backoff
/// state, and the API key supplied with the start request.
pub struct WsSupervisor {
    /// Current lifecycle phase.
    pub phase: WsPhase,
    /// Reconnect delay schedule state.
    pub backoff: Backoff,
    /// The caller-supplied API key embedded in every authentication frame.
    pub api_key: String,
}

impl WsSupervisor {
    /// The API key as supplied with the start request.
    pub open spec fn key(self) -> Seq<char> {
        self.api_key@
    }

    /// The backoff delay matches its recorded failure count.
    pub open spec fn wf(self) -> bool {
        self.backoff.wf()
    }

    /// A supervisor about to make its first connect attempt with the given
    /// API key.
    pub fn new(api_key: String) -> (s: WsSupervisor)
        ensures
            s.wf(),
            s.phase is Connecting,
            s.key() == api_key@,
            s.backoff.failures() == 0,
            s.backoff.current() == WS_MIN_DELAY_SECS,
    {
        WsSupervisor { phase: WsPhase::Connecting, backoff: Backoff::new(), api_key }
    }

    /// Advance the machine by one observed event; returns the actions the
    /// transport loop must perform next, in order. Events that cannot occur
    /// in the current phase change nothing and demand nothing.
    pub fn step(&mut self, event: WsEvent) -> (actions: Vec<WsAction>)
        requires
            old(self).wf(),
        ensures
            final(self).wf(),
            final(self).key() == old(self).key(),
            ({
                let acts = ws_actions_model(actions@);
                let n = old(self).backoff.failures();
                match old(self).phase {
                    WsPhase::Connecting => match event {
                        WsEvent::UpgradeOk => final(self).phase is Authenticating
                            && final(self).backoff == old(self).backoff && acts == seq![
                            WsActionModel::SendAuth(auth_frame_spec(old(self).key())),
                        ],
                        WsEvent::UpgradeFailed => final(self).phase is Connecting
                            && final(self).backoff.failures() == n + 1 && acts
                            == ws_recovery_actions(false, n),
                        _ => *final(self) == *old(self) && acts == Seq::<WsActionModel>::empty(),
                    },
                    WsPhase::Authenticating => match event {
                        WsEvent::AuthSendOk => final(self).phase is Connected
                            && final(self).backoff.failures() == 0 && acts == seq![
                            WsActionModel::PublishHandle,
                            WsActionModel::Read,
                        ],
                        WsEvent::AuthSendFailed => final(self).phase is Connecting
                            && final(self).backoff.failures() == n + 1 && acts
                            == ws_recovery_actions(false, n),
                        _ => *final(self) == *old(self) && acts == Seq::<WsActionModel>::empty(),
                    },
                    WsPhase::Connected => match event {
                        WsEvent::TextFrame(t) => *final(self) == *old(self) && acts == seq![
                            WsActionModel::EmitMessage(t@),
                            WsActionModel::Read,
                        ],
                        WsEvent::OtherFrame => *final(self) == *old(self) && acts == seq![
                            WsActionModel::Read,
                        ],
                        WsEvent::Closed | WsEvent::ReadFailed => final(self).phase is Connecting
                            && final(self).backoff.failures() == n + 1 && acts
                            == ws_recovery_actions(true, n),
                        _ => *final(self) == *old(self) && acts == Seq::<WsActionModel>::empty(),
                    },
                }
            }),
    {
        let mut actions: Vec<WsAction> = Vec::new();
        proof {
            assert(ws_actions_model(actions@) =~= Seq::<WsActionModel>::empty());
        }
        match self.phase {
            WsPhase::Connecting => match event {
                WsEvent::UpgradeOk => {
                    self.phase = WsPhase::Authenticating;
                    let frame = build_auth_frame(self.api_key.as_str());
                    actions.push(WsAction::SendAuth(frame));
                    proof {
                        assert(ws_actions_model(actions@) =~~= seq![
                            WsActionModel::SendAuth(auth_frame_spec(old(self).key())),
                        ]);
                    }
                },
                WsEvent::UpgradeFailed => {
                    self.phase = WsPhase::Connecting;
                    let d = self.backoff.on_failure();
                    actions.push(WsAction::EmitDisconnected);
                    actions.push(WsAction::Sleep(d));
                    actions.push(WsAction::Connect);
                    proof {
                        assert(ws_actions_model(actions@) =~= ws_recovery_actions(
                            false,
                            old(self).backoff.failures(),
                        ));
                    }
                },
                _ => {},
            },
            WsPhase::Authenticating => match event {
                WsEvent::AuthSendOk => {
                    self.phase = WsPhase::Connected;
                    self.backoff.on_connected();
                    actions.push(WsAction::PublishHandle);
                    actions.push(WsAction::Read);
                    proof {
                        assert(ws_actions_model(actions@) =~= seq![
                            WsActionModel::PublishHandle,
                            WsActionModel::Read,
                        ]);
                    }
                },
                WsEvent::AuthSendFailed => {
                    self.phase = WsPhase::Connecting;
                    let d = self.backoff.on_failure();
                    actions.push(WsAction::EmitDisconnected);
                    actions.push(WsAction::Sleep(d));
                    actions.push(WsAction::Connect);
                    proof {
                        assert(ws_actions_model(actions@) =~= ws_recovery_actions(
                            false,
                            old(self).backoff.failures(),
                        ));
                    }
                },
                _ => {},
            },
            WsPhase::Connected => match event {
                WsEvent::TextFrame(t) => {
                    let ghost tv: Seq<char> = t@;
                    actions.push(WsAction::EmitMessage(t));
                    actions.push(WsAction::Read);
                    proof {
                        assert(ws_actions_model(actions@) =~~= seq![
                            WsActionModel::EmitMessage(tv),
                            WsActionModel::Read,
                        ]);
                    }
                },
                WsEvent::OtherFrame => {
                    actions.push(WsAction::Read);
                    proof {
                        assert(ws_actions_model(actions@) =~= seq![WsActionModel::Read]);
                    }
                },
                WsEvent::Closed | WsEvent::ReadFailed => {
                    self.phase = WsPhase::Connecting;
                    let d = self.backoff.on_failure();
                    actions.push(WsAction::ClearHandle);
                    actions.push(WsAction::EmitDisconnected);
                    actions.push(WsAction::Sleep(d));
                    actions.push(WsAction::Connect);
                    proof {
                        assert(ws_actions_model(actions@) =~= ws_recovery_actions(
                            true,
                            old(self).backoff.failures(),
                        ));
                    }
                },
                _ => {},
            },
        }
        actions
    }
}

} // verus!
