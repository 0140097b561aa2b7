//! Supervisor state machine for the line-oriented TCP transport.
//!
//! The machine decides; the application's transport loop performs the I/O.
//! The loop hands every observation (connect outcome, read outcome) to
//! [`LineSupervisor::step`] and then performs the returned actions in order.
//! Every failure class — connect timeout, OS-level connect error, read error,
//! peer close — is routed to one recovery path: clear the shared handle,
//! emit a disconnected event, sleep the fixed retry delay, reconnect. The
//! loop never terminates on its own.
use crate::backoff::LINE_RETRY_DELAY_SECS;
use crate::decoder::{emitted_lines, split_stream, views_of, FrameDecoder, LINE_FEED};
use vstd::prelude::*;

verus! {

/// The fixed local endpoint of the line-oriented control protocol.
pub const LINE_ENDPOINT: &'static str = "127.0.0.1:25639";

/// TCP connect attempts are bounded by this timeout, in seconds.
pub const CONNECT_TIMEOUT_SECS: u64 = 2;

/// Each individual read is bounded by this idle timeout, in seconds; a
/// timeout keeps the connection alive, the read is simply reissued.
pub const READ_IDLE_TIMEOUT_SECS: u64 = 60;

/// What the transport loop observed since the last step.
#[derive(Debug, PartialEq, Eq)]
pub enum LineEvent {
    /// The TCP connect succeeded within the timeout.
    ConnectOk,
    /// The TCP connect failed at the OS level.
    ConnectFailed,
    /// The TCP connect attempt timed out.
    ConnectTimedOut,
    /// One read returned these bytes.
    Data(Vec<u8>),
    /// One read timed out with the connection silent but alive.
    ReadTimedOut,
    /// A zero-byte read: the peer closed the connection gracefully.
    Closed,
    /// A read failed with an I/O error.
    ReadFailed,
}

/// What the transport loop must do next, in order.
#[derive(Debug, PartialEq, Eq)]
pub enum LineAction {
    /// Attempt a TCP connect to `LINE_ENDPOINT`, bounded by
    /// `CONNECT_TIMEOUT_SECS`.
    Connect,
    /// Split the stream and store the write half in the shared state.
    PublishHandle,
    /// Clear the write handle in the shared state.
    ClearHandle,
    /// Emit the connected event.
    EmitConnected,
    /// Emit one message event; the payload is a decoded line with its `\n`
    /// terminator re-appended, reproducing the wire framing.
    EmitMessage(Vec<u8>),
    /// Emit the disconnected event.
    EmitDisconnected,
    /// Sleep this many seconds.
    Sleep(u64),
    /// Issue the next read, bounded by `READ_IDLE_TIMEOUT_SECS`.
    Read,
}

/// A `LineAction` with its payload abstracted to its view.
pub enum LineActionModel {
    Connect,
    PublishHandle,
    ClearHandle,
    EmitConnected,
    EmitMessage(Seq<u8>),
    EmitDisconnected,
    Sleep(int),
    Read,
}

/// The model of one action.
pub open spec fn action_model(a: LineAction) -> LineActionModel {
    match a {
        LineAction::Connect => LineActionModel::Connect,
        LineAction::PublishHandle => LineActionModel::PublishHandle,
        LineAction::ClearHandle => LineActionModel::ClearHandle,
        LineAction::EmitConnected => LineActionModel::EmitConnected,
        LineAction::EmitMessage(m) => LineActionModel::EmitMessage(m@),
        LineAction::EmitDisconnected => LineActionModel::EmitDisconnected,
        LineAction::Sleep(s) => LineActionModel::Sleep(s as int),
        LineAction::Read => LineActionModel::Read,
    }
}

/// The model of an action list.
pub open spec fn actions_model(v: Seq<LineAction>) -> Seq<LineActionModel> {
    v.map_values(|a: LineAction| action_model(a))
}

/// One message action per decoded line, in order, each payload the line with
/// its `\n` re-appended.
pub open spec fn message_actions(lines: Seq<Seq<u8>>) -> Seq<LineActionModel> {
    lines.map_values(|l: Seq<u8>| LineActionModel::EmitMessage(l + seq![LINE_FEED]))
}

/// The recovery action list: emit disconnected, sleep the fixed delay,
/// reconnect — preceded by clearing the shared handle when a connection had
/// been established.
pub open spec fn recovery_actions(clear: bool) -> Seq<LineActionModel> {
    let tail = seq![
        LineActionModel::EmitDisconnected,
        LineActionModel::Sleep(LINE_RETRY_DELAY_SECS as int),
        LineActionModel::Connect,
    ];
    if clear {
        seq![LineActionModel::ClearHandle] + tail
    } else {
        tail
    }
}

/// Where the machine stands in its connection lifecycle.
#[derive(Clone, Copy, Debug, PartialEq, Eq)]
pub enum LinePhase {
    /// Between attempts or mid-attempt; no live connection.
    Connecting,
    /// A connection is up and being read.
    Connected,
}

/// The supervisor for the line-oriented transport: its lifecycle phase and
/// the frame decoder whose buffer survives across reads of one connection.
pub struct LineSupervisor {
    /// Current lifecycle phase.
    pub phase: LinePhase,
    /// Decoder whose buffer survives across reads of one connection.
    pub decoder: FrameDecoder,
}

impl LineSupervisor {
    /// Bytes read on the current connection that no delimiter has completed.
    pub open spec fn pending(self) -> Seq<u8> {
        self.decoder.pending()
    }

    /// The decoder's buffered remainder contains no delimiter.
    pub open spec fn wf(self) -> bool {
        self.decoder.wf()
    }

    /// A supervisor about to make its first connect attempt.
    pub fn new() -> (s: LineSupervisor)
        ensures
            s.wf(),
            s.phase is Connecting,
            s.pending() == Seq::<u8>::empty(),
    {
        LineSupervisor { phase: LinePhase::Connecting, decoder: FrameDecoder::new() }
    }

    /// Advance the machine by one observed event; returns the actions the
    /// transport loop must perform next, in order. Events that cannot occur
    /// in the current phase change nothing and demand nothing.
    pub fn step(&mut self, event: LineEvent) -> (actions: Vec<LineAction>)
        requires
            old(self).wf(),
        ensures
            final(self).wf(),
            ({
                let acts = actions_model(actions@);
                match old(self).phase {
                    LinePhase::Connecting => match event {
                        LineEvent::ConnectOk => final(self).phase is Connected
                            && final(self).pending() == Seq::<u8>::empty() && acts == seq![
                            LineActionModel::PublishHandle,
                            LineActionModel::EmitConnected,
                            LineActionModel::Read,
                        ],
                        LineEvent::ConnectFailed | LineEvent::ConnectTimedOut => *final(self) == *old(self) && acts == recovery_actions(false),
                        _ => *final(self) == *old(self) && acts == Seq::<LineActionModel>::empty(),
                    },
                    LinePhase::Connected => match event {
                        LineEvent::Data(chunk) => final(self).phase is Connected
                            && final(self).pending() == split_stream(
                            old(self).pending() + chunk@,
                        ).1 && acts == message_actions(
                            emitted_lines(old(self).pending() + chunk@),
                        ).push(LineActionModel::Read),
                        LineEvent::ReadTimedOut => *final(self) == *old(self) && acts == seq![
                            LineActionModel::Read,
                        ],
                        LineEvent::Closed | LineEvent::ReadFailed => final(self).phase
                            is Connecting && final(self).pending() == old(self).pending()
                            && acts == recovery_actions(true),
                        _ => *final(self) == *old(self) && acts == Seq::<LineActionModel>::empty(),
                    },
                }
            }),
    {
        let mut actions: Vec<LineAction> = Vec::new();
        proof {
            assert(actions_model(actions@) =~= Seq::<LineActionModel>::empty());
        }
        match self.phase {
            LinePhase::Connecting => match event {
                LineEvent::ConnectOk => {
                    self.phase = LinePhase::Connected;
                    self.decoder.clear();
                    actions.push(LineAction::PublishHandle);
                    actions.push(LineAction::EmitConnected);
                    actions.push(LineAction::Read);
                    proof {
                        assert(actions_model(actions@) =~= seq![
                            LineActionModel::PublishHandle,
                            LineActionModel::EmitConnected,
                            LineActionModel::Read,
                        ]);
                    }
                },
                LineEvent::ConnectFailed | LineEvent::ConnectTimedOut => {
                    actions.push(LineAction::EmitDisconnected);
                    actions.push(LineAction::Sleep(LINE_RETRY_DELAY_SECS));
                    actions.push(LineAction::Connect);
                    proof {
                        assert(actions_model(actions@) =~= recovery_actions(false));
                    }
                },
                _ => {},
            },
            LinePhase::Connected => match event {
                LineEvent::Data(chunk) => {
                    let mut lines = self.decoder.feed(chunk.as_slice());
                    let ghost all: Seq<Seq<u8>> = views_of(lines@);
                    let ghost j: int = 0;
                    proof {
                        assert(all.take(0) =~= Seq::<Seq<u8>>::empty());
                        assert(message_actions(all.take(0)) =~= Seq::<
                            LineActionModel,
                        >::empty());
                        assert(views_of(lines@) =~= all.skip(0));
                    }
                    while lines.len() > 0
                        invariant
                            0 <= j <= all.len(),
                            j + lines@.len() == all.len(),
                            views_of(lines@) == all.skip(j),
                            actions_model(actions@) == message_actions(all.take(j)),
                        decreases lines@.len(),
                    {
                        let ghost lines_pre: Seq<Vec<u8>> = lines@;
                        let mut l = lines.remove(0);
                        proof {
                            assert(views_of(lines_pre)[0] == all.skip(j)[0]);
                            assert(l@ == all[j]);
                            assert forall|m: int| 0 <= m < lines@.len() implies views_of(
                                lines@,
                            )[m] == all.skip(j + 1)[m] by {
                                assert(lines@[m] == lines_pre[m + 1]);
                                assert(views_of(lines_pre)[m + 1] == all.skip(j)[m + 1]);
                            }
                            assert(views_of(lines@) =~= all.skip(j + 1));
                        }
                        let ghost lv: Seq<u8> = l@;
                        l.push(LINE_FEED);
                        let ghost acts0: Seq<LineAction> = actions@;
                        actions.push(LineAction::EmitMessage(l));
                        proof {
                            assert(lv + seq![LINE_FEED] =~= lv.push(LINE_FEED));
                            assert(actions_model(actions@) =~~= actions_model(acts0).push(
                                LineActionModel::EmitMessage(lv + seq![LINE_FEED]),
                            ));
                            assert(all.take(j + 1).drop_last() =~= all.take(j));
                            assert(all.take(j + 1).last() == all[j]);
                            assert(message_actions(all.take(j + 1)) =~~= message_actions(
                                all.take(j),
                            ).push(LineActionModel::EmitMessage(all[j] + seq![LINE_FEED])));
                            j = j + 1;
                        }
                    }
                    proof {
                        assert(all.take(all.len() as int) =~= all);
                    }
                    let ghost acts1: Seq<LineAction> = actions@;
                    actions.push(LineAction::Read);
                    proof {
                        assert(actions_model(actions@) =~= actions_model(acts1).push(
                            LineActionModel::Read,
                        ));
                    }
                },
                LineEvent::ReadTimedOut => {
                    actions.push(LineAction::Read);
                    proof {
                        assert(actions_model(actions@) =~= seq![LineActionModel::Read]);
                    }
                },
                LineEvent::Closed | LineEvent::ReadFailed => {
                    self.phase = LinePhase::Connecting;
                    actions.push(LineAction::ClearHandle);
                    actions.push(LineAction::EmitDisconnected);
                    actions.push(LineAction::Sleep(LINE_RETRY_DELAY_SECS));
                    actions.push(LineAction::Connect);
                    proof {
                        assert(actions_model(actions@) =~= recovery_actions(true));
                    }
                },
                _ => {},
            },
        }
        actions
    }
}

} // verus!
