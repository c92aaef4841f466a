//! The WhatsApp adapter protocol (commands in, events out) and the
//! deterministic stub adapter as a state machine.
//!
//! `app/` owns the channels: it hands each command to [`StubWa::handle`],
//! sends the reply on the command's ack channel and broadcasts the events.

use crate::domain::wa::WaConnState;
use crate::clock::{now_micros, representable};
use crate::ids::{new_uuid, uuid_simple};
use crate::text::{fixed_digits, opt_view};
use vstd::prelude::*;

verus! {

/// Commands handed to the WA owner task; each is answered by a [`WaReply`].
#[derive(Debug)]
pub enum WaCmd {
    SendText { jid: String, body: String, reply_to_external_id: Option<String> },
    Reconnect,
    GetState,
}

/// The answer to a [`WaCmd`], sent back on the command's ack channel.
#[derive(Debug)]
pub enum WaReply {
    /// The upstream message id of the sent text, or the failure.
    Sent(Result<String, String>),
    Reconnected(Result<(), String>),
    State(WaConnState),
}

/// Events emitted by the owner task; `ts` is in microseconds since the
/// Unix epoch.
#[derive(Debug, Clone)]
pub enum WaEvent {
    StateChanged(WaConnState),
    QrUpdated(String),
    MessageReceived {
        external_id: String,
        jid: String,
        body: String,
        ts: i64,
        from_me: bool,
        reply_to_external_id: Option<String>,
    },
    ChatMetaUpdated { jid: String, display_name: String },
}

/// The deterministic fake adapter for offline dev and CI; its behaviour is
/// the [`StubWa`] state machine.
#[derive(Debug, Clone, Copy)]
pub struct StubWaClient;

/// The fake pairing payload the stub announces.
pub const STUB_QR: &'static str = "STUB-QR:2@AbCdEf==,xyz,whatsapp-web-shared-stub";

/// The stub adapter's cached connection state and QR.
#[derive(Debug)]
pub struct StubWa {
    pub state: WaConnState,
    pub qr: Option<String>,
}

/// What handling `cmd` at `now` does: the state after it and the reply
/// and events it produces.
pub open spec fn handled(
    before: StubWa,
    after: StubWa,
    cmd: WaCmd,
    now: i64,
    r: (WaReply, Vec<WaEvent>),
) -> bool {
    match cmd {
                WaCmd::GetState => {
                    &&& after == before
                    &&& r.0 == WaReply::State(before.state)
                    &&& r.1@.len() == 0
                },
                WaCmd::Reconnect => {
                    &&& after.state == WaConnState::Connected
                    &&& after.qr is None
                    &&& r.0 matches WaReply::Reconnected(Ok(()))
                    &&& r.1@ == seq![WaEvent::StateChanged(WaConnState::Connected)]
                },
                WaCmd::SendText { jid, body, reply_to_external_id } => {
                    &&& after == before
                    &&& r.1@.len() == 1
                    &&& exists|u: u128|
                        #![trigger fixed_digits(u as nat, 16, 32)]
                        {
                            let ext = "stub-"@ + fixed_digits(u as nat, 16, 32);
                            &&& r.0 matches WaReply::Sent(Ok(id)) && id@ == ext
                            &&& r.1@[0] matches WaEvent::MessageReceived {
                                external_id,
                                jid: j,
                                body: b,
                                ts,
                                from_me,
                                reply_to_external_id: rt,
                            } && external_id@ == ext && j == jid && b == body && ts == now
                                && from_me && rt == reply_to_external_id
                        }
                },
    }
}

impl StubWa {
    /// The state on spawn: `Disconnected`, no QR.
    pub fn new() -> (s: StubWa)
        ensures
            s.state == WaConnState::Disconnected,
            s.qr is None,
    {
        StubWa { state: WaConnState::Disconnected, qr: None }
    }

    /// After the start-up delay: move to `WaitingQr`, publish the fake QR.
    /// Returns the events to broadcast, in order.
    pub fn announce(&mut self) -> (evs: Vec<WaEvent>)
        ensures
            final(self).state == WaConnState::WaitingQr,
            opt_view(final(self).qr) == Some(STUB_QR@),
            evs@.len() == 2,
            evs@[0] == WaEvent::StateChanged(WaConnState::WaitingQr),
            evs@[1] matches WaEvent::QrUpdated(q) && q@ == STUB_QR@,
    {
        self.state = WaConnState::WaitingQr;
        self.qr = Some(String::from_str(STUB_QR));
        let mut evs: Vec<WaEvent> = Vec::new();
        evs.push(WaEvent::StateChanged(WaConnState::WaitingQr));
        evs.push(WaEvent::QrUpdated(String::from_str(STUB_QR)));
        evs
    }

    /// Handle one command at instant `now`: the reply for its ack and the
    /// events to broadcast. `Reconnect` flips to `Connected` and clears the
    /// QR; `SendText` answers a fake `stub-<uuid>` id and echoes the text
    /// back as an inbound event from us; `GetState` reads the state.
    pub fn handle_at(&mut self, cmd: WaCmd, now: i64) -> (r: (WaReply, Vec<WaEvent>))
        ensures
            handled(*old(self), *final(self), cmd, now, r),
    {
        match cmd {
            WaCmd::GetState => {
                let s = self.state.copied();
                (WaReply::State(s), Vec::new())
            },
            WaCmd::Reconnect => {
                self.state = WaConnState::Connected;
                self.qr = None;
                let mut evs: Vec<WaEvent> = Vec::new();
                evs.push(WaEvent::StateChanged(WaConnState::Connected));
                proof {
                    assert(evs@ =~= seq![WaEvent::StateChanged(WaConnState::Connected)]);
                }
                (WaReply::Reconnected(Ok(())), evs)
            },
            WaCmd::SendText { jid, body, reply_to_external_id } => {
                let u = new_uuid();
                let mut external = String::from_str("stub-");
                let digits = uuid_simple(u);
                external.append(digits.as_str());
                let reply_id = external.clone();
                let mut evs: Vec<WaEvent> = Vec::new();
                evs.push(
                    WaEvent::MessageReceived {
                        external_id: external,
                        jid,
                        body,
                        ts: now,
                        from_me: true,
                        reply_to_external_id,
                    },
                );
                (WaReply::Sent(Ok(reply_id)), evs)
            },
        }
    }

    /// Handle one command at the current instant.
    pub fn handle(&mut self, cmd: WaCmd) -> (r: (WaReply, Vec<WaEvent>))
        ensures
            exists|t: i64|
                #![trigger handled(*old(self), *final(self), cmd, t, r)]
                representable(t as int) && handled(*old(self), *final(self), cmd, t, r),
    {
        let now = now_micros();
        self.handle_at(cmd, now)
    }
}

/// One step of a run without `Reconnect` keeps an unconnected stub
/// unconnected.
proof fn lemma_unconnected_prefix(
    states: Seq<StubWa>,
    cmds: Seq<WaCmd>,
    times: Seq<i64>,
    replies: Seq<(WaReply, Vec<WaEvent>)>,
    k: int,
)
    requires
        states.len() == cmds.len() + 1,
        times.len() == cmds.len(),
        replies.len() == cmds.len(),
        !(states[0].state is Connected),
        forall|i: int|
            0 <= i < cmds.len() ==> #[trigger] handled(states[i], states[i + 1], cmds[i], times[i], replies[i]),
        forall|i: int| 0 <= i < cmds.len() ==> !(#[trigger] cmds[i] is Reconnect),
        0 <= k < states.len(),
    ensures
        !(states[k].state is Connected),
    decreases k,
{
    if k > 0 {
        lemma_unconnected_prefix(states, cmds, times, replies, k - 1);
        let j = k - 1;
        assert(handled(states[j], states[j + 1], cmds[j], times[j], replies[j]));
        assert(!(cmds[j] is Reconnect));
    }
}

/// The stub never connects on its own: over any run of commands holding
/// no `Reconnect`, a stub that starts unconnected (as `new` and `announce`
/// leave it) stays unconnected; only `Reconnect` reaches `Connected`.
pub proof fn stub_connects_only_on_reconnect(
    states: Seq<StubWa>,
    cmds: Seq<WaCmd>,
    times: Seq<i64>,
    replies: Seq<(WaReply, Vec<WaEvent>)>,
)
    requires
        states.len() == cmds.len() + 1,
        times.len() == cmds.len(),
        replies.len() == cmds.len(),
        !(states[0].state is Connected),
        forall|i: int|
            0 <= i < cmds.len() ==> #[trigger] handled(states[i], states[i + 1], cmds[i], times[i], replies[i]),
        forall|i: int| 0 <= i < cmds.len() ==> !(#[trigger] cmds[i] is Reconnect),
    ensures
        forall|k: int| 0 <= k < states.len() ==> !(#[trigger] states[k].state is Connected),
{
    assert forall|k: int| 0 <= k < states.len() implies !(#[trigger] states[k].state is Connected) by {
        lemma_unconnected_prefix(states, cmds, times, replies, k);
    }
}

} // verus!
