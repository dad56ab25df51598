//! The channel multiplexer: the single reader of an interactive channel and
//! the single point through which writes reach it. Its decisions are a state
//! machine; whoever runs the loop performs the actions it returns.
use vstd::prelude::*;
use crate::ssh::{lossy_text, utf8_lossy, ChannelMessage, STDERR_EXT};
use crate::terminal::{EventView, TerminalEvent};

verus! {

/// Work queued by the consumer, in the order it was queued.
#[derive(Debug)]
pub enum LocalOp {
    Input(Vec<u8>),
    Resize(u32, u32),
}

/// What wakes the loop.
pub enum MuxInput {
    /// The next item of the local queue.
    Local(LocalOp),
    /// The consumer dropped the local queue.
    LocalClosed,
    /// A message from the remote side of the channel.
    Remote(ChannelMessage),
    /// Writing to the channel failed.
    WriteFailed,
}

/// What the loop must do next.
pub enum MuxAction {
    /// Send bytes to the remote side.
    Write(Vec<u8>),
    /// Send a window-change request.
    Resize(u32, u32),
    /// Hand an event to the consumer.
    Emit(TerminalEvent),
    /// Hand the final event to the consumer, release the channel and stop.
    Finish(TerminalEvent),
    /// Nothing.
    Idle,
}

/// What reached the remote side, abstractly.
pub enum RemoteEffect {
    Write(Seq<u8>),
    Resize(u32, u32),
}

/// The remote effect of a local operation.
pub open spec fn effect_of(op: LocalOp) -> RemoteEffect {
    match op {
        LocalOp::Input(b) => RemoteEffect::Write(b@),
        LocalOp::Resize(c, r) => RemoteEffect::Resize(c, r),
    }
}

/// The abstract state of a multiplexer: whether its loop still runs, the
/// events handed to the consumer so far, and what was sent to the remote side.
pub struct MuxModel {
    pub running: bool,
    pub trace: Seq<EventView>,
    pub forwarded: Seq<RemoteEffect>,
}

/// The model after one input. A stopped loop ignores everything.
pub open spec fn mux_step(m: MuxModel, inp: MuxInput) -> MuxModel {
    if !m.running {
        m
    } else {
        match inp {
            MuxInput::Local(op) => MuxModel { forwarded: m.forwarded.push(effect_of(op)), ..m },
            MuxInput::Remote(ChannelMessage::Data(d)) => MuxModel {
                trace: m.trace.push(EventView::Data(utf8_lossy(d@))),
                ..m
            },
            MuxInput::Remote(ChannelMessage::ExtendedData { ext, data }) => if ext == STDERR_EXT {
                MuxModel { trace: m.trace.push(EventView::Data(utf8_lossy(data@))), ..m }
            } else {
                m
            },
            MuxInput::Remote(ChannelMessage::ExitStatus(_)) => m,
            MuxInput::Remote(ChannelMessage::Other) => m,
            _ => MuxModel { running: false, trace: m.trace.push(EventView::Disconnected), ..m },
        }
    }
}

/// The model after a sequence of inputs, in order.
pub open spec fn mux_run(m: MuxModel, inps: Seq<MuxInput>) -> MuxModel
    decreases inps.len(),
{
    if inps.len() == 0 {
        m
    } else {
        mux_step(mux_run(m, inps.drop_last()), inps.last())
    }
}

/// A well-formed outward stream: it opens with the one `Connected`, no
/// terminal event stands before its last event, and it ends with a terminal
/// event exactly when the loop has stopped.
pub open spec fn stream_ok(t: Seq<EventView>, running: bool) -> bool {
    &&& t.len() >= 1
    &&& t[0] is Connected
    &&& forall|i: int| 1 <= i < t.len() ==> !(#[trigger] t[i] is Connected)
    &&& forall|i: int| 0 <= i < t.len() - 1 ==> !(#[trigger] t[i]).is_terminal()
    &&& (running <==> !t.last().is_terminal())
}

/// The action that goes with one input, given whether the loop was running.
pub open spec fn action_for(running: bool, inp: MuxInput, a: MuxAction) -> bool {
    if !running {
        a is Idle
    } else {
        match inp {
            MuxInput::Local(LocalOp::Input(b)) => a matches MuxAction::Write(w) && w@ == b@,
            MuxInput::Local(LocalOp::Resize(c, r)) => a == MuxAction::Resize(c, r),
            MuxInput::Remote(ChannelMessage::Data(d)) => a matches MuxAction::Emit(e) && e@
                == EventView::Data(utf8_lossy(d@)),
            MuxInput::Remote(ChannelMessage::ExtendedData { ext, data }) => if ext == STDERR_EXT {
                a matches MuxAction::Emit(e) && e@ == EventView::Data(utf8_lossy(data@))
            } else {
                a is Idle
            },
            MuxInput::Remote(ChannelMessage::ExitStatus(_)) => a is Idle,
            MuxInput::Remote(ChannelMessage::Other) => a is Idle,
            _ => a == MuxAction::Finish(TerminalEvent::Disconnected),
        }
    }
}

/// The multiplexer of one interactive channel.
pub struct Multiplexer {
    running: bool,
    trace: Ghost<Seq<EventView>>,
    forwarded: Ghost<Seq<RemoteEffect>>,
}

impl Multiplexer {
    pub closed spec fn model(&self) -> MuxModel {
        MuxModel { running: self.running, trace: self.trace@, forwarded: self.forwarded@ }
    }

    /// The invariant: the outward stream so far is well formed.
    pub open spec fn wf(&self) -> bool {
        stream_ok(self.model().trace, self.model().running)
    }

    /// Starts the loop of a channel whose shell is ready; the consumer is
    /// first told `Connected`.
    pub fn start() -> (r: (Multiplexer, TerminalEvent))
        ensures
            r.0.wf(),
            r.0.model().running,
            r.0.model().trace == seq![EventView::Connected],
            r.0.model().forwarded.len() == 0,
            r.1 == TerminalEvent::Connected,
    {
        let ghost t = seq![EventView::Connected];
        let m = Multiplexer {
            running: true,
            trace: Ghost(t),
            forwarded: Ghost(Seq::<RemoteEffect>::empty()),
        };
        (m, TerminalEvent::Connected)
    }

    /// Whether the loop still runs.
    pub fn is_running(&self) -> (r: bool)
        ensures
            r == self.model().running,
    {
        self.running
    }

    /// Decides what one wake-up of the loop does: local input goes to the
    /// remote side verbatim, a resize as a window change, remote output and
    /// standard error become `Data` events, and the end of the remote stream,
    /// the end of the local queue or a failed write stops the loop with one
    /// `Disconnected`.
    pub fn step(&mut self, inp: MuxInput) -> (a: MuxAction)
        requires
            old(self).wf(),
        ensures
            final(self).wf(),
            final(self).model() == mux_step(old(self).model(), inp),
            action_for(old(self).model().running, inp, a),
    {
        if !self.running {
            return MuxAction::Idle;
        }
        let ghost t0 = self.trace@;
        let a = match inp {
            MuxInput::Local(LocalOp::Input(b)) => {
                proof {
                    self.forwarded@ = self.forwarded@.push(RemoteEffect::Write(b@));
                }
                MuxAction::Write(b)
            },
            MuxInput::Local(LocalOp::Resize(c, r)) => {
                proof {
                    self.forwarded@ = self.forwarded@.push(RemoteEffect::Resize(c, r));
                }
                MuxAction::Resize(c, r)
            },
            MuxInput::Remote(ChannelMessage::Data(d)) => {
                let text = lossy_text(d.as_slice());
                proof {
                    self.trace@ = self.trace@.push(EventView::Data(utf8_lossy(d@)));
                }
                MuxAction::Emit(TerminalEvent::Data(text))
            },
            MuxInput::Remote(ChannelMessage::ExtendedData { ext, data }) => {
                if ext == STDERR_EXT {
                    let text = lossy_text(data.as_slice());
                    proof {
                        self.trace@ = self.trace@.push(EventView::Data(utf8_lossy(data@)));
                    }
                    MuxAction::Emit(TerminalEvent::Data(text))
                } else {
                    MuxAction::Idle
                }
            },
            MuxInput::Remote(ChannelMessage::ExitStatus(_)) => MuxAction::Idle,
            MuxInput::Remote(ChannelMessage::Other) => MuxAction::Idle,
            _ => {
                self.running = false;
                proof {
                    self.trace@ = self.trace@.push(EventView::Disconnected);
                }
                MuxAction::Finish(TerminalEvent::Disconnected)
            },
        };
        proof {
            let t = self.trace@;
            if t.len() > t0.len() {
                assert(t.drop_last() == t0);
                assert forall|i: int| 1 <= i < t.len() implies !(#[trigger] t[i] is Connected) by {
                    if i < t0.len() {
                        assert(t[i] == t0[i]);
                    }
                }
                assert forall|i: int| 0 <= i < t.len() - 1 implies !(#[trigger] t[i]).is_terminal() by {
                    assert(t[i] == t0[i]);
                }
            }
        }
        a
    }
}

/// Over a stopped loop's stream: exactly one event is terminal, and it is
/// the last one.
pub proof fn lemma_single_terminal_event(m: MuxModel)
    requires
        stream_ok(m.trace, m.running),
        !m.running,
    ensures
        m.trace.last().is_terminal(),
        forall|i: int| 0 <= i < m.trace.len() && (#[trigger] m.trace[i]).is_terminal() ==> i
            == m.trace.len() - 1,
{
}

/// Whatever inputs reach it, a multiplexer's outward stream stays well
/// formed: one `Connected` first, and nothing after the terminal event.
pub proof fn lemma_stream_stays_ok(m: MuxModel, inps: Seq<MuxInput>)
    requires
        stream_ok(m.trace, m.running),
    ensures
        stream_ok(mux_run(m, inps).trace, mux_run(m, inps).running),
        !m.running ==> mux_run(m, inps) == m,
    decreases inps.len(),
{
    if inps.len() > 0 {
        lemma_stream_stays_ok(m, inps.drop_last());
        let p = mux_run(m, inps.drop_last());
        let q = mux_run(m, inps);
        let t0 = p.trace;
        let t = q.trace;
        if t.len() > t0.len() {
            assert(t.drop_last() == t0);
            assert forall|i: int| 1 <= i < t.len() implies !(#[trigger] t[i] is Connected) by {
                if i < t0.len() {
                    assert(t[i] == t0[i]);
                }
            }
            assert forall|i: int| 0 <= i < t.len() - 1 implies !(#[trigger] t[i]).is_terminal() by {
                assert(t[i] == t0[i]);
            }
        }
    }
}

/// Local operations fed to a running loop reach the remote side all, in the
/// order they were queued: chunks written before a resize are sent before
/// the window change.
pub proof fn lemma_local_order(m: MuxModel, ops: Seq<LocalOp>)
    requires
        m.running,
    ensures
        mux_run(m, ops.map_values(|op: LocalOp| MuxInput::Local(op))).forwarded == m.forwarded
            + ops.map_values(|op: LocalOp| effect_of(op)),
        mux_run(m, ops.map_values(|op: LocalOp| MuxInput::Local(op))).running,
        mux_run(m, ops.map_values(|op: LocalOp| MuxInput::Local(op))).trace == m.trace,
    decreases ops.len(),
{
    let inps = ops.map_values(|op: LocalOp| MuxInput::Local(op));
    if ops.len() == 0 {
        assert(m.forwarded + ops.map_values(|op: LocalOp| effect_of(op)) == m.forwarded);
    } else {
        let front = ops.drop_last();
        lemma_local_order(m, front);
        assert(inps.drop_last() == front.map_values(|op: LocalOp| MuxInput::Local(op)));
        assert(ops.map_values(|op: LocalOp| effect_of(op)) == front.map_values(
            |op: LocalOp| effect_of(op),
        ).push(effect_of(ops.last())));
    }
}

} // verus!
