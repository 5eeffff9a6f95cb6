//! The dispatcher: the consumer-facing command channel.
//!
//! It owns the outbound FIFO of commands and the dual state machine: the
//! remote session state, announced by sentinels, and the local dispatch
//! state, computed from what the channel holds. At most one command is ever
//! outstanding, and a response is published in the same step that clears
//! the outstanding marker.
//!
//! The channel itself performs no I/O. The surrounding transport hands each
//! tick's event to [`CommandQueue::update`], which returns the command to
//! transmit, if this tick sends one.

use crate::parser::{analyze, spec_analyze};
use crate::response::{RespView, Response};
use crate::text::{starts_with_str, trim_spec, trim_str};
use vstd::prelude::*;
use vstd::string::*;

verus! {

/// The remote interpreter's session state, as announced by sentinels.
/// `Finished` is terminal.
#[derive(Debug, PartialEq, Eq, Structural, Clone, Copy)]
pub enum ServerState {
    Disconnected,
    Idle,
    Ready,
    Prompt,
    Paused,
    Finished,
}

impl Default for ServerState {
    fn default() -> (r: Self)
        ensures
            r == ServerState::Disconnected,
    {
        ServerState::Disconnected
    }
}

/// The channel's own phase, computed from what it holds; never stored.
#[derive(Debug, PartialEq, Eq, Structural, Clone, Copy)]
pub enum DispatchState {
    /// Not connected: overrides everything else.
    Disconnected,
    /// A command is outstanding and no response has arrived yet.
    WaitingForResponse,
    /// A response has arrived and has not been taken yet.
    WaitingForRetrieval,
    /// Nothing outstanding and the outbound queue is non-empty.
    Processing,
    /// Nothing to do.
    Idle,
}

/// What a failed channel reports, once and on every later call.
#[derive(Debug, PartialEq, Eq, Structural, Clone, Copy)]
pub enum ChannelError {
    /// An operation before a link existed, or after deliberate teardown.
    NotConnected,
    /// The one connection attempt failed, or one was already made.
    ConnectionFailed,
    /// A read or write failed mid-session; the connection is lost.
    Io,
    /// The stream is desynchronized: a frame opened without the magic
    /// constant, or carried text that is not UTF-8.
    Framing,
    /// A payload that is neither a response nor a recognized sentinel.
    Protocol,
    /// The peer closed the connection, seen as a zero-length read.
    Disconnected,
}

/// What the transport observed since the last tick.
pub enum LinkEvent {
    /// Nothing arrived.
    Quiet,
    /// A complete frame arrived, carrying this payload.
    Frame(String),
    /// A zero-length read: the peer closed the connection.
    Closed,
    /// A write failed.
    WriteFailed,
    /// The incoming stream is corrupt and cannot be re-synchronized.
    Corrupted,
}

/// The ghost mirror of [`LinkEvent`].
pub enum LinkEventView {
    Quiet,
    Frame(Seq<char>),
    Closed,
    WriteFailed,
    Corrupted,
}

impl View for LinkEvent {
    type V = LinkEventView;

    open spec fn view(&self) -> LinkEventView {
        match self {
            LinkEvent::Quiet => LinkEventView::Quiet,
            LinkEvent::Frame(s) => LinkEventView::Frame(s@),
            LinkEvent::Closed => LinkEventView::Closed,
            LinkEvent::WriteFailed => LinkEventView::WriteFailed,
            LinkEvent::Corrupted => LinkEventView::Corrupted,
        }
    }
}

/// Either a command awaiting its reply, or a response awaiting retrieval,
/// or neither — by construction never both.
pub enum Pending {
    Free,
    AwaitingReply(String),
    ReadyForRetrieval(Response),
}

/// The ghost state of a channel.
pub struct QueueView {
    pub server_state: ServerState,
    pub connected: bool,
    pub waiting: Option<Seq<char>>,
    pub response: Option<RespView>,
    pub commands: Seq<Seq<char>>,
    pub fault: Option<ChannelError>,
}

/// The dispatcher. See the module text.
pub struct CommandQueue {
    server_state: ServerState,
    connected: bool,
    pending: Pending,
    commands: Vec<String>,
    fault: Option<ChannelError>,
}

impl View for CommandQueue {
    type V = QueueView;

    closed spec fn view(&self) -> QueueView {
        QueueView {
            server_state: self.server_state,
            connected: self.connected,
            waiting: match self.pending {
                Pending::AwaitingReply(c) => Some(c@),
                _ => None,
            },
            response: match self.pending {
                Pending::ReadyForRetrieval(r) => Some(r@),
                _ => None,
            },
            commands: self.commands@.map_values(|x: String| x@),
            fault: self.fault,
        }
    }
}

/// The remote state a sentinel payload announces, if it is one.
pub open spec fn spec_sentinel(s: Seq<char>) -> Option<ServerState> {
    if "<READY>"@.is_prefix_of(s) {
        Some(ServerState::Ready)
    } else if "<PAUSE>"@.is_prefix_of(s) {
        Some(ServerState::Paused)
    } else if "<EXIT>"@.is_prefix_of(s) {
        Some(ServerState::Finished)
    } else if "monster>"@.is_prefix_of(s) {
        Some(ServerState::Prompt)
    } else {
        None
    }
}

/// Recognizes a sentinel payload, as [`spec_sentinel`] describes.
pub fn sentinel_state(message: &str) -> (r: Option<ServerState>)
    ensures
        r == spec_sentinel(message@),
{
    if starts_with_str(message, "<READY>") {
        Some(ServerState::Ready)
    } else if starts_with_str(message, "<PAUSE>") {
        Some(ServerState::Paused)
    } else if starts_with_str(message, "<EXIT>") {
        Some(ServerState::Finished)
    } else if starts_with_str(message, "monster>") {
        Some(ServerState::Prompt)
    } else {
        None
    }
}

/// The local dispatch state of a channel, in priority order: disconnected
/// first, then an outstanding command, then an unretrieved response, then a
/// non-empty queue.
pub open spec fn spec_dispatch(q: QueueView) -> DispatchState {
    if !q.connected {
        DispatchState::Disconnected
    } else if q.waiting is Some {
        DispatchState::WaitingForResponse
    } else if q.response is Some {
        DispatchState::WaitingForRetrieval
    } else if q.commands.len() > 0 {
        DispatchState::Processing
    } else {
        DispatchState::Idle
    }
}

/// The send half of a tick: only in `Processing` is the queue head popped,
/// marked outstanding, and handed out for transmission.
pub open spec fn spec_send_step(q: QueueView) -> (QueueView, Result<
    Option<Seq<char>>,
    ChannelError,
>) {
    if spec_dispatch(q) is Processing {
        (
            QueueView { waiting: Some(q.commands[0]), commands: q.commands.drop_first(), ..q },
            Ok(Some(q.commands[0])),
        )
    } else {
        (q, Ok(None))
    }
}

/// One tick of the channel: what [`CommandQueue::update`] does to the state
/// and returns, given the transport's event.
///
/// A latched fault is reported again and nothing changes. A real response
/// is published and clears the outstanding command in the same step; a
/// sentinel only moves the remote state — except out of `Finished`, which
/// is terminal; an unrecognized payload is a fatal protocol error. Only
/// after a quiet, response or sentinel event may the head of the queue be
/// sent.
pub open spec fn spec_update(q: QueueView, ev: LinkEventView) -> (QueueView, Result<
    Option<Seq<char>>,
    ChannelError,
>) {
    if q.fault is Some {
        (q, Err(q.fault.unwrap()))
    } else if !q.connected {
        (q, Ok(None))
    } else {
        match ev {
            LinkEventView::Quiet => spec_send_step(q),
            LinkEventView::Closed => (
                QueueView {
                    connected: false,
                    fault: Some(ChannelError::Disconnected),
                    ..q
                },
                Err(ChannelError::Disconnected),
            ),
            LinkEventView::WriteFailed => (
                QueueView { connected: false, fault: Some(ChannelError::Io), ..q },
                Err(ChannelError::Io),
            ),
            LinkEventView::Corrupted => (
                QueueView { connected: false, fault: Some(ChannelError::Framing), ..q },
                Err(ChannelError::Framing),
            ),
            LinkEventView::Frame(msg) => {
                let a = spec_analyze(msg);
                if a is Success || a is Error {
                    spec_send_step(
                        QueueView { waiting: None, response: Some(a), ..q },
                    )
                } else {
                    match spec_sentinel(msg) {
                        Some(st) => spec_send_step(
                            QueueView {
                                server_state: if q.server_state is Finished {
                                    ServerState::Finished
                                } else {
                                    st
                                },
                                ..q
                            },
                        ),
                        None => (
                            QueueView { fault: Some(ChannelError::Protocol), ..q },
                            Err(ChannelError::Protocol),
                        ),
                    }
                }
            },
        }
    }
}

impl CommandQueue {
    /// A fresh, unconnected channel: no fault, nothing pending, empty queue.
    pub fn new() -> (r: Self)
        ensures
            r@.server_state == ServerState::Disconnected,
            !r@.connected,
            r@.waiting is None,
            r@.response is None,
            r@.commands.len() == 0,
            r@.fault is None,
    {
        CommandQueue {
            server_state: ServerState::Disconnected,
            connected: false,
            pending: Pending::Free,
            commands: Vec::new(),
            fault: None,
        }
    }

    /// Records the outcome of the one TCP handshake the transport made.
    /// Succeeds only on a fresh channel with a successful handshake; then
    /// the remote state starts at `Idle`. Queued commands survive.
    pub fn connect(&mut self, link_up: bool) -> (r: Result<(), ChannelError>)
        ensures
            old(self)@.fault is Some ==> r == Err::<(), ChannelError>(old(self)@.fault.unwrap())
                && final(self)@ == old(self)@,
            old(self)@.fault is None && old(self)@.connected ==> r == Err::<(), ChannelError>(
                ChannelError::ConnectionFailed,
            ) && final(self)@ == old(self)@,
            old(self)@.fault is None && !old(self)@.connected && !link_up ==> r == Err::<
                (),
                ChannelError,
            >(ChannelError::ConnectionFailed) && final(self)@ == old(self)@,
            old(self)@.fault is None && !old(self)@.connected && link_up ==> r == Ok::<
                (),
                ChannelError,
            >(()) && final(self)@ == (QueueView {
                connected: true,
                server_state: ServerState::Idle,
                ..old(self)@
            }),
    {
        match self.fault {
            Some(e) => Err(e),
            None => {
                if self.connected {
                    Err(ChannelError::ConnectionFailed)
                } else if !link_up {
                    Err(ChannelError::ConnectionFailed)
                } else {
                    self.connected = true;
                    self.server_state = ServerState::Idle;
                    Ok(())
                }
            },
        }
    }

    /// Tears the channel down unconditionally: queued commands are dropped
    /// and every later operation reports `NotConnected`.
    pub fn disconnect(&mut self)
        ensures
            final(self)@ == (QueueView {
                server_state: ServerState::Disconnected,
                connected: false,
                waiting: None,
                response: None,
                commands: Seq::<Seq<char>>::empty(),
                fault: Some(ChannelError::NotConnected),
            }),
    {
        self.server_state = ServerState::Disconnected;
        self.connected = false;
        self.pending = Pending::Free;
        self.commands = Vec::new();
        self.fault = Some(ChannelError::NotConnected);
        proof {
            assert(self@.commands =~= Seq::<Seq<char>>::empty());
        }
    }

    /// Enqueues one command, trimmed, at the tail — unless the remote state
    /// is `Paused`, in which case the command is silently dropped. This is
    /// the channel's only shedding policy.
    pub fn send(&mut self, command: &str)
        ensures
            old(self)@.server_state is Paused ==> final(self)@ == old(self)@,
            !(old(self)@.server_state is Paused) ==> final(self)@ == (QueueView {
                commands: old(self)@.commands.push(trim_spec(command@)),
                ..old(self)@
            }),
    {
        match self.server_state {
            ServerState::Paused => (),
            _ => {
                self.commands.push(trim_str(command).to_owned());
                proof {
                    assert(self@.commands =~= old(self)@.commands.push(trim_spec(command@)));
                }
            },
        }
    }

    /// Takes the published response, if one is ready; idempotent.
    pub fn receive(&mut self) -> (r: Option<Response>)
        ensures
            (match old(self)@.response {
                Some(v) => r is Some && r.unwrap()@ == v && final(self)@ == (QueueView {
                    response: None,
                    ..old(self)@
                }),
                None => r is None && final(self)@ == old(self)@,
            }),
    {
        let mut taken = Pending::Free;
        core::mem::swap(&mut taken, &mut self.pending);
        match taken {
            Pending::ReadyForRetrieval(resp) => Some(resp),
            other => {
                self.pending = other;
                None
            },
        }
    }

    /// One tick, as [`spec_update`] describes: consumes the transport's
    /// event, then returns the command to transmit now, if any.
    pub fn update(&mut self, event: LinkEvent) -> (r: Result<Option<String>, ChannelError>)
        ensures
            final(self)@ == spec_update(old(self)@, event@).0,
            (match r {
                Ok(c) => (match c {
                    Some(cmd) => spec_update(old(self)@, event@).1 == Ok::<
                        Option<Seq<char>>,
                        ChannelError,
                    >(Some(cmd@)),
                    None => spec_update(old(self)@, event@).1 == Ok::<
                        Option<Seq<char>>,
                        ChannelError,
                    >(None),
                }),
                Err(e) => spec_update(old(self)@, event@).1 == Err::<
                    Option<Seq<char>>,
                    ChannelError,
                >(e),
            }),
    {
        match self.fault {
            Some(e) => Err(e),
            None => {
                if !self.connected {
                    Ok(None)
                } else {
                    match event {
                        LinkEvent::Quiet => Ok(self.send_step()),
                        LinkEvent::Closed => {
                            self.connected = false;
                            self.fault = Some(ChannelError::Disconnected);
                            Err(ChannelError::Disconnected)
                        },
                        LinkEvent::WriteFailed => {
                            self.connected = false;
                            self.fault = Some(ChannelError::Io);
                            Err(ChannelError::Io)
                        },
                        LinkEvent::Corrupted => {
                            self.connected = false;
                            self.fault = Some(ChannelError::Framing);
                            Err(ChannelError::Framing)
                        },
                        LinkEvent::Frame(msg) => {
                            let a = analyze(msg.as_str());
                            match a {
                                Response::Nothing => {
                                    match sentinel_state(msg.as_str()) {
                                        Some(st) => {
                                            // `Finished` is terminal: no later
                                            // sentinel revives the session.
                                            if !self.finished() {
                                                self.server_state = st;
                                            }
                                            Ok(self.send_step())
                                        },
                                        None => {
                                            self.fault = Some(ChannelError::Protocol);
                                            Err(ChannelError::Protocol)
                                        },
                                    }
                                },
                                _ => {
                                    self.pending = Pending::ReadyForRetrieval(a);
                                    Ok(self.send_step())
                                },
                            }
                        },
                    }
                }
            },
        }
    }

    /// The send half of a tick, as [`spec_send_step`] describes.
    fn send_step(&mut self) -> (r: Option<String>)
        ensures
            final(self)@ == spec_send_step(old(self)@).0,
            (match r {
                Some(cmd) => spec_send_step(old(self)@).1 == Ok::<
                    Option<Seq<char>>,
                    ChannelError,
                >(Some(cmd@)),
                None => spec_send_step(old(self)@).1 == Ok::<Option<Seq<char>>, ChannelError>(
                    None,
                ),
            }),
    {
        let waiting = match self.pending {
            Pending::Free => false,
            _ => true,
        };
        if self.connected && !waiting && self.commands.len() > 0 {
            let cmd = self.commands.remove(0);
            self.pending = Pending::AwaitingReply(cmd.clone());
            proof {
                assert(self@.commands =~= old(self)@.commands.drop_first());
            }
            Some(cmd)
        } else {
            None
        }
    }

    /// The local dispatch state, as [`spec_dispatch`] describes.
    pub fn local_state(&self) -> (r: DispatchState)
        ensures
            r == spec_dispatch(self@),
    {
        if !self.connected {
            DispatchState::Disconnected
        } else {
            match self.pending {
                Pending::AwaitingReply(_) => DispatchState::WaitingForResponse,
                Pending::ReadyForRetrieval(_) => DispatchState::WaitingForRetrieval,
                Pending::Free => {
                    if self.commands.len() > 0 {
                        DispatchState::Processing
                    } else {
                        DispatchState::Idle
                    }
                },
            }
        }
    }

    /// Whether a live link is held.
    pub fn connected(&self) -> (r: bool)
        ensures
            r == self@.connected,
    {
        self.connected
    }

    /// Whether the remote session is paused.
    pub fn paused(&self) -> (r: bool)
        ensures
            r == (self@.server_state is Paused),
    {
        match self.server_state {
            ServerState::Paused => true,
            _ => false,
        }
    }

    /// Whether the remote session is at its interactive prompt.
    pub fn prompt(&self) -> (r: bool)
        ensures
            r == (self@.server_state is Prompt),
    {
        match self.server_state {
            ServerState::Prompt => true,
            _ => false,
        }
    }

    /// Whether the remote session has finished; `Finished` is terminal.
    pub fn finished(&self) -> (r: bool)
        ensures
            r == (self@.server_state is Finished),
    {
        match self.server_state {
            ServerState::Finished => true,
            _ => false,
        }
    }

    /// Whether an interactive shell may block waiting for keystrokes: the
    /// remote session is at its prompt and this channel is fully idle.
    pub fn ready_for_interactive_input(&self) -> (r: bool)
        ensures
            r == (self@.server_state is Prompt && spec_dispatch(self@) is Idle),
    {
        let idle = match self.local_state() {
            DispatchState::Idle => true,
            _ => false,
        };
        self.prompt() && idle
    }
}

/// A channel never both awaits a reply and holds an unretrieved response:
/// the two live in one slot, so the exclusion is structural.
pub proof fn lemma_single_flight(q: CommandQueue)
    ensures
        !(q@.waiting is Some && q@.response is Some),
{
}


/// Nothing is sent while a reply is outstanding: a quiet tick on a channel
/// with an outstanding command changes nothing and hands nothing out.
pub proof fn lemma_outstanding_blocks_sending(q: QueueView)
    requires
        q.fault is None,
        q.connected,
        q.waiting is Some,
    ensures
        spec_update(q, LinkEventView::Quiet) == (q, Ok::<Option<Seq<char>>, ChannelError>(None)),
{
}

/// A sentinel payload only moves the remote session state: it publishes no
/// response, and an outstanding command stays outstanding.
pub proof fn lemma_sentinel_moves_state_only(q: QueueView, msg: Seq<char>)
    requires
        q.fault is None,
        q.connected,
        !(q.server_state is Finished),
        spec_analyze(msg) is Nothing,
        spec_sentinel(msg) is Some,
    ensures
        spec_update(q, LinkEventView::Frame(msg)).0.server_state == spec_sentinel(msg).unwrap(),
        spec_update(q, LinkEventView::Frame(msg)).0.response == q.response,
        q.waiting is Some ==> spec_update(q, LinkEventView::Frame(msg)).0.waiting == q.waiting,
        spec_update(q, LinkEventView::Frame(msg)).1 is Ok,
{
}

/// `Finished` is terminal: once the remote session has finished, no later
/// event — sentinel included — moves the remote state anywhere else.
pub proof fn lemma_finished_is_absorbing(q: QueueView, ev: LinkEventView)
    requires
        q.server_state is Finished,
    ensures
        spec_update(q, ev).0.server_state is Finished,
{
}

/// A payload that is neither a response nor a recognized sentinel is fatal:
/// the tick reports a protocol error and latches it, so every later tick
/// reports it again.
pub proof fn lemma_unrecognized_payload_is_fatal(q: QueueView, msg: Seq<char>, ev: LinkEventView)
    requires
        q.fault is None,
        q.connected,
        spec_analyze(msg) is Nothing,
        spec_sentinel(msg) is None,
    ensures
        spec_update(q, LinkEventView::Frame(msg)).1 == Err::<Option<Seq<char>>, ChannelError>(
            ChannelError::Protocol,
        ),
        spec_update(spec_update(q, LinkEventView::Frame(msg)).0, ev).1 == Err::<
            Option<Seq<char>>,
            ChannelError,
        >(ChannelError::Protocol),
{
}

} // verus!
