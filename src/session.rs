use vstd::prelude::*;
use crate::discovery::{ChannelDetail, ScrapeReadyChannel};
use crate::frame::InboundFrame;
use crate::registry::{acquire_wins, acquired, ChannelRegistry};

verus! {

/// Protocol version carried by every outbound frame.
pub const PROTOCOL_VERSION: i64 = 3;

/// Command code of the initialisation frame.
pub const CMD_INIT: i64 = 100;

/// Command code of a keepalive ping sent by the session.
pub const CMD_KEEPALIVE: i64 = 0;

/// Command code of a pong, the reply to a server ping.
pub const CMD_PONG: i64 = 10000;

/// Device type announced in the initialisation frame.
pub const DEVICE_TYPE: i64 = 2001;

/// Transaction id of the initialisation frame.
pub const INIT_TID: i64 = 1;

/// The initialisation frame that opens the chat of one chat channel, with
/// read-only access and no user identity.
#[derive(Debug, Clone)]
pub struct InitFrame {
    pub ver: String,
    pub cmd: i64,
    pub svcid: String,
    pub cid: String,
    pub tid: i64,
    pub dev_type: i64,
    pub auth: String,
}

/// A frame with a version and a command code alone (keepalive, pong).
#[derive(Debug, Clone, Copy, PartialEq, Eq, Structural)]
pub struct ControlFrame {
    pub ver: i64,
    pub cmd: i64,
}

/// Whether `f` is the initialisation frame for chat channel `cid`.
pub open spec fn is_init_for(f: InitFrame, cid: Seq<char>) -> bool {
    &&& f.ver@ == "3"@
    &&& f.cmd == CMD_INIT
    &&& f.svcid@ == "game"@
    &&& f.cid@ == cid
    &&& f.tid == INIT_TID
    &&& f.dev_type == DEVICE_TYPE
    &&& f.auth@ == "READ"@
}

/// Builds the initialisation frame for chat channel `cid`.
pub fn init_frame(cid: &str) -> (r: InitFrame)
    ensures
        is_init_for(r, cid@),
{
    InitFrame {
        ver: "3".to_string(),
        cmd: CMD_INIT,
        svcid: "game".to_string(),
        cid: cid.to_string(),
        tid: INIT_TID,
        dev_type: DEVICE_TYPE,
        auth: "READ".to_string(),
    }
}

/// The keepalive frame.
pub fn keepalive_frame() -> (r: ControlFrame)
    ensures
        r == (ControlFrame { ver: PROTOCOL_VERSION, cmd: CMD_KEEPALIVE }),
{
    ControlFrame { ver: PROTOCOL_VERSION, cmd: CMD_KEEPALIVE }
}

/// The pong frame.
pub fn pong_frame() -> (r: ControlFrame)
    ensures
        r == (ControlFrame { ver: PROTOCOL_VERSION, cmd: CMD_PONG }),
{
    ControlFrame { ver: PROTOCOL_VERSION, cmd: CMD_PONG }
}

/// Whether a liveness lookup shows the broadcast closed: only a detail whose
/// open-live flag is known and false does.
pub open spec fn shows_closed(detail: Option<ChannelDetail>) -> bool {
    match detail {
        Some(d) => d.open_live == Some(false),
        None => false,
    }
}

/// Reads a liveness lookup: true when the broadcast is to be taken as open.
pub fn still_open(detail: &Option<ChannelDetail>) -> (r: bool)
    ensures
        r == !shows_closed(*detail),
{
    match detail {
        Some(d) => match d.open_live {
            Some(open) => open,
            None => true,
        },
        None => true,
    }
}

/// The lifecycle states of a chat session.
#[derive(Debug, Clone, Copy, PartialEq, Eq, Structural)]
pub enum SessionState {
    Connecting,
    Handshaking,
    Active,
    Closing,
    Closed,
}

/// What happened to a session, as reported by the task that drives it.
pub enum SessionEvent {
    /// The transport connection is open.
    Connected,
    /// The transport connection could not be opened.
    ConnectFailed,
    /// The initialisation frame went out.
    InitSent,
    /// The initialisation frame could not be sent.
    InitFailed,
    /// The liveness timer fired and the channel lookup was read: `open` is
    /// false when it showed the broadcast closed.
    LivenessChecked { open: bool },
    /// The liveness timer fired and the channel lookup failed.
    LivenessFailed,
    /// An inbound text frame was decoded.
    Frame(InboundFrame),
    /// An inbound text frame could not be decoded.
    MalformedFrame,
    /// The remote side sent a close frame.
    RemoteClose,
    /// The transport reported an error.
    TransportError,
    /// The inbound stream ended.
    StreamEnd,
    /// The close handshake is over, whatever its outcome.
    CloseDone,
}

/// What the driving task does next for a session.
pub enum SessionAction {
    /// Send the initialisation frame.
    SendInit(InitFrame),
    /// Send a keepalive frame.
    SendKeepalive(ControlFrame),
    /// Send a pong frame.
    SendPong(ControlFrame),
    /// Hand the user ids of a chat batch on.
    Deliver(Vec<String>),
    /// Start the close handshake on the transport.
    CloseTransport,
    /// Remove the channel id from the registry; the session is over.
    Release(String),
    /// Nothing.
    Idle,
}

/// The kind of an action, without its payload.
#[derive(Debug, Clone, Copy, PartialEq, Eq, Structural)]
pub enum ActionKind {
    SendInit,
    SendKeepalive,
    SendPong,
    Deliver,
    CloseTransport,
    Release,
    Idle,
}

impl SessionAction {
    pub open spec fn kind(self) -> ActionKind {
        match self {
            SessionAction::SendInit(_) => ActionKind::SendInit,
            SessionAction::SendKeepalive(_) => ActionKind::SendKeepalive,
            SessionAction::SendPong(_) => ActionKind::SendPong,
            SessionAction::Deliver(_) => ActionKind::Deliver,
            SessionAction::CloseTransport => ActionKind::CloseTransport,
            SessionAction::Release(_) => ActionKind::Release,
            SessionAction::Idle => ActionKind::Idle,
        }
    }
}

/// Whether an action puts a frame on the transport.
pub open spec fn sends_frame(k: ActionKind) -> bool {
    k == ActionKind::SendInit || k == ActionKind::SendKeepalive || k == ActionKind::SendPong
}

/// Whether an event ends the session from the handshake or active state.
pub open spec fn ends_session(e: SessionEvent) -> bool {
    match e {
        SessionEvent::InitFailed => true,
        SessionEvent::LivenessChecked { open } => !open,
        SessionEvent::LivenessFailed => true,
        SessionEvent::MalformedFrame => true,
        SessionEvent::RemoteClose => true,
        SessionEvent::TransportError => true,
        SessionEvent::StreamEnd => true,
        _ => false,
    }
}

/// The state a session moves to on an event.
pub open spec fn next_state(s: SessionState, e: SessionEvent) -> SessionState {
    match s {
        SessionState::Connecting => match e {
            SessionEvent::Connected => SessionState::Handshaking,
            SessionEvent::ConnectFailed => SessionState::Closed,
            _ => SessionState::Connecting,
        },
        SessionState::Handshaking => if ends_session(e) {
            SessionState::Closing
        } else if e is InitSent {
            SessionState::Active
        } else {
            SessionState::Handshaking
        },
        SessionState::Active => if ends_session(e) {
            SessionState::Closing
        } else {
            SessionState::Active
        },
        SessionState::Closing => if e is CloseDone {
            SessionState::Closed
        } else {
            SessionState::Closing
        },
        SessionState::Closed => SessionState::Closed,
    }
}

/// The kind of action a session takes on an event.
pub open spec fn next_action(s: SessionState, e: SessionEvent) -> ActionKind {
    match s {
        SessionState::Connecting => match e {
            SessionEvent::Connected => ActionKind::SendInit,
            SessionEvent::ConnectFailed => ActionKind::Release,
            _ => ActionKind::Idle,
        },
        SessionState::Handshaking => if ends_session(e) {
            ActionKind::CloseTransport
        } else {
            ActionKind::Idle
        },
        SessionState::Active => if ends_session(e) {
            ActionKind::CloseTransport
        } else {
            match e {
                SessionEvent::LivenessChecked { .. } => ActionKind::SendKeepalive,
                SessionEvent::Frame(InboundFrame::Ping) => ActionKind::SendPong,
                SessionEvent::Frame(InboundFrame::ChatBatch(_)) => ActionKind::Deliver,
                _ => ActionKind::Idle,
            }
        },
        SessionState::Closing => if e is CloseDone {
            ActionKind::Release
        } else {
            ActionKind::Idle
        },
        SessionState::Closed => ActionKind::Idle,
    }
}

/// One supervised chat session of one channel.
pub struct ChatSession {
    channel_id: String,
    chat_channel_id: String,
    state: SessionState,
}

impl ChatSession {
    pub closed spec fn channel_id_view(&self) -> Seq<char> {
        self.channel_id@
    }

    pub closed spec fn chat_channel_id_view(&self) -> Seq<char> {
        self.chat_channel_id@
    }

    pub closed spec fn state_view(&self) -> SessionState {
        self.state
    }

    /// A session for a scrape-ready channel, about to connect.
    pub fn new(channel: &ScrapeReadyChannel) -> (r: ChatSession)
        ensures
            r.state_view() == SessionState::Connecting,
            r.channel_id_view() == channel.channel_id@,
            r.chat_channel_id_view() == channel.chat_channel_id@,
    {
        ChatSession {
            channel_id: channel.channel_id.clone(),
            chat_channel_id: channel.chat_channel_id.clone(),
            state: SessionState::Connecting,
        }
    }

    /// The current lifecycle state.
    pub fn state(&self) -> (r: SessionState)
        ensures
            r == self.state_view(),
    {
        self.state
    }

    /// The channel id the session belongs to.
    pub fn channel_id(&self) -> (r: &String)
        ensures
            r@ == self.channel_id_view(),
    {
        &self.channel_id
    }

    /// Whether the session is over.
    pub fn is_closed(&self) -> (r: bool)
        ensures
            r == (self.state_view() == SessionState::Closed),
    {
        self.state == SessionState::Closed
    }

    /// Takes in one event, moves to the next state, and returns the one
    /// action that the driving task performs before it reports the next event.
    pub fn step(&mut self, event: SessionEvent) -> (r: SessionAction)
        ensures
            final(self).state_view() == next_state(old(self).state_view(), event),
            final(self).channel_id_view() == old(self).channel_id_view(),
            final(self).chat_channel_id_view() == old(self).chat_channel_id_view(),
            r.kind() == next_action(old(self).state_view(), event),
            r matches SessionAction::SendInit(f) ==> is_init_for(f, old(self).chat_channel_id_view()),
            r matches SessionAction::SendKeepalive(f) ==> f == (ControlFrame {
                ver: PROTOCOL_VERSION,
                cmd: CMD_KEEPALIVE,
            }),
            r matches SessionAction::SendPong(f) ==> f == (ControlFrame {
                ver: PROTOCOL_VERSION,
                cmd: CMD_PONG,
            }),
            r matches SessionAction::Deliver(ids) ==> (event matches SessionEvent::Frame(
                InboundFrame::ChatBatch(uids),
            ) && ids@ == uids@),
            r matches SessionAction::Release(id) ==> id@ == old(self).channel_id_view(),
    {
        let ends = match &event {
            SessionEvent::InitFailed => true,
            SessionEvent::LivenessChecked { open } => !*open,
            SessionEvent::LivenessFailed => true,
            SessionEvent::MalformedFrame => true,
            SessionEvent::RemoteClose => true,
            SessionEvent::TransportError => true,
            SessionEvent::StreamEnd => true,
            _ => false,
        };
        match self.state {
            SessionState::Connecting => match event {
                SessionEvent::Connected => {
                    self.state = SessionState::Handshaking;
                    SessionAction::SendInit(init_frame(&self.chat_channel_id))
                },
                SessionEvent::ConnectFailed => {
                    self.state = SessionState::Closed;
                    SessionAction::Release(self.channel_id.clone())
                },
                _ => SessionAction::Idle,
            },
            SessionState::Handshaking => {
                if ends {
                    self.state = SessionState::Closing;
                    SessionAction::CloseTransport
                } else {
                    if let SessionEvent::InitSent = event {
                        self.state = SessionState::Active;
                    }
                    SessionAction::Idle
                }
            },
            SessionState::Active => {
                if ends {
                    self.state = SessionState::Closing;
                    SessionAction::CloseTransport
                } else {
                    match event {
                        SessionEvent::LivenessChecked { .. } => SessionAction::SendKeepalive(
                            keepalive_frame(),
                        ),
                        SessionEvent::Frame(InboundFrame::Ping) => SessionAction::SendPong(
                            pong_frame(),
                        ),
                        SessionEvent::Frame(InboundFrame::ChatBatch(uids)) => SessionAction::Deliver(
                            uids,
                        ),
                        _ => SessionAction::Idle,
                    }
                }
            },
            SessionState::Closing => {
                if let SessionEvent::CloseDone = event {
                    self.state = SessionState::Closed;
                    SessionAction::Release(self.channel_id.clone())
                } else {
                    SessionAction::Idle
                }
            },
            SessionState::Closed => SessionAction::Idle,
        }
    }
}

/// Starts supervision of a scrape-ready channel: claims the channel in the
/// registry and returns its new session, or `None` when another session
/// already holds the channel.
pub fn start_session(registry: &mut ChannelRegistry, channel: &ScrapeReadyChannel) -> (r: Option<
    ChatSession,
>)
    ensures
        r is Some == acquire_wins(old(registry)@, channel.channel_id@),
        final(registry)@ == acquired(old(registry)@, channel.channel_id@),
        r matches Some(session) ==> session.state_view() == SessionState::Connecting
            && session.channel_id_view() == channel.channel_id@
            && session.chat_channel_id_view() == channel.chat_channel_id@,
{
    if registry.try_acquire(&channel.channel_id) {
        Some(ChatSession::new(channel))
    } else {
        None
    }
}

/// Whether a session in state `s` sends no frame on any of `events`, taken
/// one after another.
pub open spec fn silent(s: SessionState, events: Seq<SessionEvent>) -> bool
    decreases events.len(),
{
    if events.len() == 0 {
        true
    } else {
        !sends_frame(next_action(s, events[0])) && silent(
            next_state(s, events[0]),
            events.drop_first(),
        )
    }
}

/// Once a session is closing or closed it sends no frame again, whatever
/// events follow.
pub proof fn lemma_closing_is_silent(s: SessionState, events: Seq<SessionEvent>)
    requires
        s == SessionState::Closing || s == SessionState::Closed,
    ensures
        silent(s, events),
    decreases events.len(),
{
    if events.len() > 0 {
        lemma_closing_is_silent(next_state(s, events[0]), events.drop_first());
    }
}

/// A liveness check that shows the broadcast closed makes an active session
/// start closing at once; from then on it sends no frame, and the end of the
/// close handshake releases the channel.
pub proof fn lemma_liveness_close(events: Seq<SessionEvent>)
    ensures
        next_state(SessionState::Active, SessionEvent::LivenessChecked { open: false })
            == SessionState::Closing,
        next_action(SessionState::Active, SessionEvent::LivenessChecked { open: false })
            == ActionKind::CloseTransport,
        silent(SessionState::Closing, events),
        next_state(SessionState::Closing, SessionEvent::CloseDone) == SessionState::Closed,
        next_action(SessionState::Closing, SessionEvent::CloseDone) == ActionKind::Release,
{
    lemma_closing_is_silent(SessionState::Closing, events);
}

/// A server ping to an active session is answered with one pong, and the
/// session stays active.
pub proof fn lemma_ping_pong()
    ensures
        next_action(SessionState::Active, SessionEvent::Frame(InboundFrame::Ping))
            == ActionKind::SendPong,
        next_state(SessionState::Active, SessionEvent::Frame(InboundFrame::Ping))
            == SessionState::Active,
{
}

} // verus!
