use chzzk_chat::discovery::{ChannelDetail, ScrapeReadyChannel};
use chzzk_chat::frame::{classify_frame, decode_frame, FrameError, InboundFrame};
use chzzk_chat::models::Timestamp;
use chzzk_chat::registry::ChannelRegistry;
use chzzk_chat::session::{
    init_frame, start_session, still_open, ChatSession, ControlFrame, SessionAction, SessionEvent,
    SessionState,
};

fn ready() -> ScrapeReadyChannel {
    ScrapeReadyChannel { channel_id: "ch1".to_string(), chat_channel_id: "chat1".to_string(), follower_count: 10 }
}

fn active_session() -> ChatSession {
    let mut s = ChatSession::new(&ready());
    match s.step(SessionEvent::Connected) {
        SessionAction::SendInit(f) => assert_eq!(f.cid, "chat1"),
        _ => panic!("expected init frame"),
    }
    assert!(matches!(s.step(SessionEvent::InitSent), SessionAction::Idle));
    assert_eq!(s.state(), SessionState::Active);
    s
}

#[test]
fn init_frame_is_read_only_for_chat_channel() {
    let f = init_frame("chat1");
    assert_eq!(f.ver, "3");
    assert_eq!(f.cmd, 100);
    assert_eq!(f.svcid, "game");
    assert_eq!(f.cid, "chat1");
    assert_eq!(f.tid, 1);
    assert_eq!(f.dev_type, 2001);
    assert_eq!(f.auth, "READ");
}

#[test]
fn ping_frame_gets_one_pong() {
    let mut s = active_session();
    let frame = decode_frame("{\"ver\":\"3\",\"cmd\":0}").unwrap();
    match s.step(SessionEvent::Frame(frame)) {
        SessionAction::SendPong(f) => assert_eq!(f, ControlFrame { ver: 3, cmd: 10000 }),
        _ => panic!("expected pong"),
    }
    assert_eq!(s.state(), SessionState::Active);
}

#[test]
fn liveness_closed_closes_and_releases() {
    let mut reg = ChannelRegistry::new();
    let mut s = start_session(&mut reg, &ready()).unwrap();
    assert!(reg.contains("ch1"));
    s.step(SessionEvent::Connected);
    s.step(SessionEvent::InitSent);
    let detail = Some(ChannelDetail { channel_id: "ch1".to_string(), follower_count: Some(1), open_live: Some(false) });
    let open = still_open(&detail);
    assert!(!open);
    assert!(matches!(s.step(SessionEvent::LivenessChecked { open }), SessionAction::CloseTransport));
    assert_eq!(s.state(), SessionState::Closing);
    assert!(matches!(s.step(SessionEvent::Frame(InboundFrame::Ping)), SessionAction::Idle));
    assert!(matches!(s.step(SessionEvent::LivenessChecked { open: true }), SessionAction::Idle));
    match s.step(SessionEvent::CloseDone) {
        SessionAction::Release(id) => reg.release(&id),
        _ => panic!("expected release"),
    }
    assert!(s.is_closed());
    assert!(!reg.contains("ch1"));
}

#[test]
fn open_liveness_sends_keepalive() {
    let mut s = active_session();
    assert!(still_open(&None));
    let unknown = Some(ChannelDetail { channel_id: "ch1".to_string(), follower_count: None, open_live: None });
    assert!(still_open(&unknown));
    match s.step(SessionEvent::LivenessChecked { open: true }) {
        SessionAction::SendKeepalive(f) => assert_eq!(f, ControlFrame { ver: 3, cmd: 0 }),
        _ => panic!("expected keepalive"),
    }
}

#[test]
fn chat_batch_delivers_user_ids() {
    let mut s = active_session();
    let frame = decode_frame("{\"cmd\":93101,\"bdy\":[{\"uid\":\"u1\"},{\"msg\":\"x\"},{\"uid\":\"u2\"}]}").unwrap();
    match s.step(SessionEvent::Frame(frame)) {
        SessionAction::Deliver(ids) => assert_eq!(ids, vec!["u1", "u2"]),
        _ => panic!("expected delivery"),
    }
}

#[test]
fn unknown_command_is_ignored() {
    let mut s = active_session();
    let frame = decode_frame("{\"cmd\":777}").unwrap();
    assert!(matches!(frame, InboundFrame::Other(777)));
    assert!(matches!(s.step(SessionEvent::Frame(frame)), SessionAction::Idle));
    assert_eq!(s.state(), SessionState::Active);
}

#[test]
fn frame_without_integer_cmd_gets_no_pong() {
    assert!(matches!(decode_frame("{}").unwrap(), InboundFrame::Untagged));
    let frame = decode_frame("{\"cmd\":\"0\"}").unwrap();
    assert!(matches!(frame, InboundFrame::Untagged));
    let mut s = active_session();
    assert!(matches!(s.step(SessionEvent::Frame(frame)), SessionAction::Idle));
    assert_eq!(s.state(), SessionState::Active);
}

#[test]
fn chat_batch_without_array_body_has_no_user_ids() {
    match decode_frame("{\"cmd\":93101,\"bdy\":{\"uid\":\"u1\"}}").unwrap() {
        InboundFrame::ChatBatch(ids) => assert!(ids.is_empty()),
        _ => panic!("expected batch"),
    }
}

#[test]
fn ping_frame_decodes_to_ping() {
    assert!(matches!(decode_frame("{\"cmd\":0,\"ver\":\"3\"}").unwrap(), InboundFrame::Ping));
    assert!(matches!(decode_frame("[1,2]").unwrap(), InboundFrame::Untagged));
}

#[test]
fn malformed_frame_is_an_error_and_ends_session() {
    assert!(matches!(decode_frame("not json"), Err(FrameError::Malformed)));
    let mut s = active_session();
    assert!(matches!(s.step(SessionEvent::MalformedFrame), SessionAction::CloseTransport));
    assert_eq!(s.state(), SessionState::Closing);
}

#[test]
fn classify_by_command_code() {
    assert!(matches!(classify_frame(0, vec![]), InboundFrame::Ping));
    match classify_frame(93101, vec!["a".to_string()]) {
        InboundFrame::ChatBatch(ids) => assert_eq!(ids, vec!["a"]),
        _ => panic!("expected batch"),
    }
    assert!(matches!(classify_frame(5, vec![]), InboundFrame::Other(5)));
}

#[test]
fn connect_failure_releases_at_once() {
    let mut s = ChatSession::new(&ready());
    match s.step(SessionEvent::ConnectFailed) {
        SessionAction::Release(id) => assert_eq!(id, "ch1"),
        _ => panic!("expected release"),
    }
    assert!(s.is_closed());
}

#[test]
fn transport_end_events_start_closing() {
    for ev in [SessionEvent::RemoteClose, SessionEvent::TransportError, SessionEvent::StreamEnd, SessionEvent::LivenessFailed] {
        let mut s = active_session();
        assert!(matches!(s.step(ev), SessionAction::CloseTransport));
        assert_eq!(s.state(), SessionState::Closing);
    }
}

#[test]
fn second_start_on_same_channel_is_refused() {
    let mut reg = ChannelRegistry::new();
    assert!(start_session(&mut reg, &ready()).is_some());
    assert!(start_session(&mut reg, &ready()).is_none());
    assert_eq!(reg.len(), 1);
}

#[test]
fn timestamp_bounds() {
    assert!(Timestamp::new(0, 0, 32400).is_some());
    assert!(Timestamp::new(0, 0, 86400).is_none());
    assert!(Timestamp::new(0, 2_000_000_000, 0).is_none());
    assert!(Timestamp::new(-5, 1_999_999_999, -86399).is_some());
}
