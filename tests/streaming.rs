use ecli::error::ServiceError;
use ecli::kind::TaskKind;
use ecli::lifecycle::register_launched;
use ecli::registry::TaskRegistry;
use ecli::log_stream::{chunk_bytes, FollowCursor, MsgBuf, BUFFER_SIZE};
use ecli::request::{log_request_from_fields, parse_log_request, LogRequest};
use ecli::session::{HeartbeatAction, LogWs, WsAction, WsMessage, WsState, CLIENT_TIMEOUT_MS};
use ecli::temp_dir::TempDir;

fn registry_with_tasks() -> TaskRegistry<u32> {
    let mut reg: TaskRegistry<u32> = TaskRegistry::new();
    register_launched(&mut reg, TaskKind::SandboxedModule, Some("w".to_string()), 0, Ok(1u32)).unwrap();
    register_launched(&mut reg, TaskKind::KernelProgram, Some("k".to_string()), 0, Ok(2u32)).unwrap();
    reg
}

fn text(t: &str) -> WsMessage {
    WsMessage::Text(t.to_string())
}

#[test]
fn follow_gets_each_append_once_and_snapshot_gets_all() {
    let reg = registry_with_tasks();
    let mut stream: Vec<u8> = b"AB".to_vec();
    let mut follower = LogWs::started(0);
    let opened = follower.handle(text("{\"id\": 0, \"follow\": true}"), 1, &reg);
    assert!(matches!(opened, WsAction::Start(LogRequest { id: 0, follow: true })));
    assert_eq!(follower.deliver(&stream, b""), (vec![b"AB".to_vec()], vec![]));
    stream.extend_from_slice(b"CD");
    assert_eq!(follower.deliver(&stream, b""), (vec![b"CD".to_vec()], vec![]));
    assert_eq!(follower.deliver(&stream, b""), (vec![], vec![]));

    let mut reader = LogWs::started(0);
    let opened = reader.handle(text("{\"id\": 0, \"follow\": false}"), 1, &reg);
    assert!(matches!(opened, WsAction::Start(LogRequest { id: 0, follow: false })));
    assert_eq!(reader.deliver(&stream, b""), (vec![b"ABCD".to_vec()], vec![]));
    assert_eq!(reader.state, WsState::Closed);
    assert_eq!(reader.deliver(&stream, b""), (vec![], vec![]));
}

#[test]
fn both_streams_are_delivered() {
    let reg = registry_with_tasks();
    let mut reader = LogWs::started(0);
    reader.handle(text("{\"id\": 0, \"follow\": false}"), 1, &reg);
    assert_eq!(reader.deliver(b"out", b"err"), (vec![b"out".to_vec()], vec![b"err".to_vec()]));

    let mut follower = LogWs::started(0);
    follower.handle(text("{\"id\": 0, \"follow\": true}"), 1, &reg);
    assert_eq!(follower.deliver(b"o1", b"e1"), (vec![b"o1".to_vec()], vec![b"e1".to_vec()]));
    assert_eq!(follower.deliver(b"o1", b"e1e2"), (vec![], vec![b"e2".to_vec()]));
}

#[test]
fn log_request_for_unknown_or_unsupported_task_is_refused() {
    let reg = registry_with_tasks();
    let mut ws = LogWs::started(0);
    assert!(matches!(
        ws.handle(text("{\"id\": 7, \"follow\": true}"), 1, &reg),
        WsAction::Refuse(ServiceError::NotFound)
    ));
    assert_eq!(ws.state, WsState::Closed);
    let mut ws = LogWs::started(0);
    assert!(matches!(
        ws.handle(text("{\"id\": 1, \"follow\": false}"), 1, &reg),
        WsAction::Refuse(ServiceError::NotImplemented)
    ));
    assert!(ws.request.is_none());
}

#[test]
fn cursor_polls_new_bytes() {
    let mut c = FollowCursor::new();
    assert_eq!(c.poll(b"AB"), b"AB".to_vec());
    assert_eq!(c.poll(b"ABCD"), b"CD".to_vec());
    assert_eq!(c.seen, 4);
    assert!(c.poll(b"AB").is_empty());
    assert_eq!(c.seen, 4);
}

#[test]
fn chunking_into_transfer_units() {
    let data: Vec<u8> = (0..130u32).map(|i| (i % 251) as u8).collect();
    let chunks = chunk_bytes(&data);
    assert_eq!(chunks.iter().map(|c| c.len()).collect::<Vec<_>>(), vec![64, 64, 2]);
    assert_eq!(chunks.concat(), data);
    assert!(chunk_bytes(&[]).is_empty());
    assert_eq!(chunk_bytes(&data[..64]).len(), 1);
    let two: Vec<usize> = chunk_bytes(&data[..128]).iter().map(|c| c.len()).collect();
    assert_eq!(two, vec![64, 64]);
    assert_eq!(chunk_bytes(&data[..65])[1], vec![data[64]]);
    assert_eq!(BUFFER_SIZE, 64);
}

#[test]
fn msg_buf_fills_at_unit_size() {
    let mut buf = MsgBuf::new();
    assert_eq!(buf.unit(), vec![0u8; 64]);
    for i in 0..64u8 {
        assert!(!buf.msg_filled(&i));
    }
    assert_eq!(buf.count(), 64);
    assert_eq!(buf.pending().len(), 64);
    // a full unit reports it, stores nothing and starts a new unit
    assert!(buf.msg_filled(&200));
    assert_eq!(buf.count(), 0);
    let unit = buf.unit();
    assert_eq!(unit.len(), 64);
    assert_eq!(unit[10], 10);
    assert_eq!(unit[63], 63);
    assert!(buf.pending().is_empty());
    // the offered byte goes into the new unit
    assert!(!buf.msg_filled(&200));
    assert_eq!(buf.pending(), vec![200u8]);
}

#[test]
fn heartbeat_pings_and_times_out() {
    let mut ws = LogWs::started(0);
    assert_eq!(ws.hb(5000), HeartbeatAction::SendPing);
    assert_eq!(ws.state, WsState::AwaitingPong);
    assert!(matches!(ws.handle(WsMessage::Pong, 6000, &TaskRegistry::<u32>::new()), WsAction::Nothing));
    assert_eq!(ws.state, WsState::Open);
    assert_eq!(ws.hb(6000 + CLIENT_TIMEOUT_MS), HeartbeatAction::SendPing);
    assert_eq!(ws.hb(6001 + CLIENT_TIMEOUT_MS), HeartbeatAction::Disconnect);
    assert_eq!(ws.state, WsState::Closed);
    assert_eq!(ws.hb(6002 + CLIENT_TIMEOUT_MS), HeartbeatAction::Disconnect);
}

#[test]
fn ping_is_answered_and_close_ends() {
    let reg: TaskRegistry<u32> = TaskRegistry::new();
    let mut ws = LogWs::started(0);
    match ws.handle(WsMessage::Ping(b"hi".to_vec()), 3000, &reg) {
        WsAction::Pong(p) => assert_eq!(p, b"hi".to_vec()),
        _ => panic!("expected a pong"),
    }
    assert_eq!(ws.hb, 3000);
    assert!(matches!(ws.handle(WsMessage::Binary, 3100, &reg), WsAction::Nothing));
    assert!(matches!(ws.handle(WsMessage::Close, 3200, &reg), WsAction::Close));
    assert_eq!(ws.state, WsState::Closed);
    assert!(matches!(ws.handle(WsMessage::Ping(vec![]), 3300, &reg), WsAction::Nothing));
}

#[test]
fn malformed_log_requests_are_refused() {
    let reg = registry_with_tasks();
    let mut ws = LogWs::started(0);
    assert!(matches!(
        ws.handle(text("not json"), 1, &reg),
        WsAction::Refuse(ServiceError::Validation)
    ));
    assert_eq!(ws.state, WsState::Closed);
    assert_eq!(parse_log_request("{\"id\": -2, \"follow\": true}"), Err(ServiceError::Validation));
    assert_eq!(log_request_from_fields(Some(-1), Some(false)), Err(ServiceError::Validation));
    assert_eq!(parse_log_request("{\"id\": 2}"), Err(ServiceError::Validation));
    assert_eq!(parse_log_request("{\"id\": \"2\", \"follow\": true}"), Err(ServiceError::Validation));
    assert_eq!(
        parse_log_request(" {\"follow\": false, \"id\": 12} "),
        Ok(LogRequest { id: 12, follow: false })
    );
    assert_eq!(log_request_from_fields(Some(5), Some(true)), Ok(LogRequest { id: 5, follow: true }));
    assert_eq!(log_request_from_fields(Some(5), None), Err(ServiceError::Validation));
}

#[test]
fn temp_dir_names() {
    let d = TempDir::new_in("/tmp");
    let p = d.path();
    assert!(p.starts_with("/tmp/eunomia."));
    let suffix = &p["/tmp/eunomia.".len()..];
    assert_eq!(suffix.len(), 6);
    assert!(suffix.chars().all(|c| c.is_ascii_alphanumeric()));
    let e = TempDir::new_in("/var/tmp/");
    assert!(e.path().starts_with("/var/tmp/eunomia."));
    assert_eq!(e.path().len(), "/var/tmp/eunomia.".len() + 6);
}

#[test]
fn end_of_output_flushes_and_closes() {
    let reg = registry_with_tasks();
    let mut follower = LogWs::started(0);
    follower.handle(text("{\"id\": 0, \"follow\": true}"), 1, &reg);
    assert_eq!(follower.deliver(b"AB", b""), (vec![b"AB".to_vec()], vec![]));
    assert_eq!(follower.finish(b"ABCD", b"E"), (vec![b"CD".to_vec()], vec![b"E".to_vec()]));
    assert_eq!(follower.state, WsState::Closed);
    assert_eq!(follower.finish(b"ABCDEF", b"E"), (vec![], vec![]));

    let mut idle = LogWs::started(0);
    assert_eq!(idle.finish(b"AB", b""), (vec![], vec![]));
    assert_eq!(idle.state, WsState::Open);
}
