use sinkron::actors::client::{
    ClientActor, ClientActorMessage, ClientEvent, ClientStep, Frame, Waiting, DISCONNECT_TIMEOUT_MS,
};
use sinkron::actors::collection::{
    CollectionMessage, CreateMessage, DeleteMessage, GetMessage, Reply, Source, SyncMessage,
    SyncResult, UpdateMessage,
};
use sinkron::error::SinkronError;
use sinkron::protocol;
use sinkron::protocol::{
    ChangeErrorMessage, ClientChangeMessage, ClientMessage, DocMessage, ErrorCode, GetErrorMessage,
    HeartbeatMessage, Op, ServerMessage, SyncCompleteMessage, SyncErrorMessage,
};
use sinkron::types::Document;
use uuid::Uuid;

fn id(n: u128) -> Uuid {
    Uuid::from_u128(n)
}

fn session() -> ClientActor {
    ClientActor::new(7, "alice".to_string(), "c1".to_string(), 3, 1_000)
}

fn alice() -> Source {
    Source::Client { user: "alice".to_string() }
}

fn document(n: u128, colrev: i64, data: Option<&str>) -> Document {
    Document {
        id: id(n),
        created_at: 10,
        updated_at: 20,
        data: data.map(|d| d.to_string()),
        col: "c1".to_string(),
        colrev,
        permissions: "secret".to_string(),
    }
}

fn doc_frame(n: u128, colrev: i64, data: Option<&str>) -> ServerMessage {
    ServerMessage::Doc(DocMessage {
        id: id(n),
        col: "c1".to_string(),
        colrev,
        data: data.map(|d| d.to_string()),
        created_at: 10,
        updated_at: 20,
    })
}

fn change(op: Op, data: Option<&str>) -> ClientChangeMessage {
    ClientChangeMessage {
        id: id(1),
        col: "c1".to_string(),
        op,
        data: data.map(|d| d.to_string()),
        changeid: id(0xCA),
    }
}

fn bad_request() -> ClientStep {
    ClientStep::Send(ServerMessage::ChangeError(ChangeErrorMessage {
        code: ErrorCode::BadRequest,
        id: id(1),
        changeid: id(0xCA),
    }))
}

#[test]
fn new_session_has_sixty_seconds() {
    let s = session();
    assert_eq!(DISCONNECT_TIMEOUT_MS, 60_000);
    assert_eq!(s.client_id, 7);
    assert_eq!(s.user_id, "alice");
    assert_eq!(s.col, "c1");
    assert_eq!(s.colrev, 3);
    assert_eq!(s.deadline, 61_000);
    assert_eq!(s.source(), alice());
}

#[test]
fn deadline_saturates_at_the_end_of_time() {
    let s = ClientActor::new(1, "u".to_string(), "c".to_string(), 0, u64::MAX - 5);
    assert_eq!(s.deadline, u64::MAX);
    let s = ClientActor::new(1, "u".to_string(), "c".to_string(), 0, u64::MAX - 60_000);
    assert_eq!(s.deadline, u64::MAX);
    let s = ClientActor::new(1, "u".to_string(), "c".to_string(), 0, u64::MAX - 60_001);
    assert_eq!(s.deadline, u64::MAX - 1);
}

#[test]
fn session_opens_with_a_sync_from_its_colrev() {
    assert_eq!(
        session().sync_request(),
        CollectionMessage::Sync(SyncMessage { colrev: 3, source: alice() })
    );
}

#[test]
fn sync_on_empty_collection_sends_sync_complete_only() {
    let out = session().sync(Some(Ok(SyncResult { documents: vec![], colrev: 0 })));
    assert_eq!(
        out.messages,
        vec![ServerMessage::SyncComplete(SyncCompleteMessage { col: "c1".to_string(), colrev: 0 })]
    );
    assert!(out.proceed);
}

#[test]
fn sync_sends_documents_in_order_then_sync_complete() {
    let documents = vec![document(2, 5, Some("Qg==")), document(1, 4, None), document(3, 6, Some("QQ=="))];
    let out = session().sync(Some(Ok(SyncResult { documents, colrev: 6 })));
    assert_eq!(
        out.messages,
        vec![
            doc_frame(2, 5, Some("Qg==")),
            doc_frame(1, 4, None),
            doc_frame(3, 6, Some("QQ==")),
            ServerMessage::SyncComplete(SyncCompleteMessage { col: "c1".to_string(), colrev: 6 }),
        ]
    );
    assert!(out.proceed);
}

#[test]
fn failed_sync_sends_sync_error_and_ends_the_session() {
    let out = session().sync(Some(Err(SinkronError::unprocessable("Invalid colrev"))));
    assert_eq!(
        out.messages,
        vec![ServerMessage::SyncError(SyncErrorMessage {
            col: "c1".to_string(),
            code: ErrorCode::UnprocessableContent,
        })]
    );
    assert!(!out.proceed);
    let out = session().sync(None);
    assert_eq!(
        out.messages,
        vec![ServerMessage::SyncError(SyncErrorMessage {
            col: "c1".to_string(),
            code: ErrorCode::InternalServerError,
        })]
    );
    assert!(!out.proceed);
}

#[test]
fn heartbeat_is_answered_with_the_next_counter_and_resets_the_deadline() {
    let mut s = session();
    let reply = s.handle_heartbeat(HeartbeatMessage { i: 41 }, 30_000);
    assert_eq!(reply, ServerMessage::Heartbeat(HeartbeatMessage { i: 42 }));
    assert_eq!(s.deadline, 90_000);
    let step = s.handle_message(ClientMessage::Heartbeat(HeartbeatMessage { i: -1 }), 50_000);
    assert_eq!(step, ClientStep::Send(ServerMessage::Heartbeat(HeartbeatMessage { i: 0 })));
    assert_eq!(s.deadline, 110_000);
}

#[test]
fn heartbeat_without_successor_ends_the_session() {
    let mut s = session();
    let step = s.handle_message(ClientMessage::Heartbeat(HeartbeatMessage { i: i32::MAX }), 5_000);
    assert_eq!(step, ClientStep::Disconnect);
    assert_eq!(s.deadline, 61_000);
    let step = s.handle_message(ClientMessage::Heartbeat(HeartbeatMessage { i: i32::MAX - 1 }), 5_000);
    assert_eq!(step, ClientStep::Send(ServerMessage::Heartbeat(HeartbeatMessage { i: i32::MAX })));
}

#[test]
fn idle_client_expires_after_sixty_seconds() {
    let mut s = session();
    assert!(!s.is_expired(1_000));
    assert!(!s.is_expired(60_999));
    assert!(s.is_expired(61_000));
    assert_eq!(s.handle_event(ClientEvent::Timeout, 61_000), ClientStep::Disconnect);
}

#[test]
fn only_a_heartbeat_resets_the_deadline() {
    let mut s = session();
    let get = ClientMessage::Get(protocol::GetMessage { id: id(1), col: "c1".to_string() });
    s.handle_event(ClientEvent::Inbound(Frame::Text(Some(get))), 40_000);
    s.handle_event(ClientEvent::Inbound(Frame::Text(Some(ClientMessage::Change(change(Op::Delete, None))))), 45_000);
    s.handle_event(ClientEvent::Inbound(Frame::Other), 50_000);
    s.handle_event(ClientEvent::Outbound(ClientActorMessage::Raw("{}".to_string())), 55_000);
    assert_eq!(s.deadline, 61_000);
    assert!(s.is_expired(61_000));
    s.handle_event(
        ClientEvent::Inbound(Frame::Text(Some(ClientMessage::Heartbeat(HeartbeatMessage { i: 1 })))),
        60_000,
    );
    assert_eq!(s.deadline, 120_000);
    assert!(!s.is_expired(61_000));
}

#[test]
fn get_is_forwarded_to_the_session_collection() {
    let s = session();
    let step = s.handle_get(protocol::GetMessage { id: id(9), col: "elsewhere".to_string() });
    assert_eq!(
        step,
        ClientStep::Forward {
            request: CollectionMessage::Get(GetMessage { id: id(9), source: alice() }),
            waiting: Waiting::Get { id: id(9) },
        }
    );
}

#[test]
fn valid_changes_are_forwarded() {
    let s = session();
    let waiting = Waiting::Change { id: id(1), changeid: id(0xCA) };
    assert_eq!(
        s.handle_change(change(Op::Create, Some("QQ=="))),
        ClientStep::Forward {
            request: CollectionMessage::Create(CreateMessage {
                id: id(1),
                data: "QQ==".to_string(),
                source: alice(),
                changeid: id(0xCA),
            }),
            waiting,
        }
    );
    assert_eq!(
        s.handle_change(change(Op::Update, Some("QQ=="))),
        ClientStep::Forward {
            request: CollectionMessage::Update(UpdateMessage {
                id: id(1),
                data: "QQ==".to_string(),
                source: alice(),
                changeid: id(0xCA),
            }),
            waiting,
        }
    );
    assert_eq!(
        s.handle_change(change(Op::Delete, None)),
        ClientStep::Forward {
            request: CollectionMessage::Delete(DeleteMessage {
                id: id(1),
                source: alice(),
                changeid: id(0xCA),
            }),
            waiting,
        }
    );
}

#[test]
fn invalid_changes_are_bad_requests() {
    let s = session();
    assert_eq!(s.handle_change(change(Op::Create, None)), bad_request());
    assert_eq!(s.handle_change(change(Op::Update, None)), bad_request());
    assert_eq!(s.handle_change(change(Op::Delete, Some("QQ=="))), bad_request());
}

#[test]
fn events_are_dispatched() {
    let mut s = session();
    let change_msg = ServerMessage::ChangeError(ChangeErrorMessage {
        code: ErrorCode::Forbidden,
        id: id(1),
        changeid: id(2),
    });
    assert_eq!(
        s.handle_event(ClientEvent::Outbound(ClientActorMessage::Raw("{\"kind\":\"change\"}".to_string())), 0),
        ClientStep::SendRaw("{\"kind\":\"change\"}".to_string())
    );
    assert_eq!(
        s.handle_event(ClientEvent::Outbound(ClientActorMessage::Sinkron(change_msg.clone())), 0),
        ClientStep::Send(change_msg)
    );
    assert_eq!(s.handle_event(ClientEvent::Inbound(Frame::Other), 0), ClientStep::Continue);
    assert_eq!(s.handle_event(ClientEvent::Inbound(Frame::Text(None)), 0), ClientStep::Disconnect);
    assert_eq!(s.handle_event(ClientEvent::Inbound(Frame::Closed), 0), ClientStep::Disconnect);
    assert_eq!(
        s.handle_event(ClientEvent::Inbound(Frame::Text(Some(ClientMessage::Change(change(Op::Create, None))))), 0),
        bad_request()
    );
    assert_eq!(s, session());
}

#[test]
fn get_reply_is_a_doc_or_a_get_error() {
    let s = session();
    let waiting = Waiting::Get { id: id(4) };
    assert_eq!(
        s.handle_reply(waiting, Some(Reply::Document(Ok(document(4, 2, Some("QQ=="))))))
        ,
        Some(doc_frame(4, 2, Some("QQ==")))
    );
    assert_eq!(
        s.handle_reply(waiting, Some(Reply::Document(Err(SinkronError::forbidden("no"))))),
        Some(ServerMessage::GetError(GetErrorMessage { id: id(4), code: ErrorCode::Forbidden }))
    );
    assert_eq!(
        s.handle_reply(waiting, None),
        Some(ServerMessage::GetError(GetErrorMessage { id: id(4), code: ErrorCode::InternalServerError }))
    );
    assert_eq!(
        s.handle_reply(waiting, Some(Reply::Sync(Ok(SyncResult { documents: vec![], colrev: 0 })))),
        Some(ServerMessage::GetError(GetErrorMessage { id: id(4), code: ErrorCode::InternalServerError }))
    );
}

#[test]
fn change_reply_is_silent_on_success() {
    let s = session();
    let waiting = Waiting::Change { id: id(4), changeid: id(5) };
    assert_eq!(s.handle_reply(waiting, Some(Reply::Document(Ok(document(4, 2, None))))), None);
    assert_eq!(
        s.handle_reply(waiting, Some(Reply::Document(Err(SinkronError::not_found("gone"))))),
        Some(ServerMessage::ChangeError(ChangeErrorMessage {
            code: ErrorCode::NotFound,
            id: id(4),
            changeid: id(5),
        }))
    );
    assert_eq!(
        s.handle_reply(waiting, None),
        Some(ServerMessage::ChangeError(ChangeErrorMessage {
            code: ErrorCode::InternalServerError,
            id: id(4),
            changeid: id(5),
        }))
    );
}
