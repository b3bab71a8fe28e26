use base64::Engine;
use sinkron::actors::collection::{
    Broadcast, CollectionActor, CollectionMessage, CollectionState, CreateMessage, DeleteMessage,
    GetMessage, LoadedDocument, Pending, Reply, Request, Response, Source, Step, SyncMessage,
    SyncQuery, UpdateMessage,
};
use sinkron::crdt::update_loro_doc;
use sinkron::error::{SinkronError, StoreError};
use sinkron::models;
use sinkron::permissions::{Action, Permissions, Role};
use sinkron::protocol::{ErrorCode, Op};
use sinkron::types::{Collection, Document, User};
use uuid::Uuid;

const OPEN: &str = "open";

fn b64(bytes: &[u8]) -> String {
    base64::prelude::BASE64_STANDARD.encode(bytes)
}

fn open_permissions() -> Permissions {
    Permissions {
        read: vec![Role::Any],
        create: vec![Role::Any],
        update: vec![Role::Any],
        delete: vec![Role::Any],
    }
}

fn alice_reads() -> Permissions {
    Permissions {
        read: vec![Role::User { id: "alice".to_string() }],
        create: vec![],
        update: vec![],
        delete: vec![],
    }
}

/// The collection's rows and counter as a store would keep them.
struct Store {
    colrev: i64,
    rows: Vec<models::Document>,
    clock: i64,
    permissions: Option<Permissions>,
    failing: bool,
    users_known: bool,
}

impl Store {
    fn new(permissions: Option<Permissions>) -> Store {
        Store { colrev: 0, rows: vec![], clock: 1_000, permissions, failing: false, users_known: true }
    }

    fn down(&self) -> StoreError {
        StoreError::Failed("connection refused".to_string())
    }

    fn perform(&mut self, request: Request) -> Response {
        match request {
            Request::ResolveUser { user } => {
                if self.users_known {
                    let groups = if user == "carol" { vec!["staff".to_string()] } else { vec![] };
                    Response::User(Ok(User { id: user, groups }))
                } else {
                    Response::User(Err(SinkronError::internal("groups unavailable")))
                }
            }
            Request::LoadDocument { id } => {
                if self.failing {
                    return Response::Document(Err(self.down()));
                }
                match self.rows.iter().find(|r| r.id == id) {
                    Some(row) => Response::Document(Ok(LoadedDocument {
                        row: row.clone(),
                        permissions: self.permissions.clone(),
                    })),
                    None => Response::Document(Err(StoreError::NotFound)),
                }
            }
            Request::CountDocuments { id } => {
                if self.failing {
                    return Response::Count(Err(self.down()));
                }
                Response::Count(Ok(self.rows.iter().filter(|r| r.id == id).count() as i64))
            }
            Request::SelectDocuments { query } => {
                if self.failing {
                    return Response::Documents(Err(self.down()));
                }
                let rows = self
                    .rows
                    .iter()
                    .filter(|r| match query {
                        SyncQuery::Live => !r.is_deleted,
                        SyncQuery::Since { colrev } => r.colrev > colrev,
                    })
                    .cloned()
                    .collect();
                Response::Documents(Ok(rows))
            }
            Request::MergeUpdate { snapshot, update } => {
                Response::Merged(Some(update_loro_doc(snapshot, &update)))
            }
            Request::IncrementColrev => {
                if self.failing {
                    return Response::Colrev(Err(self.down()));
                }
                self.colrev += 1;
                Response::Colrev(Ok(self.colrev))
            }
            Request::InsertDocument { document } => {
                self.clock += 10;
                self.rows.push(models::Document {
                    id: document.id,
                    created_at: self.clock,
                    updated_at: self.clock,
                    col_id: document.col_id,
                    colrev: document.colrev,
                    data: Some(document.data),
                    is_deleted: false,
                    permissions: document.permissions,
                });
                Response::Written(Ok(self.clock))
            }
            Request::UpdateDocument { id, changes } => {
                self.clock += 10;
                let clock = self.clock;
                let row = self.rows.iter_mut().find(|r| r.id == id).unwrap();
                row.colrev = changes.colrev;
                row.is_deleted = changes.is_deleted;
                row.data = changes.data;
                row.updated_at = clock;
                Response::Written(Ok(clock))
            }
        }
    }
}

fn spawn(store: &Store, id: &str) -> CollectionActor {
    CollectionActor::new(
        Collection {
            id: id.to_string(),
            is_ref: false,
            colrev: store.colrev,
            permissions: OPEN.to_string(),
        },
        store.permissions.clone(),
    )
}

/// Runs one message to its end, performing whatever the actor asks for.
fn run(actor: &mut CollectionActor, store: &mut Store, msg: CollectionMessage) -> Step {
    let mut step = actor.handle_message(msg);
    loop {
        match step {
            Step::Ask { request, pending } => {
                let response = store.perform(request);
                step = actor.handle_response(pending, response);
            }
            done => return done,
        }
    }
}

fn id(n: u128) -> Uuid {
    Uuid::from_u128(n)
}

fn client(user: &str) -> Source {
    Source::Client { user: user.to_string() }
}

fn create(n: u128, data: &str, source: Source, changeid: u128) -> CollectionMessage {
    CollectionMessage::Create(CreateMessage {
        id: id(n),
        data: data.to_string(),
        source,
        changeid: id(changeid),
    })
}

fn delete(n: u128, source: Source, changeid: u128) -> CollectionMessage {
    CollectionMessage::Delete(DeleteMessage { id: id(n), source, changeid: id(changeid) })
}

fn update(n: u128, data: &str, source: Source, changeid: u128) -> CollectionMessage {
    CollectionMessage::Update(UpdateMessage {
        id: id(n),
        data: data.to_string(),
        source,
        changeid: id(changeid),
    })
}

fn sync(colrev: i64, source: Source) -> CollectionMessage {
    CollectionMessage::Sync(SyncMessage { colrev, source })
}

fn get(n: u128, source: Source) -> CollectionMessage {
    CollectionMessage::Get(GetMessage { id: id(n), source })
}

fn committed(step: Step) -> (Document, Broadcast) {
    match step {
        Step::Reply { reply: Reply::Document(Ok(doc)), broadcast: Some(b) } => (doc, b),
        other => panic!("not committed: {:?}", other),
    }
}

fn synced(step: Step) -> (Vec<Document>, i64) {
    match step {
        Step::Reply { reply: Reply::Sync(Ok(res)), broadcast: None } => (res.documents, res.colrev),
        other => panic!("not synced: {:?}", other),
    }
}

fn shown(step: Step) -> Document {
    match step {
        Step::Reply { reply: Reply::Document(Ok(doc)), broadcast: None } => doc,
        other => panic!("not shown: {:?}", other),
    }
}

fn failure(step: Step) -> SinkronError {
    match step {
        Step::Reply { reply: Reply::Document(Err(e)), broadcast: None } => e,
        Step::Reply { reply: Reply::Sync(Err(e)), broadcast: None } => e,
        other => panic!("not a failure: {:?}", other),
    }
}

fn loro_snapshot(text: &str) -> (loro::LoroDoc, Vec<u8>) {
    let doc = loro::LoroDoc::new();
    doc.get_text("text").insert(0, text).unwrap();
    let snapshot = doc.export(loro::ExportMode::Snapshot).unwrap();
    (doc, snapshot)
}

#[test]
fn new_state_takes_the_row_and_degrades_undecodable_permissions() {
    let col = Collection {
        id: "c1".to_string(),
        is_ref: false,
        colrev: 7,
        permissions: "{".to_string(),
    };
    let state = CollectionState::new(&col, None);
    assert_eq!(state.colrev, 7);
    assert_eq!(state.permissions, Permissions::empty());
    let state = CollectionState::new(&col, Some(open_permissions()));
    assert_eq!(state.permissions, open_permissions());
}

#[test]
fn new_actor_has_no_subscribers() {
    let store = Store::new(Some(open_permissions()));
    let actor = spawn(&store, "c1");
    assert_eq!(actor.id(), "c1");
    assert_eq!(actor.colrev(), 0);
    assert!(actor.subscribers().is_empty());
    assert_eq!(actor.permissions(), &open_permissions());
}

#[test]
fn initial_sync_on_empty_collection_is_empty_at_colrev_zero() {
    let mut store = Store::new(Some(open_permissions()));
    let mut actor = spawn(&store, "c1");
    let (documents, colrev) = synced(run(&mut actor, &mut store, sync(0, client("anyone"))));
    assert!(documents.is_empty());
    assert_eq!(colrev, 0);
}

#[test]
fn sync_at_current_colrev_asks_the_store_nothing() {
    let store = Store::new(Some(open_permissions()));
    let mut actor = spawn(&store, "c1");
    let step = actor.handle_message(sync(0, Source::Api));
    assert_eq!(synced(step), (vec![], 0));
}

#[test]
fn create_is_broadcast_to_every_subscriber_once() {
    let mut store = Store::new(Some(open_permissions()));
    let mut actor = spawn(&store, "c1");
    assert_eq!(actor.handle_message(CollectionMessage::Subscribe { client_id: 1 }), Step::Idle { stop: false });
    assert_eq!(actor.handle_message(CollectionMessage::Subscribe { client_id: 2 }), Step::Idle { stop: false });
    let data = b64(b"snapshot");
    let (doc, b) = committed(run(&mut actor, &mut store, create(1, &data, client("a"), 0xCA)));
    assert_eq!(doc.id, id(1));
    assert_eq!(doc.col, "c1");
    assert_eq!(doc.colrev, 1);
    assert_eq!(doc.data, Some(data.clone()));
    assert_eq!(doc.created_at, 1_010);
    assert_eq!(doc.updated_at, 1_010);
    assert_eq!(doc.permissions, OPEN);
    assert_eq!(b.recipients, vec![1, 2]);
    assert_eq!(b.message.op, Op::Create);
    assert_eq!(b.message.id, id(1));
    assert_eq!(b.message.col, "c1");
    assert_eq!(b.message.colrev, 1);
    assert_eq!(b.message.changeid, id(0xCA));
    assert_eq!(b.message.data, Some(data));
    assert_eq!(b.message.created_at, 1_010);
    assert_eq!(b.message.updated_at, 1_010);
    assert_eq!(actor.colrev(), 1);
    assert_eq!(store.colrev, 1);
    assert_eq!(store.rows[0].data, Some(b"snapshot".to_vec()));
    assert_eq!(store.rows[0].permissions, OPEN);
}

#[test]
fn catch_up_sync_returns_what_changed_since() {
    let mut store = Store::new(Some(open_permissions()));
    let mut actor = spawn(&store, "c1");
    let data = b64(b"snapshot");
    committed(run(&mut actor, &mut store, create(1, &data, client("a"), 0xCA)));

    let (documents, colrev) = synced(run(&mut actor, &mut store, sync(0, client("c"))));
    assert_eq!(colrev, 1);
    assert_eq!(documents.len(), 1);
    assert_eq!(documents[0].id, id(1));
    assert_eq!(documents[0].colrev, 1);
    assert_eq!(documents[0].data, Some(data));

    let (documents, colrev) = synced(run(&mut actor, &mut store, sync(1, client("c"))));
    assert!(documents.is_empty());
    assert_eq!(colrev, 1);

    let e = failure(run(&mut actor, &mut store, sync(2, client("c"))));
    assert_eq!(e.code, ErrorCode::UnprocessableContent);
    assert_eq!(e.message, "Invalid colrev");
}

#[test]
fn delete_leaves_a_tombstone_that_only_catch_up_shows() {
    let mut store = Store::new(Some(open_permissions()));
    let mut actor = spawn(&store, "c1");
    actor.handle_subscribe(1);
    actor.handle_subscribe(2);
    committed(run(&mut actor, &mut store, create(1, &b64(b"snapshot"), client("a"), 0xCA)));
    let (doc, b) = committed(run(&mut actor, &mut store, delete(1, client("a"), 0xCA2)));
    assert_eq!(doc.data, None);
    assert_eq!(doc.colrev, 2);
    assert_eq!(doc.created_at, 1_010);
    assert_eq!(doc.updated_at, 1_020);
    assert_eq!(b.recipients, vec![1, 2]);
    assert_eq!(b.message.op, Op::Delete);
    assert_eq!(b.message.id, id(1));
    assert_eq!(b.message.colrev, 2);
    assert_eq!(b.message.data, None);
    assert_eq!(b.message.changeid, id(0xCA2));
    assert!(store.rows[0].is_deleted);
    assert_eq!(store.rows[0].data, None);

    let (documents, colrev) = synced(run(&mut actor, &mut store, sync(0, client("fresh"))));
    assert!(documents.is_empty());
    assert_eq!(colrev, 2);

    let (documents, colrev) = synced(run(&mut actor, &mut store, sync(1, client("fresh"))));
    assert_eq!(colrev, 2);
    assert_eq!(documents.len(), 1);
    assert_eq!(documents[0].id, id(1));
    assert_eq!(documents[0].data, None);
    assert_eq!(documents[0].colrev, 2);
}

#[test]
fn get_after_delete_shows_the_tombstone_and_update_is_unprocessable() {
    let mut store = Store::new(Some(open_permissions()));
    let mut actor = spawn(&store, "c1");
    committed(run(&mut actor, &mut store, create(1, &b64(b"snapshot"), Source::Api, 1)));
    committed(run(&mut actor, &mut store, delete(1, Source::Api, 2)));

    let doc = shown(run(&mut actor, &mut store, get(1, client("a"))));
    assert_eq!(doc.data, None);
    assert_eq!(doc.colrev, 2);
    let doc = shown(run(&mut actor, &mut store, get(1, Source::Api)));
    assert_eq!(doc.data, None);

    let e = failure(run(&mut actor, &mut store, update(1, &b64(b"x"), client("a"), 3)));
    assert_eq!(e.code, ErrorCode::UnprocessableContent);
    assert_eq!(e.message, "Couldn't update deleted document");
    let e = failure(run(&mut actor, &mut store, delete(1, client("a"), 4)));
    assert_eq!(e.code, ErrorCode::UnprocessableContent);
    assert_eq!(e.message, "Document is already deleted");
    assert_eq!(actor.colrev(), 2);
    assert_eq!(store.colrev, 2);
}

#[test]
fn permission_denial_is_forbidden() {
    let mut store = Store::new(Some(alice_reads()));
    let mut actor = spawn(&store, "c1");
    committed(run(&mut actor, &mut store, create(1, &b64(b"snapshot"), Source::Api, 1)));

    let e = failure(run(&mut actor, &mut store, get(1, client("bob"))));
    assert_eq!(e.code, ErrorCode::Forbidden);
    assert_eq!(e.message, "Operation is forbidden");
    let e = failure(run(&mut actor, &mut store, update(1, &b64(b"x"), client("alice"), 2)));
    assert_eq!(e.code, ErrorCode::Forbidden);
    let e = failure(run(&mut actor, &mut store, delete(1, client("alice"), 3)));
    assert_eq!(e.code, ErrorCode::Forbidden);
    let e = failure(run(&mut actor, &mut store, create(2, &b64(b"x"), client("alice"), 4)));
    assert_eq!(e.code, ErrorCode::Forbidden);
    let e = failure(run(&mut actor, &mut store, sync(0, client("bob"))));
    assert_eq!(e.code, ErrorCode::Forbidden);

    let doc = shown(run(&mut actor, &mut store, get(1, client("alice"))));
    assert_eq!(doc.id, id(1));
    let (documents, _) = synced(run(&mut actor, &mut store, sync(0, client("alice"))));
    assert_eq!(documents.len(), 1);
    assert_eq!(actor.colrev(), 1);
    assert_eq!(store.rows.len(), 1);
}

#[test]
fn undecodable_permissions_deny_clients_but_not_the_admin_surface() {
    let mut store = Store::new(None);
    let mut actor = spawn(&store, "c1");
    committed(run(&mut actor, &mut store, create(1, &b64(b"snapshot"), Source::Api, 1)));
    let e = failure(run(&mut actor, &mut store, get(1, client("alice"))));
    assert_eq!(e.code, ErrorCode::Forbidden);
    let e = failure(run(&mut actor, &mut store, sync(0, client("alice"))));
    assert_eq!(e.code, ErrorCode::Forbidden);
    assert_eq!(shown(run(&mut actor, &mut store, get(1, Source::Api))).id, id(1));
}

#[test]
fn check_permissions_directly() {
    let store = Store::new(Some(alice_reads()));
    let actor = spawn(&store, "c1");
    let alice = User { id: "alice".to_string(), groups: vec![] };
    let bob = User { id: "bob".to_string(), groups: vec![] };
    assert_eq!(actor.check_col_permission(&alice, Action::Read), Ok(()));
    let e = actor.check_col_permission(&bob, Action::Read).unwrap_err();
    assert_eq!(e, SinkronError::forbidden("Operation is forbidden"));
    assert_eq!(CollectionActor::check_doc_permission(Some(alice_reads()), &alice, Action::Read), Ok(()));
    assert!(CollectionActor::check_doc_permission(Some(alice_reads()), &alice, Action::Update).is_err());
    assert!(CollectionActor::check_doc_permission(None, &alice, Action::Read).is_err());
}

#[test]
fn missing_document_is_not_found() {
    let mut store = Store::new(Some(open_permissions()));
    let mut actor = spawn(&store, "c1");
    for msg in [get(9, Source::Api), update(9, &b64(b"x"), Source::Api, 1), delete(9, Source::Api, 2)] {
        let e = failure(run(&mut actor, &mut store, msg));
        assert_eq!(e.code, ErrorCode::NotFound);
        assert_eq!(e.message, "Document not found");
    }
    assert_eq!(store.colrev, 0);
}

#[test]
fn duplicate_id_is_unprocessable() {
    let mut store = Store::new(Some(open_permissions()));
    let mut actor = spawn(&store, "c1");
    committed(run(&mut actor, &mut store, create(1, &b64(b"a"), Source::Api, 1)));
    let e = failure(run(&mut actor, &mut store, create(1, &b64(b"b"), Source::Api, 2)));
    assert_eq!(e.code, ErrorCode::UnprocessableContent);
    assert_eq!(e.message, "Duplicate document id");
    assert_eq!(store.colrev, 1);
    assert_eq!(actor.colrev(), 1);
}

#[test]
fn undecodable_payload_is_a_bad_request_and_writes_nothing() {
    let mut store = Store::new(Some(open_permissions()));
    let mut actor = spawn(&store, "c1");
    let e = failure(run(&mut actor, &mut store, create(1, "not base64!", Source::Api, 1)));
    assert_eq!(e.code, ErrorCode::BadRequest);
    assert_eq!(e.message, "Couldn't decode data from base64");
    assert_eq!(store.colrev, 0);
    assert!(store.rows.is_empty());
}

#[test]
fn update_merges_the_crdt_and_is_broadcast() {
    let mut store = Store::new(Some(open_permissions()));
    let mut actor = spawn(&store, "c1");
    actor.handle_subscribe(5);
    let (doc_a, snapshot) = loro_snapshot("Hello");
    committed(run(&mut actor, &mut store, create(1, &b64(&snapshot), client("a"), 1)));

    let before = doc_a.oplog_vv();
    doc_a.get_text("text").insert(5, " world").unwrap();
    let delta = doc_a.export(loro::ExportMode::updates(&before)).unwrap();
    let (doc, b) = committed(run(&mut actor, &mut store, update(1, &b64(&delta), client("a"), 2)));
    assert_eq!(doc.colrev, 2);
    assert_eq!(doc.created_at, 1_010);
    assert_eq!(doc.updated_at, 1_020);
    assert_eq!(b.recipients, vec![5]);
    assert_eq!(b.message.op, Op::Update);
    assert_eq!(b.message.changeid, id(2));
    assert_eq!(b.message.data, doc.data);

    let stored = store.rows[0].data.clone().unwrap();
    assert_eq!(doc.data, Some(b64(&stored)));
    assert!(!store.rows[0].is_deleted);
    let merged = loro::LoroDoc::new();
    merged.import(&stored).unwrap();
    assert_eq!(merged.get_text("text").to_string(), "Hello world");
}

#[test]
fn update_that_does_not_import_is_a_bad_request() {
    let mut store = Store::new(Some(open_permissions()));
    let mut actor = spawn(&store, "c1");
    let (_, snapshot) = loro_snapshot("Hello");
    committed(run(&mut actor, &mut store, create(1, &b64(&snapshot), Source::Api, 1)));
    let e = failure(run(&mut actor, &mut store, update(1, &b64(b"garbage"), Source::Api, 2)));
    assert_eq!(e.code, ErrorCode::BadRequest);
    assert_eq!(e.message, "Couldn't import update");
    let e = failure(run(&mut actor, &mut store, update(1, "%%%", Source::Api, 3)));
    assert_eq!(e.code, ErrorCode::BadRequest);
    assert_eq!(e.message, "Couldn't decode update from base64");
    assert_eq!(store.colrev, 1);
    assert_eq!(actor.colrev(), 1);
}

#[test]
fn corrupt_snapshot_is_an_internal_error() {
    let mut store = Store::new(Some(open_permissions()));
    let mut actor = spawn(&store, "c1");
    committed(run(&mut actor, &mut store, create(1, &b64(b"not a snapshot"), Source::Api, 1)));
    let (doc_a, _) = loro_snapshot("Hello");
    let delta = doc_a.export(loro::ExportMode::all_updates()).unwrap();
    let e = failure(run(&mut actor, &mut store, update(1, &b64(&delta), Source::Api, 2)));
    assert_eq!(e.code, ErrorCode::InternalServerError);
    assert_eq!(e.message, "Couldn't import snapshot, data might be corrupted");
}

#[test]
fn failed_merge_worker_aborts_the_actor() {
    let store = Store::new(Some(open_permissions()));
    let mut actor = spawn(&store, "c1");
    let document = Document {
        id: id(1),
        created_at: 1,
        updated_at: 1,
        data: None,
        col: "c1".to_string(),
        colrev: 1,
        permissions: OPEN.to_string(),
    };
    let step = actor.handle_response(
        Pending::UpdateMerge { document, changeid: id(2) },
        Response::Merged(None),
    );
    assert_eq!(step, Step::Abort);
}

#[test]
fn store_failure_is_an_internal_error() {
    let mut store = Store::new(Some(open_permissions()));
    let mut actor = spawn(&store, "c1");
    committed(run(&mut actor, &mut store, create(1, &b64(b"a"), Source::Api, 1)));
    store.failing = true;
    for msg in [
        get(1, Source::Api),
        create(2, &b64(b"b"), Source::Api, 2),
        delete(1, Source::Api, 3),
        sync(0, Source::Api),
    ] {
        let e = failure(run(&mut actor, &mut store, msg));
        assert_eq!(e.code, ErrorCode::InternalServerError);
        assert_eq!(e.message, "connection refused");
    }
    assert_eq!(actor.colrev(), 1);
}

#[test]
fn failed_increment_and_failed_write_announce_nothing() {
    let store = Store::new(Some(open_permissions()));
    let mut actor = spawn(&store, "c1");
    actor.handle_subscribe(1);
    let step = actor.handle_response(
        Pending::CreateColrev { id: id(1), data: b64(b"a"), decoded: b"a".to_vec(), changeid: id(2) },
        Response::Colrev(Err(StoreError::NotFound)),
    );
    let e = failure(step);
    assert_eq!(e.code, ErrorCode::InternalServerError);
    assert_eq!(e.message, "Record not found");
    assert_eq!(actor.colrev(), 0);

    let step = actor.handle_response(
        Pending::CreateColrev { id: id(1), data: b64(b"a"), decoded: b"a".to_vec(), changeid: id(2) },
        Response::Colrev(Ok(1)),
    );
    assert_eq!(actor.colrev(), 1);
    let pending = match step {
        Step::Ask { request: Request::InsertDocument { document }, pending } => {
            assert_eq!(
                document,
                models::NewDocument {
                    id: id(1),
                    col_id: "c1".to_string(),
                    colrev: 1,
                    data: b"a".to_vec(),
                    permissions: OPEN.to_string(),
                }
            );
            pending
        }
        other => panic!("unexpected {:?}", other),
    };
    let step = actor.handle_response(pending, Response::Written(Err(StoreError::Failed("disk full".to_string()))));
    let e = failure(step);
    assert_eq!(e.code, ErrorCode::InternalServerError);
    assert_eq!(e.message, "disk full");
    assert_eq!(actor.colrev(), 1);
}

#[test]
fn failed_user_lookup_ends_the_operation_with_its_error() {
    let mut store = Store::new(Some(open_permissions()));
    let mut actor = spawn(&store, "c1");
    committed(run(&mut actor, &mut store, create(1, &b64(b"a"), Source::Api, 1)));
    store.users_known = false;
    for msg in [
        get(1, client("a")),
        create(2, &b64(b"b"), client("a"), 2),
        delete(1, client("a"), 3),
        sync(0, client("a")),
    ] {
        let e = failure(run(&mut actor, &mut store, msg));
        assert_eq!(e, SinkronError::internal("groups unavailable"));
    }
    assert_eq!(store.colrev, 1);
}

#[test]
fn response_that_was_not_asked_for_is_an_internal_error() {
    let store = Store::new(Some(open_permissions()));
    let mut actor = spawn(&store, "c1");
    let step = actor.handle_response(Pending::SyncDocuments { colrev: 0 }, Response::Count(Ok(0)));
    match step {
        Step::Reply { reply: Reply::Sync(Err(e)), broadcast: None } => {
            assert_eq!(e, SinkronError::internal("Unexpected response"));
        }
        other => panic!("unexpected {:?}", other),
    }
    let step = actor.handle_response(
        Pending::GetDocument { source: Source::Api },
        Response::Written(Ok(1)),
    );
    match step {
        Step::Reply { reply: Reply::Document(Err(e)), broadcast: None } => {
            assert_eq!(e, SinkronError::internal("Unexpected response"));
        }
        other => panic!("unexpected {:?}", other),
    }
}

#[test]
fn steps_ask_in_the_order_of_the_pipeline() {
    let store = Store::new(Some(open_permissions()));
    let mut actor = spawn(&store, "c1");
    let step = actor.handle_message(update(1, "AAAA", client("u"), 7));
    assert_eq!(
        step,
        Step::Ask {
            request: Request::LoadDocument { id: id(1) },
            pending: Pending::UpdateDocument {
                data: Some("AAAA".to_string()),
                source: client("u"),
                changeid: id(7),
            },
        }
    );
    let step = actor.handle_message(create(1, "AAAA", client("u"), 7));
    assert_eq!(
        step,
        Step::Ask {
            request: Request::ResolveUser { user: "u".to_string() },
            pending: Pending::CreateUser { id: id(1), data: "AAAA".to_string(), changeid: id(7) },
        }
    );
    let step = actor.handle_message(create(1, "AAAA", Source::Api, 7));
    assert_eq!(
        step,
        Step::Ask {
            request: Request::CountDocuments { id: id(1) },
            pending: Pending::CreateCount { id: id(1), data: "AAAA".to_string(), changeid: id(7) },
        }
    );
    let step = actor.handle_message(get(1, Source::Api));
    assert_eq!(
        step,
        Step::Ask {
            request: Request::LoadDocument { id: id(1) },
            pending: Pending::GetDocument { source: Source::Api },
        }
    );
    let step = actor.handle_message(sync(3, client("u")));
    assert_eq!(
        step,
        Step::Ask {
            request: Request::ResolveUser { user: "u".to_string() },
            pending: Pending::SyncUser { colrev: 3 },
        }
    );
}

#[test]
fn sync_behind_asks_for_live_rows_or_rows_since() {
    let mut store = Store::new(Some(open_permissions()));
    store.colrev = 5;
    let actor = spawn(&store, "c1");
    assert_eq!(
        actor.handle_sync(SyncMessage { colrev: 0, source: Source::Api }),
        Step::Ask {
            request: Request::SelectDocuments { query: SyncQuery::Live },
            pending: Pending::SyncDocuments { colrev: 0 },
        }
    );
    assert_eq!(
        actor.handle_sync(SyncMessage { colrev: 3, source: Source::Api }),
        Step::Ask {
            request: Request::SelectDocuments { query: SyncQuery::Since { colrev: 3 } },
            pending: Pending::SyncDocuments { colrev: 3 },
        }
    );
}

#[test]
fn sync_filters_rows_the_store_did_not_filter() {
    let mut store = Store::new(Some(open_permissions()));
    let mut actor = spawn(&store, "c1");
    for n in 1..=4u128 {
        committed(run(&mut actor, &mut store, create(n, &b64(&[n as u8]), Source::Api, n)));
    }
    committed(run(&mut actor, &mut store, delete(2, Source::Api, 9)));
    let all = store.rows.clone();

    let step = actor.handle_response(Pending::SyncDocuments { colrev: 3 }, Response::Documents(Ok(all.clone())));
    let (documents, colrev) = synced(step);
    assert_eq!(colrev, 5);
    let ids: Vec<Uuid> = documents.iter().map(|d| d.id).collect();
    assert_eq!(ids, vec![id(2), id(4)]);
    let colrevs: Vec<i64> = documents.iter().map(|d| d.colrev).collect();
    assert_eq!(colrevs, vec![5, 4]);
    assert_eq!(documents[0].data, None);
    assert_eq!(documents[1].data, Some("BA==".to_string()));

    let step = actor.handle_response(Pending::SyncDocuments { colrev: 0 }, Response::Documents(Ok(all)));
    let (documents, _) = synced(step);
    let ids: Vec<Uuid> = documents.iter().map(|d| d.id).collect();
    assert_eq!(ids, vec![id(1), id(3), id(4)]);
}

#[test]
fn query_matches_rows() {
    let row = models::Document {
        id: id(1),
        created_at: 1,
        updated_at: 2,
        col_id: "c1".to_string(),
        colrev: 4,
        data: None,
        is_deleted: true,
        permissions: OPEN.to_string(),
    };
    assert!(!SyncQuery::Live.matches(&row));
    assert!(SyncQuery::Since { colrev: 3 }.matches(&row));
    assert!(!SyncQuery::Since { colrev: 4 }.matches(&row));
}

#[test]
fn doc_from_model_encodes_the_payload() {
    let row = models::Document {
        id: id(1),
        created_at: 11,
        updated_at: 12,
        col_id: "c1".to_string(),
        colrev: 4,
        data: Some(b"hello".to_vec()),
        is_deleted: false,
        permissions: OPEN.to_string(),
    };
    let doc = CollectionActor::doc_from_model(row.clone());
    assert_eq!(
        doc,
        Document {
            id: id(1),
            created_at: 11,
            updated_at: 12,
            data: Some("aGVsbG8=".to_string()),
            col: "c1".to_string(),
            colrev: 4,
            permissions: OPEN.to_string(),
        }
    );
    let tombstone = CollectionActor::doc_from_model(models::Document { data: None, is_deleted: true, ..row });
    assert_eq!(tombstone.data, None);
}

#[test]
fn colrev_in_replies_never_decreases() {
    let mut store = Store::new(Some(open_permissions()));
    let mut actor = spawn(&store, "c1");
    let mut seen = vec![];
    seen.push(synced(run(&mut actor, &mut store, sync(0, Source::Api))).1);
    seen.push(committed(run(&mut actor, &mut store, create(1, &b64(b"a"), Source::Api, 1))).0.colrev);
    seen.push(synced(run(&mut actor, &mut store, sync(0, Source::Api))).1);
    failure(run(&mut actor, &mut store, create(1, &b64(b"a"), Source::Api, 2)));
    seen.push(synced(run(&mut actor, &mut store, sync(1, Source::Api))).1);
    seen.push(committed(run(&mut actor, &mut store, create(2, &b64(b"b"), Source::Api, 3))).0.colrev);
    seen.push(committed(run(&mut actor, &mut store, delete(1, Source::Api, 4))).0.colrev);
    seen.push(synced(run(&mut actor, &mut store, sync(2, Source::Api))).1);
    assert_eq!(seen, vec![0, 1, 1, 1, 2, 3, 3]);
}

#[test]
fn respawned_actor_answers_sync_alike() {
    let mut store = Store::new(Some(open_permissions()));
    let mut actor = spawn(&store, "c1");
    actor.handle_subscribe(1);
    committed(run(&mut actor, &mut store, create(1, &b64(b"a"), Source::Api, 1)));
    committed(run(&mut actor, &mut store, create(2, &b64(b"b"), Source::Api, 2)));
    let before = synced(run(&mut actor, &mut store, sync(1, client("x"))));
    assert!(actor.handle_unsubscribe(1));
    let mut again = spawn(&store, "c1");
    assert_eq!(again.colrev(), 2);
    let after = synced(run(&mut again, &mut store, sync(1, client("x"))));
    assert_eq!(before, after);
    assert_eq!(
        synced(run(&mut again, &mut store, sync(0, client("x")))),
        synced(run(&mut actor, &mut store, sync(0, client("x"))))
    );
}

#[test]
fn roster_is_a_set_and_the_last_to_leave_stops_the_actor() {
    let store = Store::new(Some(open_permissions()));
    let mut actor = spawn(&store, "c1");
    actor.handle_subscribe(3);
    actor.handle_subscribe(4);
    actor.handle_subscribe(3);
    assert_eq!(actor.subscribers(), &vec![3, 4]);
    assert!(!actor.handle_unsubscribe(9));
    assert!(!actor.handle_unsubscribe(3));
    assert_eq!(actor.subscribers(), &vec![4]);
    assert_eq!(
        actor.handle_message(CollectionMessage::Unsubscribe { client_id: 4 }),
        Step::Idle { stop: true }
    );
    assert!(actor.subscribers().is_empty());
    assert!(actor.handle_unsubscribe(4));
}

#[test]
fn increment_colrev_adopts_what_the_store_hands_out() {
    let store = Store::new(Some(open_permissions()));
    let mut actor = spawn(&store, "c1");
    assert_eq!(actor.increment_colrev(Ok(8)), Ok(8));
    assert_eq!(actor.colrev(), 8);
    let e = actor.increment_colrev(Err(StoreError::Failed("down".to_string()))).unwrap_err();
    assert_eq!(e, SinkronError::internal("down"));
    assert_eq!(actor.colrev(), 8);
}

#[test]
fn mutation_without_subscribers_is_broadcast_to_nobody() {
    let mut store = Store::new(Some(open_permissions()));
    let mut actor = spawn(&store, "c1");
    let (_, b) = committed(run(&mut actor, &mut store, create(1, &b64(b"a"), Source::Api, 1)));
    assert!(b.recipients.is_empty());
}
