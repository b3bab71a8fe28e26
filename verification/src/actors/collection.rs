//! The collection actor: it serialises every read and write of one
//! collection, holds the current colrev and the parsed permissions, keeps the
//! roster of subscribers and says who is told about each change.
//!
//! The actor never touches the store, the groups service or the CRDT worker
//! itself.  Handling a message yields a [`Step`]: either the operation is
//! over, or the actor asks for one thing ([`Request`]) and names what it waits
//! for ([`Pending`]).  The driver performs the request and calls
//! [`CollectionActor::handle_response`] with the outcome.

use crate::encoding::{base64_decode, base64_encode, decode, encode};
use crate::error::{fails, internal_error, SinkronError, StoreError};
use crate::models;
use crate::permissions::{Action, Permissions, PermissionsView, UserView};
use crate::protocol::{ErrorCode, Op, ServerChangeMessage};
use crate::types::{Collection, Document, DocumentView, User};
use uuid::Uuid;
use vstd::prelude::*;

verus! {

broadcast use vstd::seq_lib::group_seq_properties;

#[derive(Clone, Debug, PartialEq, Eq)]
pub struct SyncResult {
    pub documents: Vec<Document>,
    pub colrev: i64,
}

/// Where an operation comes from: a connected client, whose permissions are
/// checked, or the admin surface, which is trusted.
#[derive(Clone, Debug, PartialEq, Eq)]
pub enum Source {
    Client { user: String },
    Api,
}

#[derive(Clone, Debug, PartialEq, Eq)]
pub struct SyncMessage {
    pub colrev: i64,
    pub source: Source,
}

#[derive(Clone, Debug, PartialEq, Eq)]
pub struct GetMessage {
    pub id: Uuid,
    pub source: Source,
}

#[derive(Clone, Debug, PartialEq, Eq)]
pub struct CreateMessage {
    pub id: Uuid,
    pub data: String,
    pub source: Source,
    pub changeid: Uuid,
}

#[derive(Clone, Debug, PartialEq, Eq)]
pub struct UpdateMessage {
    pub id: Uuid,
    pub data: String,
    pub source: Source,
    pub changeid: Uuid,
}

#[derive(Clone, Debug, PartialEq, Eq)]
pub struct DeleteMessage {
    pub id: Uuid,
    pub source: Source,
    pub changeid: Uuid,
}

#[derive(Clone, Debug, PartialEq, Eq)]
pub enum CollectionMessage {
    Subscribe { client_id: i32 },
    Unsubscribe { client_id: i32 },
    Sync(SyncMessage),
    Get(GetMessage),
    Create(CreateMessage),
    Update(UpdateMessage),
    Delete(DeleteMessage),
}

/// Which documents a catching-up client is owed.
#[derive(Clone, Copy, Debug, PartialEq, Eq, Structural)]
pub enum SyncQuery {
    /// Every document that is not deleted: the initial sync.
    Live,
    /// Every document, tombstones included, changed after the given colrev.
    Since { colrev: i64 },
}

impl SyncQuery {
    /// Whether a row belongs to the answer.
    pub open spec fn selects(self, row: models::Document) -> bool {
        match self {
            SyncQuery::Live => !row.is_deleted,
            SyncQuery::Since { colrev } => row.colrev > colrev,
        }
    }

    /// The query for a client that has seen `colrev` and is behind.
    pub open spec fn after(colrev: i64) -> SyncQuery {
        if colrev == 0 {
            SyncQuery::Live
        } else {
            SyncQuery::Since { colrev }
        }
    }

    /// The rows of `rows` that belong to the answer, in their order.
    pub open spec fn answer(self, rows: Seq<models::Document>) -> Seq<models::Document> {
        rows.filter(|row: models::Document| self.selects(row))
    }

    pub fn matches(&self, row: &models::Document) -> (ok: bool)
        ensures
            ok == self.selects(*row),
    {
        match self {
            SyncQuery::Live => !row.is_deleted,
            SyncQuery::Since { colrev } => row.colrev > *colrev,
        }
    }
}

/// A row as the document a caller is shown: the payload becomes base64 text.
pub open spec fn presented(row: models::Document) -> DocumentView {
    DocumentView {
        id: row.id,
        created_at: row.created_at,
        updated_at: row.updated_at,
        data: match row.data {
            Some(bytes) => Some(base64_encode(bytes@)),
            None => None,
        },
        col: row.col_id@,
        colrev: row.colrev,
        permissions: row.permissions@,
    }
}

/// The documents shown for a sequence of rows, one for one.
pub open spec fn presented_all(rows: Seq<models::Document>) -> Seq<DocumentView> {
    rows.map_values(|row: models::Document| presented(row))
}

/// The views of a vector of documents.
pub open spec fn views(documents: Seq<Document>) -> Seq<DocumentView> {
    documents.map_values(|d: Document| d@)
}

/// A document row together with what decoding its permission text produced.
#[derive(Clone, Debug, PartialEq, Eq)]
pub struct LoadedDocument {
    pub row: models::Document,
    pub permissions: Option<Permissions>,
}

/// The one thing the actor needs from outside before it can go on.
#[derive(Clone, Debug, PartialEq, Eq)]
pub enum Request {
    /// Resolve a user id to the user and their groups.
    ResolveUser { user: String },
    /// Load the document with this id from the actor's collection.
    LoadDocument { id: Uuid },
    /// Count the documents with this id.
    CountDocuments { id: Uuid },
    /// Load the collection's documents that the query selects, oldest first.
    SelectDocuments { query: SyncQuery },
    /// Merge a base64 update into a snapshot, on a worker and under
    /// [`crate::crdt::MERGE_TIMEOUT_MS`].
    MergeUpdate { snapshot: Vec<u8>, update: String },
    /// Add one to the collection's colrev in the store and return the new
    /// value.
    IncrementColrev,
    /// Insert a new document row and return its creation time.
    InsertDocument { document: models::NewDocument },
    /// Rewrite a document row and return its update time.
    UpdateDocument { id: Uuid, changes: models::DocumentUpdate },
}

/// The outcome of a [`Request`].
#[derive(Debug, PartialEq, Eq)]
pub enum Response {
    User(Result<User, SinkronError>),
    Document(Result<LoadedDocument, StoreError>),
    Count(Result<i64, StoreError>),
    Documents(Result<Vec<models::Document>, StoreError>),
    /// `None` where the worker failed or ran out of time.
    Merged(Option<Result<Vec<u8>, SinkronError>>),
    Colrev(Result<i64, StoreError>),
    /// The time the store stamped on the row it wrote.
    Written(Result<i64, StoreError>),
}

/// What an operation waits for, with what it has gathered so far.
#[allow(inconsistent_fields)]
#[derive(Clone, Debug, PartialEq, Eq)]
pub enum Pending {
    SyncUser { colrev: i64 },
    SyncDocuments { colrev: i64 },
    GetDocument { source: Source },
    GetUser { loaded: LoadedDocument },
    CreateUser { id: Uuid, data: String, changeid: Uuid },
    CreateCount { id: Uuid, data: String, changeid: Uuid },
    CreateColrev { id: Uuid, data: String, decoded: Vec<u8>, changeid: Uuid },
    CreateInsert { document: Document, changeid: Uuid },
    UpdateDocument { data: Option<String>, source: Source, changeid: Uuid },
    UpdateUser { loaded: LoadedDocument, data: Option<String>, changeid: Uuid },
    UpdateMerge { document: Document, changeid: Uuid },
    UpdateColrev { document: Document, data: Option<Vec<u8>>, changeid: Uuid },
    UpdateWrite { document: Document, op: Op, changeid: Uuid },
}

/// What the caller of an operation is told.
#[derive(Debug, PartialEq, Eq)]
pub enum Reply {
    Sync(Result<SyncResult, SinkronError>),
    Document(Result<Document, SinkronError>),
}

/// One change envelope and the clients it goes to.
#[derive(Clone, Debug, PartialEq, Eq)]
pub struct Broadcast {
    pub message: ServerChangeMessage,
    pub recipients: Vec<i32>,
}

/// Where an operation stands after the actor has handled a message or a
/// response.
#[derive(Debug, PartialEq, Eq)]
pub enum Step {
    /// The actor needs `request` performed and will go on from `pending`.
    Ask { request: Request, pending: Pending },
    /// The operation is over: tell the caller, and the subscribers if there
    /// is something to announce.
    Reply { reply: Reply, broadcast: Option<Broadcast> },
    /// A roster change is done; `stop` says that the actor is to shut down.
    Idle { stop: bool },
    /// The merge worker failed: the actor is to terminate without a reply.
    Abort,
}

impl Pending {
    /// Whether the operation in flight is a sync, whose caller is owed a
    /// sync result.
    pub open spec fn is_sync(self) -> bool {
        self is SyncUser || self is SyncDocuments
    }

    /// The change id the operation in flight carries, if it is a mutation.
    pub open spec fn changeid(self) -> Option<Uuid> {
        match self {
            Pending::CreateUser { changeid, .. } => Some(changeid),
            Pending::CreateCount { changeid, .. } => Some(changeid),
            Pending::CreateColrev { changeid, .. } => Some(changeid),
            Pending::CreateInsert { changeid, .. } => Some(changeid),
            Pending::UpdateDocument { changeid, .. } => Some(changeid),
            Pending::UpdateUser { changeid, .. } => Some(changeid),
            Pending::UpdateMerge { changeid, .. } => Some(changeid),
            Pending::UpdateColrev { changeid, .. } => Some(changeid),
            Pending::UpdateWrite { changeid, .. } => Some(changeid),
            _ => None,
        }
    }
}

impl Step {
    /// The sync is answered with these documents and this colrev.
    pub open spec fn replies_sync(self, documents: Seq<DocumentView>, colrev: i64) -> bool {
        &&& self matches Step::Reply { reply: Reply::Sync(Ok(res)), broadcast: None }
        &&& res.documents@.len() == documents.len()
        &&& views(res.documents@) == documents
        &&& res.colrev == colrev
    }

    /// The sync fails with this kind and text; nothing is announced.
    pub open spec fn fails_sync(self, code: ErrorCode, message: Seq<char>) -> bool {
        &&& self matches Step::Reply { reply: Reply::Sync(res), broadcast: None }
        &&& fails(res, code, message)
    }

    /// The sync fails because the store did; nothing is announced.
    pub open spec fn sync_store_failure(self, err: StoreError) -> bool {
        &&& self matches Step::Reply { reply: Reply::Sync(Err(e)), broadcast: None }
        &&& err.internal(e)
    }

    /// The operation on a document is answered with this document; nothing
    /// is announced.
    pub open spec fn replies_document(self, document: DocumentView) -> bool {
        &&& self matches Step::Reply { reply: Reply::Document(Ok(doc)), broadcast: None }
        &&& doc@ == document
    }

    /// The operation on a document fails with this kind and text; nothing is
    /// announced.
    pub open spec fn fails_document(self, code: ErrorCode, message: Seq<char>) -> bool {
        &&& self matches Step::Reply { reply: Reply::Document(res), broadcast: None }
        &&& fails(res, code, message)
    }

    /// The operation on a document fails because the store did; nothing is
    /// announced.
    pub open spec fn document_store_failure(self, err: StoreError) -> bool {
        &&& self matches Step::Reply { reply: Reply::Document(Err(e)), broadcast: None }
        &&& err.internal(e)
    }

    /// The operation fails because the document could not be loaded: a
    /// missing row is `not_found`, anything else `internal_server_error`.
    pub open spec fn document_not_loaded(self, err: StoreError) -> bool {
        &&& self matches Step::Reply { reply: Reply::Document(Err(e)), broadcast: None }
        &&& err.reported("Document not found"@, e)
    }

    /// The caller is told `reply` and nothing is announced.
    pub open spec fn only_replies(self, reply: Reply) -> bool {
        self == (Step::Reply { reply, broadcast: None })
    }

    /// Whether the step announces a change to the subscribers.
    pub open spec fn announces(self) -> bool {
        self matches Step::Reply { broadcast: Some(_), .. }
    }
}

/// What the actor keeps in memory of its collection's row.
#[derive(Clone, Debug, PartialEq, Eq)]
pub struct CollectionState {
    pub colrev: i64,
    pub permissions: Permissions,
}

impl CollectionState {
    /// The state for a collection row, given what decoding its permission
    /// text produced.
    pub fn new(col: &Collection, permissions: Option<Permissions>) -> (state: Self)
        ensures
            state.colrev == col.colrev,
            permissions matches Some(p) ==> state.permissions == p,
            permissions is None ==> state.permissions@ == PermissionsView::empty(),
    {
        Self { colrev: col.colrev, permissions: Permissions::parse_or_empty(permissions) }
    }
}

/// One collection's actor.
pub struct CollectionActor {
    id: String,
    state: CollectionState,
    permissions_text: String,
    subscribers: Vec<i32>,
}

/// The actor as contracts speak of it.
pub struct CollectionActorView {
    /// The collection's id.
    pub id: Seq<char>,
    /// The collection revision the actor knows to be current.
    pub colrev: i64,
    /// The collection's permissions.
    pub permissions: PermissionsView,
    /// The permission text that new documents inherit.
    pub permissions_text: Seq<char>,
    /// The ids of the subscribed clients.
    pub subscribers: Set<i32>,
}

impl View for CollectionActor {
    type V = CollectionActorView;

    closed spec fn view(&self) -> CollectionActorView {
        CollectionActorView {
            id: self.id@,
            colrev: self.state.colrev,
            permissions: self.state.permissions@,
            permissions_text: self.permissions_text@,
            subscribers: self.subscribers@.to_set(),
        }
    }
}

/// Removing the one occurrence of a value from a sequence without duplicates
/// removes the value from its set.
proof fn lemma_remove_from_roster(s: Seq<i32>, i: int)
    requires
        s.no_duplicates(),
        0 <= i < s.len(),
    ensures
        s.remove(i).no_duplicates(),
        s.remove(i).to_set() == s.to_set().remove(s[i]),
{
    let r = s.remove(i);
    s.remove_ensures(i);
    assert forall|x: i32| r.to_set().contains(x) <==> s.to_set().remove(s[i]).contains(x) by {
        if r.contains(x) {
            let j = choose|j: int| 0 <= j < r.len() && r[j] == x;
            if j < i {
                assert(s[j] == x);
            } else {
                assert(s[j + 1] == x);
            }
        }
        if s.contains(x) && x != s[i] {
            let j = choose|j: int| 0 <= j < s.len() && s[j] == x;
            if j < i {
                assert(r[j] == x);
            } else {
                assert(r[j - 1] == x);
            }
        }
    }
    assert(r.to_set() =~= s.to_set().remove(s[i]));
}

/// A copy of a list of client ids.
fn copy_ids(ids: &Vec<i32>) -> (copy: Vec<i32>)
    ensures
        copy@ == ids@,
{
    let mut copy: Vec<i32> = Vec::new();
    let mut i: usize = 0;
    while i < ids.len()
        invariant
            i <= ids.len(),
            copy@ == ids@.take(i as int),
        decreases ids.len() - i,
    {
        copy.push(ids[i]);
        i += 1;
    }
    copy
}

/// The position of `id` in `ids`, if it occurs.
fn position(ids: &Vec<i32>, id: i32) -> (found: Option<usize>)
    ensures
        match found {
            Some(i) => i < ids.len() && ids@[i as int] == id,
            None => !ids@.contains(id),
        },
{
    let mut i: usize = 0;
    while i < ids.len()
        invariant
            i <= ids.len(),
            forall|j: int| 0 <= j < i ==> ids@[j] != id,
        decreases ids.len() - i,
    {
        if ids[i] == id {
            return Some(i);
        }
        i += 1;
    }
    None
}

/// The document a caller is shown for a row.
fn present(row: &models::Document) -> (doc: Document)
    ensures
        doc@ == presented(*row),
{
    let data = match &row.data {
        Some(bytes) => Some(encode(bytes)),
        None => None,
    };
    Document {
        id: row.id,
        created_at: row.created_at,
        updated_at: row.updated_at,
        data,
        col: row.col_id.clone(),
        colrev: row.colrev,
        permissions: row.permissions.clone(),
    }
}

/// The documents a query owes for the rows of the collection, in the rows'
/// order.
fn select(rows: &Vec<models::Document>, query: SyncQuery) -> (documents: Vec<Document>)
    ensures
        views(documents@) == presented_all(query.answer(rows@)),
{
    let ghost pred = |row: models::Document| query.selects(row);
    let ghost show = |row: models::Document| presented(row);
    let ghost view = |d: Document| d@;
    let mut documents: Vec<Document> = Vec::new();
    let mut i: usize = 0;
    assert(rows@.take(0).filter(pred) =~= Seq::<models::Document>::empty());
    while i < rows.len()
        invariant
            i <= rows.len(),
            pred == (|row: models::Document| query.selects(row)),
            show == (|row: models::Document| presented(row)),
            view == (|d: Document| d@),
            documents@.map_values(view) == rows@.take(i as int).filter(pred).map_values(show),
        decreases rows.len() - i,
    {
        let ghost before = rows@.take(i as int);
        proof {
            rows@.lemma_take_succ_push(i as int);
            before.lemma_filter_push(rows@[i as int], pred);
        }
        if query.matches(&rows[i]) {
            let doc = present(&rows[i]);
            proof {
                documents@.lemma_push_map_commute(view, doc);
                before.filter(pred).lemma_push_map_commute(show, rows@[i as int]);
            }
            documents.push(doc);
        }
        i += 1;
    }
    assert(rows@.take(rows.len() as int) =~= rows@);
    documents
}

impl CollectionActor {
    #[verifier::type_invariant]
    spec fn roster_is_a_set(&self) -> bool {
        self.subscribers@.no_duplicates()
    }

    /// The actor for a collection row as the store holds it, with nobody
    /// subscribed yet.
    pub fn new(col: Collection, permissions: Option<Permissions>) -> (actor: Self)
        ensures
            actor@.id == col.id@,
            actor@.colrev == col.colrev,
            actor@.permissions_text == col.permissions@,
            permissions matches Some(p) ==> actor@.permissions == p@,
            permissions is None ==> actor@.permissions == PermissionsView::empty(),
            actor@.subscribers == Set::<i32>::empty(),
    {
        let state = CollectionState::new(&col, permissions);
        let subscribers: Vec<i32> = Vec::new();
        assert(subscribers@.to_set() =~= Set::<i32>::empty());
        CollectionActor { id: col.id, state, permissions_text: col.permissions, subscribers }
    }

    pub fn id(&self) -> (id: &String)
        ensures
            id@ == self@.id,
    {
        &self.id
    }

    pub fn colrev(&self) -> (colrev: i64)
        ensures
            colrev == self@.colrev,
    {
        self.state.colrev
    }

    pub fn permissions(&self) -> (permissions: &Permissions)
        ensures
            permissions@ == self@.permissions,
    {
        &self.state.permissions
    }

    /// The subscribed clients, each once.
    pub fn subscribers(&self) -> (ids: &Vec<i32>)
        ensures
            ids@.no_duplicates(),
            ids@.to_set() == self@.subscribers,
    {
        proof {
            use_type_invariant(self);
        }
        &self.subscribers
    }

    /// Adds a client to the roster.
    pub fn handle_subscribe(&mut self, id: i32)
        ensures
            final(self)@ == (CollectionActorView {
                subscribers: old(self)@.subscribers.insert(id),
                ..old(self)@
            }),
    {
        proof {
            use_type_invariant(&*self);
        }
        match position(&self.subscribers, id) {
            Some(_) => {
                assert(self@.subscribers.insert(id) =~= self@.subscribers);
            },
            None => {
                proof {
                    self.subscribers@.lemma_push_to_set_commute(id);
                }
                let mut roster: Vec<i32> = Vec::new();
                core::mem::swap(&mut self.subscribers, &mut roster);
                roster.push(id);
                self.subscribers = roster;
            },
        }
    }

    /// Removes a client from the roster.  The actor is to stop when nobody is
    /// left.
    pub fn handle_unsubscribe(&mut self, id: i32) -> (stop: bool)
        ensures
            final(self)@ == (CollectionActorView {
                subscribers: old(self)@.subscribers.remove(id),
                ..old(self)@
            }),
            stop == (final(self)@.subscribers == Set::<i32>::empty()),
    {
        proof {
            use_type_invariant(&*self);
        }
        match position(&self.subscribers, id) {
            Some(i) => {
                proof {
                    lemma_remove_from_roster(self.subscribers@, i as int);
                }
                let mut roster: Vec<i32> = Vec::new();
                core::mem::swap(&mut self.subscribers, &mut roster);
                roster.remove(i);
                self.subscribers = roster;
            },
            None => {
                assert(self@.subscribers.remove(id) =~= self@.subscribers);
            },
        }
        let stop = self.subscribers.len() == 0;
        proof {
            if stop {
                assert(self.subscribers@.to_set() =~= Set::<i32>::empty());
            } else {
                assert(self.subscribers@.to_set().contains(self.subscribers@[0]));
            }
        }
        stop
    }

    /// The document a caller is shown for a row.
    pub fn doc_from_model(doc: models::Document) -> (res: Document)
        ensures
            res@ == presented(doc),
    {
        present(&doc)
    }

    /// Whether the collection lets `user` perform `action`.
    pub fn check_col_permission(&self, user: &User, action: Action) -> (res: Result<(), SinkronError>)
        ensures
            self@.permissions.permits(user@, action) ==> res is Ok,
            !self@.permissions.permits(user@, action) ==> fails(
                res,
                ErrorCode::Forbidden,
                "Operation is forbidden"@,
            ),
    {
        if self.state.permissions.check(user, action) {
            Ok(())
        } else {
            Err(SinkronError::forbidden("Operation is forbidden"))
        }
    }

    /// Whether a document lets `user` perform `action`, given what decoding
    /// the document's permission text produced.  Text that does not decode
    /// permits nothing.
    pub fn check_doc_permission(
        permissions: Option<Permissions>,
        user: &User,
        action: Action,
    ) -> (res: Result<(), SinkronError>)
        ensures
            document_permits(permissions, user@, action) ==> res is Ok,
            !document_permits(permissions, user@, action) ==> fails(
                res,
                ErrorCode::Forbidden,
                "Operation is forbidden"@,
            ),
    {
        let permissions = Permissions::parse_or_empty(permissions);
        if permissions.check(user, action) {
            Ok(())
        } else {
            Err(SinkronError::forbidden("Operation is forbidden"))
        }
    }

    /// The reply to a sync whose response was not what was asked.
    fn unexpected_sync() -> (step: Step)
        ensures
            step.fails_sync(ErrorCode::InternalServerError, CollectionActorView::unexpected()),
    {
        Step::Reply {
            reply: Reply::Sync(Err(SinkronError::internal("Unexpected response"))),
            broadcast: None,
        }
    }

    /// The reply to an operation on a document whose response was not what
    /// was asked.
    fn unexpected_document() -> (step: Step)
        ensures
            step.fails_document(ErrorCode::InternalServerError, CollectionActorView::unexpected()),
    {
        Step::Reply {
            reply: Reply::Document(Err(SinkronError::internal("Unexpected response"))),
            broadcast: None,
        }
    }

    /// The reply to an operation on a document that fails with `e`.
    fn refuse_document(e: SinkronError) -> (step: Step)
        ensures
            step.only_replies(Reply::Document(Err(e))),
    {
        Step::Reply { reply: Reply::Document(Err(e)), broadcast: None }
    }

    /// The catch-up rule for a caller that may read.
    fn sync_authorized(&self, colrev: i64) -> (step: Step)
        ensures
            self@.sync_step(colrev, step),
    {
        if colrev > self.state.colrev {
            Step::Reply {
                reply: Reply::Sync(Err(SinkronError::unprocessable("Invalid colrev"))),
                broadcast: None,
            }
        } else if colrev == self.state.colrev {
            let documents: Vec<Document> = Vec::new();
            assert(views(documents@) =~= Seq::<DocumentView>::empty());
            Step::Reply {
                reply: Reply::Sync(Ok(SyncResult { documents, colrev: self.state.colrev })),
                broadcast: None,
            }
        } else {
            let query = if colrev == 0 {
                SyncQuery::Live
            } else {
                SyncQuery::Since { colrev }
            };
            Step::Ask {
                request: Request::SelectDocuments { query },
                pending: Pending::SyncDocuments { colrev },
            }
        }
    }

    /// Begins a sync for a caller that has seen `msg.colrev`.
    pub fn handle_sync(&self, msg: SyncMessage) -> (step: Step)
        ensures
            self@.sync_starts(msg, step),
    {
        match msg.source {
            Source::Api => self.sync_authorized(msg.colrev),
            Source::Client { user } => Step::Ask {
                request: Request::ResolveUser { user },
                pending: Pending::SyncUser { colrev: msg.colrev },
            },
        }
    }

    fn sync_user_resolved(&self, colrev: i64, response: Response) -> (step: Step)
        ensures
            self@.sync_user_step(colrev, response, step),
    {
        match response {
            Response::User(Ok(user)) => match self.check_col_permission(&user, Action::Read) {
                Ok(()) => self.sync_authorized(colrev),
                Err(e) => Step::Reply { reply: Reply::Sync(Err(e)), broadcast: None },
            },
            Response::User(Err(e)) => Step::Reply { reply: Reply::Sync(Err(e)), broadcast: None },
            _ => Self::unexpected_sync(),
        }
    }

    fn sync_documents_loaded(&self, colrev: i64, response: Response) -> (step: Step)
        ensures
            self@.sync_documents_step(colrev, response, step),
    {
        match response {
            Response::Documents(Ok(rows)) => {
                let query = if colrev == 0 {
                    SyncQuery::Live
                } else {
                    SyncQuery::Since { colrev }
                };
                let documents = select(&rows, query);
                Step::Reply {
                    reply: Reply::Sync(Ok(SyncResult { documents, colrev: self.state.colrev })),
                    broadcast: None,
                }
            },
            Response::Documents(Err(err)) => Step::Reply {
                reply: Reply::Sync(Err(internal_error(err))),
                broadcast: None,
            },
            _ => Self::unexpected_sync(),
        }
    }

    /// Begins a get.
    pub fn handle_get(&self, msg: GetMessage) -> (step: Step)
        ensures
            self@.get_starts(msg, step),
    {
        Step::Ask {
            request: Request::LoadDocument { id: msg.id },
            pending: Pending::GetDocument { source: msg.source },
        }
    }

    fn get_document_loaded(&self, source: Source, response: Response) -> (step: Step)
        ensures
            self@.get_document_step(source, response, step),
    {
        match response {
            Response::Document(Ok(loaded)) => match source {
                Source::Api => Step::Reply {
                    reply: Reply::Document(Ok(present(&loaded.row))),
                    broadcast: None,
                },
                Source::Client { user } => Step::Ask {
                    request: Request::ResolveUser { user },
                    pending: Pending::GetUser { loaded },
                },
            },
            Response::Document(Err(err)) => Self::refuse_document(err.report("Document not found")),
            _ => Self::unexpected_document(),
        }
    }

    fn get_user_resolved(&self, loaded: LoadedDocument, response: Response) -> (step: Step)
        ensures
            self@.get_user_step(loaded, response, step),
    {
        match response {
            Response::User(Ok(user)) => {
                let LoadedDocument { row, permissions } = loaded;
                match Self::check_doc_permission(permissions, &user, Action::Read) {
                    Ok(()) => Step::Reply {
                        reply: Reply::Document(Ok(present(&row))),
                        broadcast: None,
                    },
                    Err(e) => Self::refuse_document(e),
                }
            },
            Response::User(Err(e)) => Self::refuse_document(e),
            _ => Self::unexpected_document(),
        }
    }

    /// Adopts the colrev the store handed out for a mutation.  A store that
    /// failed leaves the actor as it was.
    pub fn increment_colrev(&mut self, bumped: Result<i64, StoreError>) -> (res: Result<i64, SinkronError>)
        ensures
            match bumped {
                Ok(colrev) => {
                    &&& res == Ok::<i64, SinkronError>(colrev)
                    &&& final(self)@ == (CollectionActorView { colrev, ..old(self)@ })
                },
                Err(err) => res matches Err(e) && err.internal(e) && final(self)@ == old(self)@,
            },
    {
        match bumped {
            Ok(colrev) => {
                proof {
                    use_type_invariant(&*self);
                }
                self.state.colrev = colrev;
                Ok(colrev)
            },
            Err(err) => Err(internal_error(err)),
        }
    }

    /// The envelope addressed to every subscriber, each once.
    pub fn broadcast(&self, message: ServerChangeMessage) -> (b: Broadcast)
        ensures
            b.message == message,
            b.recipients@.no_duplicates(),
            b.recipients@.to_set() == self@.subscribers,
    {
        proof {
            use_type_invariant(self);
        }
        Broadcast { message, recipients: copy_ids(&self.subscribers) }
    }

    /// Ends a mutation that was committed: announces the change and shows the
    /// caller the document.
    fn committed(&self, doc: Document, op: Op, changeid: Uuid) -> (step: Step)
        ensures
            step matches Step::Reply { reply: Reply::Document(Ok(d)), broadcast: Some(b) } && d == doc
                && self@.announcement(b, doc, op, changeid),
    {
        let data = match &doc.data {
            Some(text) => Some(text.clone()),
            None => None,
        };
        let message = ServerChangeMessage {
            id: doc.id,
            col: doc.col.clone(),
            op,
            data,
            changeid,
            colrev: doc.colrev,
            created_at: doc.created_at,
            updated_at: doc.updated_at,
        };
        let broadcast = self.broadcast(message);
        Step::Reply { reply: Reply::Document(Ok(doc)), broadcast: Some(broadcast) }
    }

    /// Begins a create.
    pub fn handle_create(&self, msg: CreateMessage) -> (step: Step)
        ensures
            self@.create_starts(msg, step),
    {
        let CreateMessage { id, data, source, changeid } = msg;
        match source {
            Source::Api => Step::Ask {
                request: Request::CountDocuments { id },
                pending: Pending::CreateCount { id, data, changeid },
            },
            Source::Client { user } => Step::Ask {
                request: Request::ResolveUser { user },
                pending: Pending::CreateUser { id, data, changeid },
            },
        }
    }

    fn create_user_resolved(
        &self,
        id: Uuid,
        data: String,
        changeid: Uuid,
        response: Response,
    ) -> (step: Step)
        ensures
            self@.create_user_step(id, data, changeid, response, step),
    {
        match response {
            Response::User(Ok(user)) => match self.check_col_permission(&user, Action::Create) {
                Ok(()) => Step::Ask {
                    request: Request::CountDocuments { id },
                    pending: Pending::CreateCount { id, data, changeid },
                },
                Err(e) => Self::refuse_document(e),
            },
            Response::User(Err(e)) => Self::refuse_document(e),
            _ => Self::unexpected_document(),
        }
    }

    fn create_counted(&self, id: Uuid, data: String, changeid: Uuid, response: Response) -> (step: Step)
        ensures
            self@.create_count_step(id, data, changeid, response, step),
    {
        match response {
            Response::Count(Ok(count)) => {
                if count != 0 {
                    return Self::refuse_document(SinkronError::unprocessable("Duplicate document id"));
                }
                match decode(data.as_str()) {
                    None => Self::refuse_document(
                        SinkronError::bad_request("Couldn't decode data from base64"),
                    ),
                    Some(decoded) => Step::Ask {
                        request: Request::IncrementColrev,
                        pending: Pending::CreateColrev { id, data, decoded, changeid },
                    },
                }
            },
            Response::Count(Err(err)) => Self::refuse_document(internal_error(err)),
            _ => Self::unexpected_document(),
        }
    }

    fn create_colrev_incremented(
        &mut self,
        id: Uuid,
        data: String,
        decoded: Vec<u8>,
        changeid: Uuid,
        response: Response,
    ) -> (step: Step)
        ensures
            old(self)@.create_colrev_step(id, data, decoded, changeid, response, final(self)@, step),
    {
        match response {
            Response::Colrev(bumped) => match self.increment_colrev(bumped) {
                Ok(colrev) => {
                    let row = models::NewDocument {
                        id,
                        col_id: self.id.clone(),
                        colrev,
                        data: decoded,
                        permissions: self.permissions_text.clone(),
                    };
                    let document = Document {
                        id,
                        created_at: 0,
                        updated_at: 0,
                        data: Some(data),
                        col: self.id.clone(),
                        colrev,
                        permissions: self.permissions_text.clone(),
                    };
                    Step::Ask {
                        request: Request::InsertDocument { document: row },
                        pending: Pending::CreateInsert { document, changeid },
                    }
                },
                Err(e) => Self::refuse_document(e),
            },
            _ => Self::unexpected_document(),
        }
    }

    fn create_inserted(&self, document: Document, changeid: Uuid, response: Response) -> (step: Step)
        ensures
            self@.create_insert_step(document, changeid, response, step),
    {
        match response {
            Response::Written(Ok(created_at)) => {
                let mut doc = document;
                doc.created_at = created_at;
                doc.updated_at = created_at;
                self.committed(doc, Op::Create, changeid)
            },
            Response::Written(Err(err)) => Self::refuse_document(internal_error(err)),
            _ => Self::unexpected_document(),
        }
    }

    /// Begins an update, or a delete where `data` is `None`.
    pub fn handle_update(
        &self,
        id: Uuid,
        data: Option<String>,
        source: Source,
        changeid: Uuid,
    ) -> (step: Step)
        ensures
            self@.update_starts(id, data, source, changeid, step),
    {
        Step::Ask {
            request: Request::LoadDocument { id },
            pending: Pending::UpdateDocument { data, source, changeid },
        }
    }

    /// The preconditions of an update or a delete, for a caller that may do
    /// it.
    fn update_authorized(
        &self,
        row: models::Document,
        data: Option<String>,
        changeid: Uuid,
    ) -> (step: Step)
        ensures
            self@.update_step(row, data, changeid, step),
    {
        let models::Document {
            id,
            created_at,
            updated_at,
            col_id,
            colrev,
            data: stored,
            is_deleted: _,
            permissions,
        } = row;
        let document = Document {
            id,
            created_at,
            updated_at,
            data: None,
            col: col_id,
            colrev,
            permissions,
        };
        match data {
            Some(update) => match stored {
                None => Self::refuse_document(
                    SinkronError::unprocessable("Couldn't update deleted document"),
                ),
                Some(snapshot) => Step::Ask {
                    request: Request::MergeUpdate { snapshot, update },
                    pending: Pending::UpdateMerge { document, changeid },
                },
            },
            None => match stored {
                None => Self::refuse_document(SinkronError::unprocessable("Document is already deleted")),
                Some(_) => Step::Ask {
                    request: Request::IncrementColrev,
                    pending: Pending::UpdateColrev { document, data: None, changeid },
                },
            },
        }
    }

    fn update_document_loaded(
        &self,
        data: Option<String>,
        source: Source,
        changeid: Uuid,
        response: Response,
    ) -> (step: Step)
        ensures
            self@.update_document_step(data, source, changeid, response, step),
    {
        match response {
            Response::Document(Ok(loaded)) => match source {
                Source::Api => self.update_authorized(loaded.row, data, changeid),
                Source::Client { user } => Step::Ask {
                    request: Request::ResolveUser { user },
                    pending: Pending::UpdateUser { loaded, data, changeid },
                },
            },
            Response::Document(Err(err)) => Self::refuse_document(err.report("Document not found")),
            _ => Self::unexpected_document(),
        }
    }

    fn update_user_resolved(
        &self,
        loaded: LoadedDocument,
        data: Option<String>,
        changeid: Uuid,
        response: Response,
    ) -> (step: Step)
        ensures
            self@.update_user_step(loaded, data, changeid, response, step),
    {
        match response {
            Response::User(Ok(user)) => {
                let LoadedDocument { row, permissions } = loaded;
                let action = if data.is_none() {
                    Action::Delete
                } else {
                    Action::Update
                };
                match Self::check_doc_permission(permissions, &user, action) {
                    Ok(()) => self.update_authorized(row, data, changeid),
                    Err(e) => Self::refuse_document(e),
                }
            },
            Response::User(Err(e)) => Self::refuse_document(e),
            _ => Self::unexpected_document(),
        }
    }

    fn update_merged(&self, document: Document, changeid: Uuid, response: Response) -> (step: Step)
        ensures
            self@.update_merge_step(document, changeid, response, step),
    {
        match response {
            Response::Merged(Some(Ok(snapshot))) => Step::Ask {
                request: Request::IncrementColrev,
                pending: Pending::UpdateColrev { document, data: Some(snapshot), changeid },
            },
            Response::Merged(Some(Err(e))) => Self::refuse_document(e),
            Response::Merged(None) => Step::Abort,
            _ => Self::unexpected_document(),
        }
    }

    fn update_colrev_incremented(
        &mut self,
        document: Document,
        data: Option<Vec<u8>>,
        changeid: Uuid,
        response: Response,
    ) -> (step: Step)
        ensures
            old(self)@.update_colrev_step(document, data, changeid, response, final(self)@, step),
    {
        match response {
            Response::Colrev(bumped) => match self.increment_colrev(bumped) {
                Ok(colrev) => {
                    let (text, op) = match &data {
                        Some(bytes) => (Some(encode(bytes)), Op::Update),
                        None => (None, Op::Delete),
                    };
                    let is_deleted = data.is_none();
                    let id = document.id;
                    let mut shown = document;
                    shown.colrev = colrev;
                    shown.data = text;
                    Step::Ask {
                        request: Request::UpdateDocument {
                            id,
                            changes: models::DocumentUpdate { colrev, is_deleted, data },
                        },
                        pending: Pending::UpdateWrite { document: shown, op, changeid },
                    }
                },
                Err(e) => Self::refuse_document(e),
            },
            _ => Self::unexpected_document(),
        }
    }

    fn update_written(
        &self,
        document: Document,
        op: Op,
        changeid: Uuid,
        response: Response,
    ) -> (step: Step)
        ensures
            self@.update_write_step(document, op, changeid, response, step),
    {
        match response {
            Response::Written(Ok(updated_at)) => {
                let mut doc = document;
                doc.updated_at = updated_at;
                self.committed(doc, op, changeid)
            },
            Response::Written(Err(err)) => Self::refuse_document(internal_error(err)),
            _ => Self::unexpected_document(),
        }
    }

    /// Handles one message from the inbox.
    pub fn handle_message(&mut self, msg: CollectionMessage) -> (step: Step)
        ensures
            old(self)@.starts(msg, final(self)@, step),
    {
        match msg {
            CollectionMessage::Subscribe { client_id } => {
                self.handle_subscribe(client_id);
                Step::Idle { stop: false }
            },
            CollectionMessage::Unsubscribe { client_id } => {
                let stop = self.handle_unsubscribe(client_id);
                Step::Idle { stop }
            },
            CollectionMessage::Sync(msg) => self.handle_sync(msg),
            CollectionMessage::Get(msg) => self.handle_get(msg),
            CollectionMessage::Create(msg) => self.handle_create(msg),
            CollectionMessage::Update(msg) => {
                let UpdateMessage { id, data, source, changeid } = msg;
                self.handle_update(id, Some(data), source, changeid)
            },
            CollectionMessage::Delete(msg) => {
                let DeleteMessage { id, source, changeid } = msg;
                self.handle_update(id, None, source, changeid)
            },
        }
    }

    /// Goes on with the operation in flight, given the outcome of what the
    /// actor asked for.
    pub fn handle_response(&mut self, pending: Pending, response: Response) -> (step: Step)
        ensures
            old(self)@.resumes(pending, response, final(self)@, step),
    {
        match pending {
            Pending::SyncUser { colrev } => self.sync_user_resolved(colrev, response),
            Pending::SyncDocuments { colrev } => self.sync_documents_loaded(colrev, response),
            Pending::GetDocument { source } => self.get_document_loaded(source, response),
            Pending::GetUser { loaded } => self.get_user_resolved(loaded, response),
            Pending::CreateUser { id, data, changeid } => self.create_user_resolved(
                id,
                data,
                changeid,
                response,
            ),
            Pending::CreateCount { id, data, changeid } => self.create_counted(
                id,
                data,
                changeid,
                response,
            ),
            Pending::CreateColrev { id, data, decoded, changeid } => self.create_colrev_incremented(
                id,
                data,
                decoded,
                changeid,
                response,
            ),
            Pending::CreateInsert { document, changeid } => self.create_inserted(
                document,
                changeid,
                response,
            ),
            Pending::UpdateDocument { data, source, changeid } => self.update_document_loaded(
                data,
                source,
                changeid,
                response,
            ),
            Pending::UpdateUser { loaded, data, changeid } => self.update_user_resolved(
                loaded,
                data,
                changeid,
                response,
            ),
            Pending::UpdateMerge { document, changeid } => self.update_merged(
                document,
                changeid,
                response,
            ),
            Pending::UpdateColrev { document, data, changeid } => self.update_colrev_incremented(
                document,
                data,
                changeid,
                response,
            ),
            Pending::UpdateWrite { document, op, changeid } => self.update_written(
                document,
                op,
                changeid,
                response,
            ),
        }
    }
}

impl CollectionActorView {
    /// The text sent where a response does not answer what was asked.
    pub open spec fn unexpected() -> Seq<char> {
        "Unexpected response"@
    }

    /// The catch-up rule, for a caller that may read.  A client that has
    /// seen the current colrev is owed nothing; one that claims a later
    /// colrev is refused; any other is owed the documents that
    /// [`SyncQuery::after`] selects.
    pub open spec fn sync_step(self, colrev: i64, step: Step) -> bool {
        if colrev > self.colrev {
            step.fails_sync(ErrorCode::UnprocessableContent, "Invalid colrev"@)
        } else if colrev == self.colrev {
            step.replies_sync(Seq::empty(), self.colrev)
        } else {
            step == (Step::Ask {
                request: Request::SelectDocuments { query: SyncQuery::after(colrev) },
                pending: Pending::SyncDocuments { colrev },
            })
        }
    }

    /// A sync begins: the admin surface goes straight to the catch-up rule, a
    /// client's user is resolved first.
    pub open spec fn sync_starts(self, msg: SyncMessage, step: Step) -> bool {
        match msg.source {
            Source::Api => self.sync_step(msg.colrev, step),
            Source::Client { user } => step == (Step::Ask {
                request: Request::ResolveUser { user },
                pending: Pending::SyncUser { colrev: msg.colrev },
            }),
        }
    }

    /// A sync goes on once the client's user is known.
    pub open spec fn sync_user_step(self, colrev: i64, response: Response, step: Step) -> bool {
        match response {
            Response::User(Ok(user)) => if self.permissions.permits(user@, Action::Read) {
                self.sync_step(colrev, step)
            } else {
                step.fails_sync(ErrorCode::Forbidden, "Operation is forbidden"@)
            },
            Response::User(Err(e)) => step.only_replies(Reply::Sync(Err(e))),
            _ => step.fails_sync(ErrorCode::InternalServerError, Self::unexpected()),
        }
    }

    /// A sync ends once the rows are there: the reply holds the documents
    /// that the query selects among them, in the rows' order, and the
    /// actor's colrev.
    pub open spec fn sync_documents_step(self, colrev: i64, response: Response, step: Step) -> bool {
        match response {
            Response::Documents(Ok(rows)) => step.replies_sync(
                presented_all(SyncQuery::after(colrev).answer(rows@)),
                self.colrev,
            ),
            Response::Documents(Err(err)) => step.sync_store_failure(err),
            _ => step.fails_sync(ErrorCode::InternalServerError, Self::unexpected()),
        }
    }

    /// A get begins by loading the document.
    pub open spec fn get_starts(self, msg: GetMessage, step: Step) -> bool {
        step == (Step::Ask {
            request: Request::LoadDocument { id: msg.id },
            pending: Pending::GetDocument { source: msg.source },
        })
    }

    /// A get goes on once the document is loaded: the admin surface is shown
    /// it, a client's user is resolved first.
    pub open spec fn get_document_step(self, source: Source, response: Response, step: Step) -> bool {
        match response {
            Response::Document(Ok(loaded)) => match source {
                Source::Api => step.replies_document(presented(loaded.row)),
                Source::Client { user } => step == (Step::Ask {
                    request: Request::ResolveUser { user },
                    pending: Pending::GetUser { loaded },
                }),
            },
            Response::Document(Err(err)) => step.document_not_loaded(err),
            _ => step.fails_document(ErrorCode::InternalServerError, Self::unexpected()),
        }
    }

    /// A get ends once the client's user is known.
    pub open spec fn get_user_step(self, loaded: LoadedDocument, response: Response, step: Step) -> bool {
        match response {
            Response::User(Ok(user)) => if document_permits(loaded.permissions, user@, Action::Read) {
                step.replies_document(presented(loaded.row))
            } else {
                step.fails_document(ErrorCode::Forbidden, "Operation is forbidden"@)
            },
            Response::User(Err(e)) => step.only_replies(Reply::Document(Err(e))),
            _ => step.fails_document(ErrorCode::InternalServerError, Self::unexpected()),
        }
    }

    /// A change is announced as it was committed: one envelope that repeats
    /// the document and the caller's change id, for every subscriber once.
    pub open spec fn announcement(self, b: Broadcast, doc: Document, op: Op, changeid: Uuid) -> bool {
        &&& b.recipients@.no_duplicates()
        &&& b.recipients@.to_set() == self.subscribers
        &&& b.message == (ServerChangeMessage {
            id: doc.id,
            col: doc.col,
            op,
            data: doc.data,
            changeid,
            colrev: doc.colrev,
            created_at: doc.created_at,
            updated_at: doc.updated_at,
        })
    }

    /// A create begins: the admin surface goes straight to the duplicate
    /// check, a client's user is resolved first.
    pub open spec fn create_starts(self, msg: CreateMessage, step: Step) -> bool {
        match msg.source {
            Source::Api => step == (Step::Ask {
                request: Request::CountDocuments { id: msg.id },
                pending: Pending::CreateCount { id: msg.id, data: msg.data, changeid: msg.changeid },
            }),
            Source::Client { user } => step == (Step::Ask {
                request: Request::ResolveUser { user },
                pending: Pending::CreateUser { id: msg.id, data: msg.data, changeid: msg.changeid },
            }),
        }
    }

    /// A create goes on once the client's user is known.
    pub open spec fn create_user_step(
        self,
        id: Uuid,
        data: String,
        changeid: Uuid,
        response: Response,
        step: Step,
    ) -> bool {
        match response {
            Response::User(Ok(user)) => if self.permissions.permits(user@, Action::Create) {
                step == (Step::Ask {
                    request: Request::CountDocuments { id },
                    pending: Pending::CreateCount { id, data, changeid },
                })
            } else {
                step.fails_document(ErrorCode::Forbidden, "Operation is forbidden"@)
            },
            Response::User(Err(e)) => step.only_replies(Reply::Document(Err(e))),
            _ => step.fails_document(ErrorCode::InternalServerError, Self::unexpected()),
        }
    }

    /// A create goes on once the documents with its id are counted: an id
    /// that is taken and a payload that is not base64 end it, anything else
    /// asks for the next colrev.
    pub open spec fn create_count_step(
        self,
        id: Uuid,
        data: String,
        changeid: Uuid,
        response: Response,
        step: Step,
    ) -> bool {
        match response {
            Response::Count(Ok(count)) => if count != 0 {
                step.fails_document(ErrorCode::UnprocessableContent, "Duplicate document id"@)
            } else {
                match base64_decode(data@) {
                    None => step.fails_document(
                        ErrorCode::BadRequest,
                        "Couldn't decode data from base64"@,
                    ),
                    Some(bytes) => {
                        &&& step matches Step::Ask {
                            request: Request::IncrementColrev,
                            pending: Pending::CreateColrev { id: i, data: d, decoded, changeid: c },
                        }
                        &&& i == id
                        &&& d == data
                        &&& decoded@ == bytes
                        &&& c == changeid
                    },
                }
            },
            Response::Count(Err(err)) => step.document_store_failure(err),
            _ => step.fails_document(ErrorCode::InternalServerError, Self::unexpected()),
        }
    }

    /// A create goes on once the store has handed out the next colrev: the
    /// actor adopts it and asks for the row to be inserted with it.  The new
    /// document inherits the collection's permission text.
    pub open spec fn create_colrev_step(
        self,
        id: Uuid,
        data: String,
        decoded: Vec<u8>,
        changeid: Uuid,
        response: Response,
        next: Self,
        step: Step,
    ) -> bool {
        match response {
            Response::Colrev(Ok(colrev)) => {
                &&& next == (Self { colrev, ..self })
                &&& step matches Step::Ask {
                    request: Request::InsertDocument { document: row },
                    pending: Pending::CreateInsert { document, changeid: c },
                }
                &&& row.id == id
                &&& row.col_id@ == self.id
                &&& row.colrev == colrev
                &&& row.data == decoded
                &&& row.permissions@ == self.permissions_text
                &&& document@ == (DocumentView {
                    id,
                    created_at: 0,
                    updated_at: 0,
                    data: Some(data@),
                    col: self.id,
                    colrev,
                    permissions: self.permissions_text,
                })
                &&& c == changeid
            },
            Response::Colrev(Err(err)) => next == self && step.document_store_failure(err),
            _ => next == self && step.fails_document(
                ErrorCode::InternalServerError,
                Self::unexpected(),
            ),
        }
    }

    /// A create ends once the row is written: the caller is shown the
    /// document with the store's timestamp, and the change is announced.
    pub open spec fn create_insert_step(
        self,
        document: Document,
        changeid: Uuid,
        response: Response,
        step: Step,
    ) -> bool {
        match response {
            Response::Written(Ok(created_at)) => {
                &&& step matches Step::Reply { reply: Reply::Document(Ok(doc)), broadcast: Some(b) }
                &&& doc == (Document { created_at, updated_at: created_at, ..document })
                &&& self.announcement(b, doc, Op::Create, changeid)
            },
            Response::Written(Err(err)) => step.document_store_failure(err),
            _ => step.fails_document(ErrorCode::InternalServerError, Self::unexpected()),
        }
    }

    /// An update (with a payload) or a delete (without) begins by loading the
    /// document.
    pub open spec fn update_starts(
        self,
        id: Uuid,
        data: Option<String>,
        source: Source,
        changeid: Uuid,
        step: Step,
    ) -> bool {
        step == (Step::Ask {
            request: Request::LoadDocument { id },
            pending: Pending::UpdateDocument { data, source, changeid },
        })
    }

    /// The preconditions of an update or a delete, for a caller that may do
    /// it: a document that is already a tombstone can be neither updated nor
    /// deleted.  An update then asks for the merge, a delete for the next
    /// colrev.
    pub open spec fn update_step(
        self,
        row: models::Document,
        data: Option<String>,
        changeid: Uuid,
        step: Step,
    ) -> bool {
        match data {
            Some(update) => match row.data {
                None => step.fails_document(
                    ErrorCode::UnprocessableContent,
                    "Couldn't update deleted document"@,
                ),
                Some(snapshot) => step == (Step::Ask {
                    request: Request::MergeUpdate { snapshot, update },
                    pending: Pending::UpdateMerge { document: skeleton(row), changeid },
                }),
            },
            None => match row.data {
                None => step.fails_document(
                    ErrorCode::UnprocessableContent,
                    "Document is already deleted"@,
                ),
                Some(_) => step == (Step::Ask {
                    request: Request::IncrementColrev,
                    pending: Pending::UpdateColrev { document: skeleton(row), data: None, changeid },
                }),
            },
        }
    }

    /// An update or a delete goes on once the document is loaded.
    pub open spec fn update_document_step(
        self,
        data: Option<String>,
        source: Source,
        changeid: Uuid,
        response: Response,
        step: Step,
    ) -> bool {
        match response {
            Response::Document(Ok(loaded)) => match source {
                Source::Api => self.update_step(loaded.row, data, changeid, step),
                Source::Client { user } => step == (Step::Ask {
                    request: Request::ResolveUser { user },
                    pending: Pending::UpdateUser { loaded, data, changeid },
                }),
            },
            Response::Document(Err(err)) => step.document_not_loaded(err),
            _ => step.fails_document(ErrorCode::InternalServerError, Self::unexpected()),
        }
    }

    /// An update or a delete goes on once the client's user is known.
    pub open spec fn update_user_step(
        self,
        loaded: LoadedDocument,
        data: Option<String>,
        changeid: Uuid,
        response: Response,
        step: Step,
    ) -> bool {
        match response {
            Response::User(Ok(user)) => if document_permits(
                loaded.permissions,
                user@,
                action_for(data),
            ) {
                self.update_step(loaded.row, data, changeid, step)
            } else {
                step.fails_document(ErrorCode::Forbidden, "Operation is forbidden"@)
            },
            Response::User(Err(e)) => step.only_replies(Reply::Document(Err(e))),
            _ => step.fails_document(ErrorCode::InternalServerError, Self::unexpected()),
        }
    }

    /// An update goes on once the merge is over: a new snapshot asks for the
    /// next colrev, a refused merge ends the update, a failed worker ends the
    /// actor.
    pub open spec fn update_merge_step(
        self,
        document: Document,
        changeid: Uuid,
        response: Response,
        step: Step,
    ) -> bool {
        match response {
            Response::Merged(Some(Ok(snapshot))) => step == (Step::Ask {
                request: Request::IncrementColrev,
                pending: Pending::UpdateColrev { document, data: Some(snapshot), changeid },
            }),
            Response::Merged(Some(Err(e))) => step.only_replies(Reply::Document(Err(e))),
            Response::Merged(None) => step == Step::Abort,
            _ => step.fails_document(ErrorCode::InternalServerError, Self::unexpected()),
        }
    }

    /// An update or a delete goes on once the store has handed out the next
    /// colrev: the actor adopts it and asks for the row to be rewritten with
    /// it.  A delete clears the payload and marks the row deleted.
    pub open spec fn update_colrev_step(
        self,
        document: Document,
        data: Option<Vec<u8>>,
        changeid: Uuid,
        response: Response,
        next: Self,
        step: Step,
    ) -> bool {
        match response {
            Response::Colrev(Ok(colrev)) => {
                &&& next == (Self { colrev, ..self })
                &&& step matches Step::Ask {
                    request: Request::UpdateDocument { id, changes },
                    pending: Pending::UpdateWrite { document: d, op, changeid: c },
                }
                &&& id == document.id
                &&& changes == (models::DocumentUpdate { colrev, is_deleted: data is None, data })
                &&& d@ == (DocumentView { colrev, data: encoded(data), ..document@ })
                &&& op == op_for(data)
                &&& c == changeid
            },
            Response::Colrev(Err(err)) => next == self && step.document_store_failure(err),
            _ => next == self && step.fails_document(
                ErrorCode::InternalServerError,
                Self::unexpected(),
            ),
        }
    }

    /// An update or a delete ends once the row is written: the caller is
    /// shown the document with the store's timestamp, and the change is
    /// announced.
    pub open spec fn update_write_step(
        self,
        document: Document,
        op: Op,
        changeid: Uuid,
        response: Response,
        step: Step,
    ) -> bool {
        match response {
            Response::Written(Ok(updated_at)) => {
                &&& step matches Step::Reply { reply: Reply::Document(Ok(doc)), broadcast: Some(b) }
                &&& doc == (Document { updated_at, ..document })
                &&& self.announcement(b, doc, op, changeid)
            },
            Response::Written(Err(err)) => step.document_store_failure(err),
            _ => step.fails_document(ErrorCode::InternalServerError, Self::unexpected()),
        }
    }

    /// What handling a message does to the actor and which step it yields.
    pub open spec fn starts(self, msg: CollectionMessage, next: Self, step: Step) -> bool {
        match msg {
            CollectionMessage::Subscribe { client_id } => {
                &&& next == (Self { subscribers: self.subscribers.insert(client_id), ..self })
                &&& step == (Step::Idle { stop: false })
            },
            CollectionMessage::Unsubscribe { client_id } => {
                &&& next == (Self { subscribers: self.subscribers.remove(client_id), ..self })
                &&& step == (Step::Idle { stop: next.subscribers == Set::<i32>::empty() })
            },
            CollectionMessage::Sync(m) => next == self && self.sync_starts(m, step),
            CollectionMessage::Get(m) => next == self && self.get_starts(m, step),
            CollectionMessage::Create(m) => next == self && self.create_starts(m, step),
            CollectionMessage::Update(m) => next == self && self.update_starts(
                m.id,
                Some(m.data),
                m.source,
                m.changeid,
                step,
            ),
            CollectionMessage::Delete(m) => next == self && self.update_starts(
                m.id,
                None,
                m.source,
                m.changeid,
                step,
            ),
        }
    }

    /// What handling a response does to the actor and which step it yields.
    pub open spec fn resumes(self, pending: Pending, response: Response, next: Self, step: Step) -> bool {
        match pending {
            Pending::SyncUser { colrev } => next == self && self.sync_user_step(colrev, response, step),
            Pending::SyncDocuments { colrev } => next == self && self.sync_documents_step(
                colrev,
                response,
                step,
            ),
            Pending::GetDocument { source } => next == self && self.get_document_step(
                source,
                response,
                step,
            ),
            Pending::GetUser { loaded } => next == self && self.get_user_step(loaded, response, step),
            Pending::CreateUser { id, data, changeid } => next == self && self.create_user_step(
                id,
                data,
                changeid,
                response,
                step,
            ),
            Pending::CreateCount { id, data, changeid } => next == self && self.create_count_step(
                id,
                data,
                changeid,
                response,
                step,
            ),
            Pending::CreateColrev { id, data, decoded, changeid } => self.create_colrev_step(
                id,
                data,
                decoded,
                changeid,
                response,
                next,
                step,
            ),
            Pending::CreateInsert { document, changeid } => next == self && self.create_insert_step(
                document,
                changeid,
                response,
                step,
            ),
            Pending::UpdateDocument { data, source, changeid } => next == self
                && self.update_document_step(data, source, changeid, response, step),
            Pending::UpdateUser { loaded, data, changeid } => next == self && self.update_user_step(
                loaded,
                data,
                changeid,
                response,
                step,
            ),
            Pending::UpdateMerge { document, changeid } => next == self && self.update_merge_step(
                document,
                changeid,
                response,
                step,
            ),
            Pending::UpdateColrev { document, data, changeid } => self.update_colrev_step(
                document,
                data,
                changeid,
                response,
                next,
                step,
            ),
            Pending::UpdateWrite { document, op, changeid } => next == self && self.update_write_step(
                document,
                op,
                changeid,
                response,
                step,
            ),
        }
    }
}

/// The action an update message asks for: with a payload it updates, without
/// one it deletes.
pub open spec fn action_for(data: Option<String>) -> Action {
    if data is None {
        Action::Delete
    } else {
        Action::Update
    }
}

/// The kind of change a rewritten payload stands for: without a payload the
/// document was deleted.
pub open spec fn op_for(data: Option<Vec<u8>>) -> Op {
    if data is None {
        Op::Delete
    } else {
        Op::Update
    }
}

/// The base64 text of a payload, if there is one.
pub open spec fn encoded(data: Option<Vec<u8>>) -> Option<Seq<char>> {
    match data {
        Some(bytes) => Some(base64_encode(bytes@)),
        None => None,
    }
}

/// What a mutation keeps of the row it loaded while the payload is being
/// worked on.
pub open spec fn skeleton(row: models::Document) -> Document {
    Document {
        id: row.id,
        created_at: row.created_at,
        updated_at: row.updated_at,
        data: None,
        col: row.col_id,
        colrev: row.colrev,
        permissions: row.permissions,
    }
}

/// Whether a document whose permission text decoded to `permissions` lets
/// `user` perform `action`.
pub open spec fn document_permits(permissions: Option<Permissions>, user: UserView, action: Action) -> bool {
    match permissions {
        Some(p) => p@.permits(user, action),
        None => false,
    }
}

} // verus!
