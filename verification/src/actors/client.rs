//! The client actor: one connected client's session.
//!
//! The actor owns neither the socket nor the timer.  It is told what
//! happened ([`ClientEvent`]) and answers with what is to be done
//! ([`ClientStep`]): write a frame, pass a request on to the collection, keep
//! waiting, or disconnect.

use crate::actors::collection::{
    CollectionMessage, CreateMessage, DeleteMessage, Reply, Source, SyncMessage, SyncResult,
    UpdateMessage,
};
use crate::actors::collection;
use crate::error::SinkronError;
use crate::protocol::{
    ChangeErrorMessage, ClientChangeMessage, ClientMessage, DocMessage, ErrorCode, GetErrorMessage,
    GetMessage, HeartbeatMessage, Op, ServerMessage, SyncCompleteMessage, SyncErrorMessage,
};
use crate::types::Document;
use uuid::Uuid;
use vstd::prelude::*;

verus! {

broadcast use vstd::seq_lib::group_seq_properties;

/// How long a client may stay silent, in milliseconds, before it is
/// disconnected.  Only a heartbeat counts as a sign of life.
pub const DISCONNECT_TIMEOUT_MS: u64 = 60_000;

/// What the collection sends to a client: a message still to be encoded, or
/// a frame that is ready to be written.
#[derive(Clone, Debug, PartialEq, Eq)]
pub enum ClientActorMessage {
    Sinkron(ServerMessage),
    Raw(String),
}

/// What arrived from the socket.
#[derive(Clone, Debug, PartialEq, Eq)]
pub enum Frame {
    /// A text frame, with the message it decodes to, if it decodes.
    Text(Option<ClientMessage>),
    /// A frame of any other kind.
    Other,
    /// The socket was closed or failed.
    Closed,
}

/// One of the three things the session waits for.
#[derive(Clone, Debug, PartialEq, Eq)]
pub enum ClientEvent {
    /// The disconnect timer fired.
    Timeout,
    /// The collection sent a message.
    Outbound(ClientActorMessage),
    /// The socket delivered a frame.
    Inbound(Frame),
}

/// What a request passed on to the collection is for, kept until the reply
/// is there.
#[derive(Clone, Copy, Debug, PartialEq, Eq)]
pub enum Waiting {
    Get { id: Uuid },
    Change { id: Uuid, changeid: Uuid },
}

/// What the session does next.
#[derive(Clone, Debug, PartialEq, Eq)]
pub enum ClientStep {
    /// Nothing: keep waiting.
    Continue,
    /// Encode the message and write it to the socket.
    Send(ServerMessage),
    /// Write the frame to the socket as it is.
    SendRaw(String),
    /// Send the request to the collection and hand its reply to
    /// [`ClientActor::handle_reply`].
    Forward { request: CollectionMessage, waiting: Waiting },
    /// End the session.
    Disconnect,
}

/// The frames that open a session, and whether the session goes on after
/// them.
#[derive(Clone, Debug, PartialEq, Eq)]
pub struct SyncOutcome {
    pub messages: Vec<ServerMessage>,
    pub proceed: bool,
}

/// One client's session.
#[derive(Clone, Debug, PartialEq, Eq)]
pub struct ClientActor {
    pub client_id: i32,
    pub user_id: String,
    /// The id of the collection the client is connected to.
    pub col: String,
    /// The colrev the client connected with.
    pub colrev: i64,
    /// When the client is disconnected unless it sends a heartbeat, in
    /// milliseconds on the driver's clock.
    pub deadline: u64,
}

/// A document as it travels to a client.
pub open spec fn doc_message(doc: Document) -> DocMessage {
    DocMessage {
        id: doc.id,
        col: doc.col,
        colrev: doc.colrev,
        data: doc.data,
        created_at: doc.created_at,
        updated_at: doc.updated_at,
    }
}

/// The deadline for a client heard from at `now`.
pub open spec fn deadline_after(now: u64) -> u64 {
    if now + DISCONNECT_TIMEOUT_MS > u64::MAX {
        u64::MAX
    } else {
        (now + DISCONNECT_TIMEOUT_MS) as u64
    }
}

/// The reply a collection's answer stands for, where `None` means that the
/// collection went away without answering or answered something else.
pub open spec fn document_reply(reply: Option<Reply>) -> Option<Result<Document, SinkronError>> {
    match reply {
        Some(Reply::Document(res)) => Some(res),
        _ => None,
    }
}

fn deadline_from(now: u64) -> (deadline: u64)
    ensures
        deadline == deadline_after(now),
{
    if now > u64::MAX - DISCONNECT_TIMEOUT_MS {
        u64::MAX
    } else {
        now + DISCONNECT_TIMEOUT_MS
    }
}

fn to_doc_message(doc: Document) -> (msg: DocMessage)
    ensures
        msg == doc_message(doc),
{
    DocMessage {
        id: doc.id,
        col: doc.col,
        colrev: doc.colrev,
        data: doc.data,
        created_at: doc.created_at,
        updated_at: doc.updated_at,
    }
}

fn copy_document(doc: &Document) -> (copy: Document)
    ensures
        copy == *doc,
{
    Document {
        id: doc.id,
        created_at: doc.created_at,
        updated_at: doc.updated_at,
        data: match &doc.data {
            Some(text) => Some(text.clone()),
            None => None,
        },
        col: doc.col.clone(),
        colrev: doc.colrev,
        permissions: doc.permissions.clone(),
    }
}

impl ClientActor {
    /// The session of a client that connected at `now`.
    pub fn new(client_id: i32, user_id: String, col: String, colrev: i64, now: u64) -> (actor: Self)
        ensures
            actor == (ClientActor { client_id, user_id, col, colrev, deadline: deadline_after(now) }),
    {
        ClientActor { client_id, user_id, col, colrev, deadline: deadline_from(now) }
    }

    /// Every request of this session comes from its user.
    pub open spec fn source_spec(&self) -> Source {
        Source::Client { user: self.user_id }
    }

    pub fn source(&self) -> (source: Source)
        ensures
            source == self.source_spec(),
    {
        Source::Client { user: self.user_id.clone() }
    }

    /// The request that opens the session: a sync from the colrev the client
    /// connected with.
    pub fn sync_request(&self) -> (request: CollectionMessage)
        ensures
            request == CollectionMessage::Sync(
                SyncMessage { colrev: self.colrev, source: self.source_spec() },
            ),
    {
        CollectionMessage::Sync(SyncMessage { colrev: self.colrev, source: self.source() })
    }

    /// The frames that answer the opening sync: one `doc` per document in
    /// the order of the reply and then `sync_complete`, or one `sync_error`.
    pub open spec fn sync_messages(&self, reply: Option<Result<SyncResult, SinkronError>>) -> Seq<
        ServerMessage,
    > {
        match reply {
            Some(Ok(res)) => res.documents@.map_values(|d: Document| ServerMessage::Doc(doc_message(d))).push(
                ServerMessage::SyncComplete(SyncCompleteMessage { col: self.col, colrev: res.colrev }),
            ),
            Some(Err(err)) => seq![
                ServerMessage::SyncError(SyncErrorMessage { col: self.col, code: err.code }),
            ],
            None => seq![
                ServerMessage::SyncError(
                    SyncErrorMessage { col: self.col, code: ErrorCode::InternalServerError },
                ),
            ],
        }
    }

    /// Turns the collection's answer to the opening sync into frames.  `None`
    /// stands for a collection that went away without answering.  The
    /// session goes on only after a sync that succeeded.
    pub fn sync(&self, reply: Option<Result<SyncResult, SinkronError>>) -> (out: SyncOutcome)
        ensures
            out.messages@ == self.sync_messages(reply),
            out.proceed == (reply matches Some(Ok(_))),
    {
        let mut messages: Vec<ServerMessage> = Vec::new();
        match reply {
            Some(Ok(res)) => {
                let ghost wrap = |d: Document| ServerMessage::Doc(doc_message(d));
                let mut i: usize = 0;
                while i < res.documents.len()
                    invariant
                        i <= res.documents.len(),
                        wrap == (|d: Document| ServerMessage::Doc(doc_message(d))),
                        messages@ == res.documents@.take(i as int).map_values(wrap),
                    decreases res.documents.len() - i,
                {
                    let doc = copy_document(&res.documents[i]);
                    proof {
                        res.documents@.lemma_take_succ_push(i as int);
                        res.documents@.take(i as int).lemma_push_map_commute(wrap, doc);
                    }
                    messages.push(ServerMessage::Doc(to_doc_message(doc)));
                    i += 1;
                }
                assert(res.documents@.take(res.documents.len() as int) =~= res.documents@);
                messages.push(
                    ServerMessage::SyncComplete(
                        SyncCompleteMessage { col: self.col.clone(), colrev: res.colrev },
                    ),
                );
                SyncOutcome { messages, proceed: true }
            },
            Some(Err(err)) => {
                messages.push(
                    ServerMessage::SyncError(SyncErrorMessage { col: self.col.clone(), code: err.code }),
                );
                SyncOutcome { messages, proceed: false }
            },
            None => {
                messages.push(
                    ServerMessage::SyncError(
                        SyncErrorMessage {
                            col: self.col.clone(),
                            code: ErrorCode::InternalServerError,
                        },
                    ),
                );
                SyncOutcome { messages, proceed: false }
            },
        }
    }

    /// Whether the client has been silent for too long at `now`.
    pub fn is_expired(&self, now: u64) -> (expired: bool)
        ensures
            expired == (now >= self.deadline),
    {
        now >= self.deadline
    }

    /// Answers a heartbeat with the next counter and gives the client
    /// another [`DISCONNECT_TIMEOUT_MS`] from `now`.
    pub fn handle_heartbeat(&mut self, msg: HeartbeatMessage, now: u64) -> (reply: ServerMessage)
        requires
            msg.i < i32::MAX,
        ensures
            reply == ServerMessage::Heartbeat(HeartbeatMessage { i: (msg.i + 1) as i32 }),
            *final(self) == (ClientActor { deadline: deadline_after(now), ..*old(self) }),
    {
        self.deadline = deadline_from(now);
        ServerMessage::Heartbeat(HeartbeatMessage { i: msg.i + 1 })
    }

    /// Passes a get on to the collection.  The collection named in the
    /// message is not looked at: a session reads from its own collection.
    pub fn handle_get(&self, msg: GetMessage) -> (step: ClientStep)
        ensures
            step == self.get_step(msg),
    {
        ClientStep::Forward {
            request: CollectionMessage::Get(collection::GetMessage { id: msg.id, source: self.source() }),
            waiting: Waiting::Get { id: msg.id },
        }
    }

    pub open spec fn get_step(&self, msg: GetMessage) -> ClientStep {
        ClientStep::Forward {
            request: CollectionMessage::Get(
                collection::GetMessage { id: msg.id, source: self.source_spec() },
            ),
            waiting: Waiting::Get { id: msg.id },
        }
    }

    /// The request a change stands for.  A create and an update carry a
    /// payload and a delete carries none; any other pairing is no request.
    pub open spec fn change_request(&self, msg: ClientChangeMessage) -> Option<CollectionMessage> {
        match (msg.op, msg.data) {
            (Op::Delete, None) => Some(
                CollectionMessage::Delete(
                    DeleteMessage { id: msg.id, source: self.source_spec(), changeid: msg.changeid },
                ),
            ),
            (Op::Update, Some(data)) => Some(
                CollectionMessage::Update(
                    UpdateMessage {
                        id: msg.id,
                        data,
                        source: self.source_spec(),
                        changeid: msg.changeid,
                    },
                ),
            ),
            (Op::Create, Some(data)) => Some(
                CollectionMessage::Create(
                    CreateMessage {
                        id: msg.id,
                        data,
                        source: self.source_spec(),
                        changeid: msg.changeid,
                    },
                ),
            ),
            _ => None,
        }
    }

    pub open spec fn change_step(&self, msg: ClientChangeMessage) -> ClientStep {
        match self.change_request(msg) {
            Some(request) => ClientStep::Forward {
                request,
                waiting: Waiting::Change { id: msg.id, changeid: msg.changeid },
            },
            None => ClientStep::Send(
                ServerMessage::ChangeError(
                    ChangeErrorMessage {
                        code: ErrorCode::BadRequest,
                        id: msg.id,
                        changeid: msg.changeid,
                    },
                ),
            ),
        }
    }

    /// Passes a well-formed change on to the collection and answers any
    /// other with `change_error{bad_request}`, without touching the
    /// collection.
    pub fn handle_change(&self, msg: ClientChangeMessage) -> (step: ClientStep)
        ensures
            step == self.change_step(msg),
    {
        let ClientChangeMessage { id, col: _, op, data, changeid } = msg;
        let waiting = Waiting::Change { id, changeid };
        match (op, data) {
            (Op::Delete, None) => ClientStep::Forward {
                request: CollectionMessage::Delete(
                    DeleteMessage { id, source: self.source(), changeid },
                ),
                waiting,
            },
            (Op::Update, Some(data)) => ClientStep::Forward {
                request: CollectionMessage::Update(
                    UpdateMessage { id, data, source: self.source(), changeid },
                ),
                waiting,
            },
            (Op::Create, Some(data)) => ClientStep::Forward {
                request: CollectionMessage::Create(
                    CreateMessage { id, data, source: self.source(), changeid },
                ),
                waiting,
            },
            _ => ClientStep::Send(
                ServerMessage::ChangeError(
                    ChangeErrorMessage { code: ErrorCode::BadRequest, id, changeid },
                ),
            ),
        }
    }

    /// What a decoded message leads to, and the session after it.
    pub open spec fn message_step(self, msg: ClientMessage, now: u64) -> (ClientActor, ClientStep) {
        match msg {
            ClientMessage::Heartbeat(h) => if h.i < i32::MAX {
                (
                    ClientActor { deadline: deadline_after(now), ..self },
                    ClientStep::Send(
                        ServerMessage::Heartbeat(HeartbeatMessage { i: (h.i + 1) as i32 }),
                    ),
                )
            } else {
                (self, ClientStep::Disconnect)
            },
            ClientMessage::Get(m) => (self, self.get_step(m)),
            ClientMessage::Change(m) => (self, self.change_step(m)),
        }
    }

    /// Dispatches a decoded message by its kind.  A heartbeat whose counter
    /// has no successor cannot be answered and ends the session.
    pub fn handle_message(&mut self, msg: ClientMessage, now: u64) -> (step: ClientStep)
        ensures
            (*final(self), step) == old(self).message_step(msg, now),
    {
        match msg {
            ClientMessage::Heartbeat(h) => {
                if h.i < i32::MAX {
                    ClientStep::Send(self.handle_heartbeat(h, now))
                } else {
                    ClientStep::Disconnect
                }
            },
            ClientMessage::Get(m) => self.handle_get(m),
            ClientMessage::Change(m) => self.handle_change(m),
        }
    }

    /// What an event leads to, and the session after it.
    pub open spec fn event_step(self, event: ClientEvent, now: u64) -> (ClientActor, ClientStep) {
        match event {
            ClientEvent::Timeout => (self, ClientStep::Disconnect),
            ClientEvent::Outbound(ClientActorMessage::Sinkron(msg)) => (self, ClientStep::Send(msg)),
            ClientEvent::Outbound(ClientActorMessage::Raw(frame)) => (self, ClientStep::SendRaw(frame)),
            ClientEvent::Inbound(Frame::Text(Some(msg))) => self.message_step(msg, now),
            ClientEvent::Inbound(Frame::Text(None)) => (self, ClientStep::Disconnect),
            ClientEvent::Inbound(Frame::Other) => (self, ClientStep::Continue),
            ClientEvent::Inbound(Frame::Closed) => (self, ClientStep::Disconnect),
        }
    }

    /// One turn of the session's loop: the timer disconnects, a message from
    /// the collection is written out as it is, a decoded frame is
    /// dispatched, a frame that is not text is ignored, and a frame that does
    /// not decode or a socket that is gone ends the session.
    pub fn handle_event(&mut self, event: ClientEvent, now: u64) -> (step: ClientStep)
        ensures
            (*final(self), step) == old(self).event_step(event, now),
    {
        match event {
            ClientEvent::Timeout => ClientStep::Disconnect,
            ClientEvent::Outbound(ClientActorMessage::Sinkron(msg)) => ClientStep::Send(msg),
            ClientEvent::Outbound(ClientActorMessage::Raw(frame)) => ClientStep::SendRaw(frame),
            ClientEvent::Inbound(Frame::Text(Some(msg))) => self.handle_message(msg, now),
            ClientEvent::Inbound(Frame::Text(None)) => ClientStep::Disconnect,
            ClientEvent::Inbound(Frame::Other) => ClientStep::Continue,
            ClientEvent::Inbound(Frame::Closed) => ClientStep::Disconnect,
        }
    }

    /// The frame that answers a get: the document, or `get_error` with the
    /// collection's error code, or with `internal_server_error` where the
    /// collection did not answer.
    pub open spec fn get_reply(id: Uuid, reply: Option<Result<Document, SinkronError>>) -> ServerMessage {
        match reply {
            Some(Ok(doc)) => ServerMessage::Doc(doc_message(doc)),
            Some(Err(err)) => ServerMessage::GetError(GetErrorMessage { id, code: err.code }),
            None => ServerMessage::GetError(
                GetErrorMessage { id, code: ErrorCode::InternalServerError },
            ),
        }
    }

    /// The frame that answers a change, if any: a change that succeeded is
    /// answered by its broadcast alone.
    pub open spec fn change_reply(
        id: Uuid,
        changeid: Uuid,
        reply: Option<Result<Document, SinkronError>>,
    ) -> Option<ServerMessage> {
        match reply {
            Some(Ok(_)) => None,
            Some(Err(err)) => Some(
                ServerMessage::ChangeError(ChangeErrorMessage { code: err.code, id, changeid }),
            ),
            None => Some(
                ServerMessage::ChangeError(
                    ChangeErrorMessage { code: ErrorCode::InternalServerError, id, changeid },
                ),
            ),
        }
    }

    /// The frame to write, if any, once the collection has answered.
    pub open spec fn reply_message(waiting: Waiting, reply: Option<Reply>) -> Option<ServerMessage> {
        match waiting {
            Waiting::Get { id } => Some(Self::get_reply(id, document_reply(reply))),
            Waiting::Change { id, changeid } => Self::change_reply(id, changeid, document_reply(reply)),
        }
    }

    /// Turns the collection's answer to a forwarded request into the frame
    /// to write, if any.  `None` stands for a collection that went away
    /// without answering.
    pub fn handle_reply(&self, waiting: Waiting, reply: Option<Reply>) -> (msg: Option<ServerMessage>)
        ensures
            msg == Self::reply_message(waiting, reply),
    {
        let reply = match reply {
            Some(Reply::Document(res)) => Some(res),
            _ => None,
        };
        match waiting {
            Waiting::Get { id } => Some(
                match reply {
                    Some(Ok(doc)) => ServerMessage::Doc(to_doc_message(doc)),
                    Some(Err(err)) => ServerMessage::GetError(GetErrorMessage { id, code: err.code }),
                    None => ServerMessage::GetError(
                        GetErrorMessage { id, code: ErrorCode::InternalServerError },
                    ),
                },
            ),
            Waiting::Change { id, changeid } => match reply {
                Some(Ok(_)) => None,
                Some(Err(err)) => Some(
                    ServerMessage::ChangeError(ChangeErrorMessage { code: err.code, id, changeid }),
                ),
                None => Some(
                    ServerMessage::ChangeError(
                        ChangeErrorMessage { code: ErrorCode::InternalServerError, id, changeid },
                    ),
                ),
            },
        }
    }
}

} // verus!
