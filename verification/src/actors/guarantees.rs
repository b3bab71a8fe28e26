//! What the collection actor guarantees, proved from the steps it takes.
//!
//! A run is what a driver and the actor do in turn: the actor handles a
//! message or the outcome of what it asked for last, and answers with a
//! step.  The theorems here hold of every run, whatever the store, the
//! groups service or the clients do.

use crate::actors::collection::{
    presented, presented_all, views, CollectionActorView, CollectionMessage, LoadedDocument, Pending,
    Reply, Request, Response, Source, Step, SyncQuery,
};
use crate::models;
use crate::permissions::Permissions;
use crate::protocol::{ErrorCode, Op};
use crate::types::{Document, DocumentView};
use uuid::Uuid;
use vstd::prelude::*;

verus! {

/// What the actor is handed in one turn.
pub enum Input {
    /// A message from its inbox.
    Message(CollectionMessage),
    /// The outcome of what it asked for, with what it was waiting for.
    Response(Pending, Response),
}

/// One turn of the actor.
pub struct Turn {
    pub before: CollectionActorView,
    pub input: Input,
    pub after: CollectionActorView,
    pub step: Step,
}

impl Turn {
    /// The turn is one the actor can take.
    pub open spec fn taken(self) -> bool {
        match self.input {
            Input::Message(msg) => self.before.starts(msg, self.after, self.step),
            Input::Response(pending, response) => self.before.resumes(
                pending,
                response,
                self.after,
                self.step,
            ),
        }
    }

    /// The turn follows `previous` as the actor's loop has it: the actor is
    /// as the previous turn left it, it gets the outcome of what it asked
    /// for, and a new message only when it asked for nothing.
    pub open spec fn follows(self, previous: Turn) -> bool {
        &&& self.before == previous.after
        &&& match self.input {
            Input::Response(pending, _) => previous.step matches Step::Ask { pending: asked, .. }
                && asked == pending,
            Input::Message(_) => !(previous.step is Ask),
        }
    }

    /// The colrev the store handed out in this turn, if it did.
    pub open spec fn handed_out(self) -> Option<i64> {
        match self.input {
            Input::Response(_, Response::Colrev(Ok(colrev))) => Some(colrev),
            _ => None,
        }
    }

    /// The collection's colrev as this turn's reply shows it to a caller: the
    /// colrev of a sync result, or the colrev of an announced change.
    pub open spec fn observed(self) -> Option<i64> {
        match self.step {
            Step::Reply { reply: Reply::Sync(Ok(res)), .. } => Some(res.colrev),
            Step::Reply { reply: Reply::Document(Ok(doc)), broadcast: Some(_) } => Some(doc.colrev),
            _ => None,
        }
    }

    /// Whether this turn commits a mutation: the store has written the row.
    pub open spec fn commits(self) -> bool {
        match self.input {
            Input::Response(Pending::CreateInsert { .. }, Response::Written(Ok(_))) => true,
            Input::Response(Pending::UpdateWrite { .. }, Response::Written(Ok(_))) => true,
            _ => false,
        }
    }
}

/// A run: turns the actor can take, each following the one before.  The first
/// turn handles a message.
pub open spec fn is_run(turns: Seq<Turn>) -> bool {
    &&& forall|i: int| 0 <= i < turns.len() ==> (#[trigger] turns[i]).taken()
    &&& forall|i: int| 0 < i < turns.len() ==> (#[trigger] turns[i]).follows(turns[i - 1])
    &&& turns.len() > 0 ==> turns[0].input is Message
}

/// The store counts up: a colrev it hands out is larger than the one the
/// actor holds.
pub open spec fn store_counts_up(turns: Seq<Turn>) -> bool {
    forall|i: int|
        0 <= i < turns.len() ==> match (#[trigger] turns[i]).handed_out() {
            Some(colrev) => colrev > turns[i].before.colrev,
            None => true,
        }
}

/// In one turn the actor keeps its colrev, unless the store hands out a new
/// one for a mutation: then it adopts that one.
pub proof fn lemma_colrev_changes_only_by_adoption(turn: Turn)
    requires
        turn.taken(),
    ensures
        turn.after.colrev == turn.before.colrev || turn.handed_out() == Some(turn.after.colrev),
{
}

/// The actor's colrev never decreases in a run, as long as the store counts
/// up.
pub proof fn lemma_colrev_never_decreases(turns: Seq<Turn>, i: int, j: int)
    requires
        is_run(turns),
        store_counts_up(turns),
        0 <= i <= j < turns.len(),
    ensures
        turns[i].before.colrev <= turns[j].before.colrev,
        turns[j].before.colrev <= turns[j].after.colrev,
    decreases j - i,
{
    lemma_colrev_changes_only_by_adoption(turns[j]);
    assert(turns[j].handed_out() is Some ==> turns[j].handed_out()->0 > turns[j].before.colrev);
    if i < j {
        lemma_colrev_never_decreases(turns, i, j - 1);
        assert(turns[j].follows(turns[j - 1]));
    }
}

/// A reply that shows the collection's colrev shows the one the actor holds
/// after the turn.
pub proof fn lemma_observed_is_current(turns: Seq<Turn>, i: int)
    requires
        is_run(turns),
        0 <= i < turns.len(),
    ensures
        turns[i].observed() matches Some(colrev) ==> colrev == turns[i].after.colrev,
{
    let turn = turns[i];
    assert(turn.taken());
    if turn.observed() is Some {
        match turn.input {
            Input::Message(_) => {},
            Input::Response(pending, response) => {
                if pending is CreateInsert || pending is UpdateWrite {
                    let previous = turns[i - 1];
                    assert(turn.follows(previous));
                    assert(previous.taken());
                }
            },
        }
    }
}

/// The colrev that replies show never decreases in the order in which the
/// replies are issued, as long as the store counts up.
pub proof fn lemma_observed_colrev_never_decreases(turns: Seq<Turn>, i: int, j: int)
    requires
        is_run(turns),
        store_counts_up(turns),
        0 <= i <= j < turns.len(),
        turns[i].observed() is Some,
        turns[j].observed() is Some,
    ensures
        turns[i].observed()->0 <= turns[j].observed()->0,
{
    lemma_observed_is_current(turns, i);
    lemma_observed_is_current(turns, j);
    if i < j {
        lemma_colrev_never_decreases(turns, i + 1, j);
        assert(turns[i + 1].follows(turns[i]));
    }
}

/// A change is announced if and only if the turn commits a mutation.
pub proof fn lemma_announces_iff_committed(turn: Turn)
    requires
        turn.taken(),
    ensures
        turn.step.announces() <==> turn.commits(),
{
}

/// A committed mutation is announced to every subscriber of that moment,
/// once each, with the id and the colrev of the document that the caller is
/// shown.
pub proof fn lemma_every_subscriber_is_told_once(turn: Turn)
    requires
        turn.taken(),
        turn.commits(),
    ensures
        turn.step matches Step::Reply { reply: Reply::Document(Ok(doc)), broadcast: Some(b) } && {
            &&& b.recipients@.no_duplicates()
            &&& b.recipients@.to_set() == turn.before.subscribers
            &&& b.message.id == doc.id
            &&& b.message.colrev == doc.colrev
            &&& b.message.data == doc.data
        },
{
}

/// A turn that fails tells nobody: an error reply carries no announcement.
pub proof fn lemma_failure_is_silent(turn: Turn)
    requires
        turn.taken(),
        turn.step matches Step::Reply { reply: Reply::Document(Err(_)), .. } || turn.step matches Step::Reply {
            reply: Reply::Sync(Err(_)),
            ..
        },
    ensures
        !turn.step.announces(),
        turn.after == turn.before || turn.handed_out() is Some,
{
}

/// The store is asked for the next colrev only after every check of a
/// mutation has passed, and for a write only after it handed the colrev out.
pub proof fn lemma_write_follows_increment(turn: Turn)
    requires
        turn.taken(),
        turn.step matches Step::Ask { request, .. } && (request is InsertDocument || request
            is UpdateDocument),
    ensures
        turn.handed_out() == Some(turn.after.colrev),
        turn.step matches Step::Ask { request: Request::InsertDocument { document }, .. }
            ==> document.colrev == turn.after.colrev,
        turn.step matches Step::Ask { request: Request::UpdateDocument { changes, .. }, .. } ==> {
            &&& changes.colrev == turn.after.colrev
            &&& changes.is_deleted == (changes.data is None)
        },
{
}

/// The change id of a mutation travels through every turn unchanged: what
/// the actor waits for carries the id of the message, and so does the
/// announcement.
pub proof fn lemma_changeid_is_kept(turn: Turn)
    requires
        turn.taken(),
    ensures
        match turn.input {
            Input::Message(CollectionMessage::Create(m)) => turn.step matches Step::Ask { pending, .. }
                && pending.changeid() == Some(m.changeid),
            Input::Message(CollectionMessage::Update(m)) => turn.step matches Step::Ask { pending, .. }
                && pending.changeid() == Some(m.changeid),
            Input::Message(CollectionMessage::Delete(m)) => turn.step matches Step::Ask { pending, .. }
                && pending.changeid() == Some(m.changeid),
            Input::Message(_) => true,
            Input::Response(waiting, _) => match turn.step {
                Step::Ask { pending, .. } => pending.changeid() == waiting.changeid(),
                Step::Reply { broadcast: Some(b), .. } => Some(b.message.changeid) == waiting.changeid(),
                _ => true,
            },
        },
{
}

/// The turns of a run from a mutation's message to its announcement.
pub open spec fn is_operation(turns: Seq<Turn>, first: int, last: int) -> bool {
    &&& 0 <= first <= last < turns.len()
    &&& turns[first].input is Message
    &&& forall|k: int| first < k <= last ==> (#[trigger] turns[k]).input is Response
}

/// The change id a message carries, if it is a mutation.
pub open spec fn changeid_of(msg: CollectionMessage) -> Option<Uuid> {
    match msg {
        CollectionMessage::Create(m) => Some(m.changeid),
        CollectionMessage::Update(m) => Some(m.changeid),
        CollectionMessage::Delete(m) => Some(m.changeid),
        _ => None,
    }
}

/// What the actor waits for after turn `k` of an operation carries the
/// change id of the operation's message.
proof fn lemma_changeid_while_waiting(turns: Seq<Turn>, first: int, k: int)
    requires
        is_run(turns),
        first <= k < turns.len(),
        is_operation(turns, first, k),
        turns[k].step is Ask,
    ensures
        turns[k].step->pending.changeid() == changeid_of(turns[first].input->Message_0),
    decreases k - first,
{
    lemma_changeid_is_kept(turns[k]);
    assert(turns[k].taken());
    if k > first {
        assert(turns[k].follows(turns[k - 1]));
        assert(is_operation(turns, first, k - 1));
        lemma_changeid_while_waiting(turns, first, k - 1);
    }
}

/// The announcement of a mutation repeats the change id of the message that
/// asked for it.
pub proof fn lemma_changeid_is_echoed(turns: Seq<Turn>, first: int, last: int)
    requires
        is_run(turns),
        is_operation(turns, first, last),
        turns[last].step.announces(),
    ensures
        turns[last].step matches Step::Reply { broadcast: Some(b), .. } && Some(b.message.changeid)
            == changeid_of(turns[first].input->Message_0),
{
    lemma_changeid_is_kept(turns[last]);
    lemma_announces_iff_committed(turns[last]);
    assert(turns[last].taken());
    assert(first < last);
    assert(turns[last].follows(turns[last - 1]));
    assert(is_operation(turns, first, last - 1));
    lemma_changeid_while_waiting(turns, first, last - 1);
}

/// The colrevs of a sequence of documents.
pub open spec fn colrevs(documents: Seq<DocumentView>) -> Set<i64> {
    documents.map_values(|d: DocumentView| d.colrev).to_set()
}

/// A row belongs to the answer of a query exactly if it is one of the rows
/// and the query selects it.
pub proof fn lemma_answer_holds_the_selected(query: SyncQuery, rows: Seq<models::Document>, row: models::Document)
    ensures
        query.answer(rows).contains(row) <==> rows.contains(row) && query.selects(row),
{
    let pred = |r: models::Document| query.selects(r);
    let answer = rows.filter(pred);
    if answer.contains(row) {
        rows.lemma_filter_contains_rev(pred, row);
        let i = choose|i: int| 0 <= i < answer.len() && answer[i] == row;
        rows.lemma_filter_pred(pred, i);
    }
    if rows.contains(row) && query.selects(row) {
        let i = choose|i: int| 0 <= i < rows.len() && rows[i] == row;
        rows.lemma_filter_contains(pred, i);
    }
}

/// Asking the same query of its own answer changes nothing: a store may
/// hand the actor all rows of the collection or only those that the query
/// selects.
pub proof fn lemma_answer_is_idempotent(query: SyncQuery, rows: Seq<models::Document>)
    ensures
        query.answer(query.answer(rows)) == query.answer(rows),
    decreases rows.len(),
{
    let pred = |r: models::Document| query.selects(r);
    reveal(Seq::filter);
    if rows.len() > 0 {
        let rest = rows.drop_last();
        lemma_answer_is_idempotent(query, rest);
        if pred(rows.last()) {
            rest.filter(pred).lemma_filter_push(rows.last(), pred);
        }
    }
}

/// Whether rows stand in the order of their creation, oldest first.
pub open spec fn oldest_first(rows: Seq<models::Document>) -> bool {
    forall|i: int, j: int| 0 <= i <= j < rows.len() ==> rows[i].created_at <= rows[j].created_at
}

/// An answer keeps the order of the rows: where the store hands them over
/// oldest first, the documents are sent oldest first.
pub proof fn lemma_answer_keeps_creation_order(query: SyncQuery, rows: Seq<models::Document>)
    requires
        oldest_first(rows),
    ensures
        oldest_first(query.answer(rows)),
    decreases rows.len(),
{
    let pred = |r: models::Document| query.selects(r);
    reveal(Seq::filter);
    if rows.len() > 0 {
        let rest = rows.drop_last();
        lemma_answer_keeps_creation_order(query, rest);
        let kept = query.answer(rest);
        assert forall|i: int| 0 <= i < kept.len() implies (#[trigger] kept[i]).created_at
            <= rows.last().created_at by {
            assert(kept.contains(kept[i]));
            lemma_answer_holds_the_selected(query, rest, kept[i]);
            let k = choose|k: int| 0 <= k < rest.len() && rest[k] == kept[i];
            assert(rows[k] == kept[i]);
        }
    }
}

/// A client that is behind at a colrev above zero is sent exactly the
/// documents changed since, tombstones included: the colrevs it is sent are
/// those of the collection's rows that lie above its own and, the store
/// being current, not above the actor's.
pub proof fn lemma_catch_up_is_exact(
    actor: CollectionActorView,
    colrev: i64,
    rows: Vec<models::Document>,
    step: Step,
)
    requires
        0 < colrev < actor.colrev,
        forall|i: int| 0 <= i < rows@.len() ==> (#[trigger] rows@[i]).colrev <= actor.colrev,
        actor.sync_documents_step(colrev, Response::Documents(Ok(rows)), step),
    ensures
        step matches Step::Reply { reply: Reply::Sync(Ok(res)), broadcast: None } && {
            &&& res.colrev == actor.colrev
            &&& forall|c: i64| #[trigger]
                colrevs(views(res.documents@)).contains(c) <==> colrev < c <= actor.colrev && exists|
                    i: int,
                |
                    0 <= i < rows@.len() && (#[trigger] rows@[i]).colrev == c
        },
{
    let query = SyncQuery::Since { colrev };
    let answer = query.answer(rows@);
    let shown = presented_all(answer);
    let stamps = shown.map_values(|d: DocumentView| d.colrev);
    assert forall|c: i64| #[trigger]
        stamps.to_set().contains(c) <==> colrev < c <= actor.colrev && exists|i: int|
            0 <= i < rows@.len() && (#[trigger] rows@[i]).colrev == c by {
        if stamps.contains(c) {
            let j = choose|j: int| 0 <= j < stamps.len() && stamps[j] == c;
            let row = answer[j];
            assert(answer.contains(row));
            lemma_answer_holds_the_selected(query, rows@, row);
            let i = choose|i: int| 0 <= i < rows@.len() && rows@[i] == row;
            assert(rows@[i].colrev == c);
        }
        if colrev < c <= actor.colrev && exists|i: int|
            0 <= i < rows@.len() && (#[trigger] rows@[i]).colrev == c {
            let i = choose|i: int| 0 <= i < rows@.len() && (#[trigger] rows@[i]).colrev == c;
            let row = rows@[i];
            assert(rows@.contains(row));
            lemma_answer_holds_the_selected(query, rows@, row);
            let j = choose|j: int| 0 <= j < answer.len() && answer[j] == row;
            assert(stamps[j] == c);
        }
    }
}

/// A client that connects at colrev zero to a collection that has moved on
/// is sent exactly the documents that are not deleted, in the order of the
/// rows.
pub proof fn lemma_initial_sync_is_exact(actor: CollectionActorView, rows: Vec<models::Document>, step: Step)
    requires
        0 < actor.colrev,
        actor.sync_documents_step(0, Response::Documents(Ok(rows)), step),
    ensures
        step matches Step::Reply { reply: Reply::Sync(Ok(res)), broadcast: None } && {
            &&& res.colrev == actor.colrev
            &&& views(res.documents@) == presented_all(
                rows@.filter(|row: models::Document| !row.is_deleted),
            )
        },
{
    assert((|row: models::Document| SyncQuery::Live.selects(row)) =~= (|row: models::Document|
        !row.is_deleted));
}

/// A row after the store has rewritten it as a mutation asked.
pub open spec fn rewritten(row: models::Document, changes: models::DocumentUpdate, updated_at: i64) -> models::Document {
    models::Document {
        colrev: changes.colrev,
        is_deleted: changes.is_deleted,
        data: changes.data,
        updated_at,
        ..row
    }
}

/// A delete asks the store for a tombstone: the payload is cleared and the
/// row marked deleted, and the document the caller will be shown has no
/// payload.
pub proof fn lemma_delete_writes_a_tombstone(
    actor: CollectionActorView,
    document: Document,
    changeid: Uuid,
    colrev: i64,
    next: CollectionActorView,
    step: Step,
)
    requires
        actor.update_colrev_step(document, None, changeid, Response::Colrev(Ok(colrev)), next, step),
    ensures
        step matches Step::Ask {
            request: Request::UpdateDocument { changes, .. },
            pending: Pending::UpdateWrite { document: shown, op, .. },
        } && {
            &&& changes.data is None
            &&& changes.is_deleted
            &&& shown.data is None
            &&& op == Op::Delete
            &&& forall|row: models::Document, at: i64| (#[trigger] rewritten(row, changes, at)).data is None
        },
{
}

/// A get of a tombstone shows the tombstone: the admin surface and every
/// client that may read the document are shown a document without payload.
pub proof fn lemma_tombstone_is_shown(
    actor: CollectionActorView,
    loaded: LoadedDocument,
    pending: Pending,
    response: Response,
    step: Step,
)
    requires
        loaded.row.data is None,
        actor.resumes(pending, response, actor, step),
        (pending == Pending::GetDocument { source: Source::Api } && response == Response::Document(
            Ok(loaded),
        )) || (pending == (Pending::GetUser { loaded }) && response is User),
        step matches Step::Reply { reply: Reply::Document(Ok(_)), .. },
    ensures
        step matches Step::Reply { reply: Reply::Document(Ok(doc)), broadcast: None } && doc@
            == presented(loaded.row) && doc@.is_tombstone(),
{
}

/// A tombstone can be neither updated nor deleted: whoever asks, and
/// whatever the payload, the operation ends as `unprocessable_content`
/// before the store is asked for a colrev.
pub proof fn lemma_tombstone_cannot_change(
    actor: CollectionActorView,
    row: models::Document,
    data: Option<String>,
    changeid: Uuid,
    step: Step,
)
    requires
        row.data is None,
        actor.update_step(row, data, changeid, step),
    ensures
        step matches Step::Reply { reply: Reply::Document(Err(e)), broadcast: None } && e.code
            == ErrorCode::UnprocessableContent,
{
}

/// The changes a step asks the store to make to a row, if it asks for any.
pub open spec fn changes_asked(step: Step) -> Option<models::DocumentUpdate> {
    match step {
        Step::Ask { request: Request::UpdateDocument { changes, .. }, .. } => Some(changes),
        _ => None,
    }
}

/// Once a delete has been written, the document stays deleted: whatever the
/// actor holds later, a get of the row as the store rewrote it shows the
/// tombstone, and an update or another delete of it is
/// `unprocessable_content`.
pub proof fn lemma_deleted_document_stays_deleted(
    actor: CollectionActorView,
    document: Document,
    changeid: Uuid,
    colrev: i64,
    next: CollectionActorView,
    step: Step,
    row: models::Document,
    at: i64,
    later: CollectionActorView,
    permissions: Option<Permissions>,
    shown: Step,
    data: Option<String>,
    again: Uuid,
    refused: Step,
)
    requires
        actor.update_colrev_step(document, None, changeid, Response::Colrev(Ok(colrev)), next, step),
        changes_asked(step) matches Some(changes) ==> {
            let stored = rewritten(row, changes, at);
            &&& later.get_document_step(
                Source::Api,
                Response::Document(Ok(LoadedDocument { row: stored, permissions })),
                shown,
            )
            &&& later.update_step(stored, data, again, refused)
        },
    ensures
        changes_asked(step) matches Some(changes) && {
            let stored = rewritten(row, changes, at);
            &&& stored.is_deleted
            &&& stored.data is None
            &&& stored.colrev == colrev
            &&& shown.replies_document(presented(stored))
            &&& presented(stored).is_tombstone()
            &&& refused matches Step::Reply { reply: Reply::Document(Err(e)), broadcast: None } && e.code
                == ErrorCode::UnprocessableContent
        },
{
}

/// Two actors for the same collection row.
pub open spec fn same_collection(a: CollectionActorView, b: CollectionActorView) -> bool {
    &&& a.id == b.id
    &&& a.colrev == b.colrev
    &&& a.permissions == b.permissions
    &&& a.permissions_text == b.permissions_text
}

/// An actor spawned anew from the collection's row answers a sync as the
/// actor before it did: what a sync is answered depends on the row alone,
/// not on who was subscribed or on what went before.
pub proof fn lemma_respawn_answers_sync_alike(
    a: CollectionActorView,
    b: CollectionActorView,
    input: Input,
    step: Step,
)
    requires
        same_collection(a, b),
        match input {
            Input::Message(msg) => msg is Sync && a.starts(msg, a, step),
            Input::Response(pending, response) => pending.is_sync() && a.resumes(
                pending,
                response,
                a,
                step,
            ),
        },
    ensures
        match input {
            Input::Message(msg) => b.starts(msg, b, step),
            Input::Response(pending, response) => b.resumes(pending, response, b, step),
        },
{
}

/// An actor spawned anew takes every turn that announces nothing as the
/// actor before it did.
pub proof fn lemma_respawn_behaves_alike(
    a: CollectionActorView,
    b: CollectionActorView,
    pending: Pending,
    response: Response,
    next: CollectionActorView,
    step: Step,
)
    requires
        same_collection(a, b),
        a.resumes(pending, response, next, step),
        !step.announces(),
    ensures
        b.resumes(pending, response, CollectionActorView { colrev: next.colrev, ..b }, step),
{
}

} // verus!
