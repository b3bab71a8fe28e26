//! The root actor: it keeps the directory of live collection actors, hands
//! out client ids and decides how a connection attempt ends.
//!
//! The actor holds no handles.  The driver keeps one handle per id in the
//! directory and spawns a collection actor exactly when the root says so.

use crate::error::{SinkronError, StoreError};
use crate::protocol::{ErrorCode, ServerMessage, SyncErrorMessage};
use crate::types::Collection;
use vstd::prelude::*;

verus! {

broadcast use vstd::seq_lib::group_seq_properties;

/// A client that passed authentication and asks to be connected.
#[derive(Clone, Debug, PartialEq, Eq)]
pub struct ConnectMessage {
    pub user: String,
    pub col: String,
    pub colrev: i64,
}

/// Where the actor for a collection comes from.
#[derive(Clone, Copy, Debug, PartialEq, Eq, Structural)]
pub enum Resolution {
    /// The collection has a live actor: use its handle.
    Live,
    /// The collection had none: spawn one.  The directory lists it from now
    /// on.
    Spawn,
}

/// How a connection attempt ends.
#[derive(Clone, Debug, PartialEq, Eq)]
pub enum Connect {
    /// Write the message to the socket and close it.
    Refuse(ServerMessage),
    /// Start a session with this client id on the collection's actor, then
    /// subscribe it.
    Accept { client_id: i32, user: String, collection: Collection, colrev: i64, resolution: Resolution },
}

/// The root actor's state.
pub struct SinkronActor {
    client_id: i32,
    collections: Vec<String>,
}

/// The root actor as contracts speak of it.
pub struct SinkronActorView {
    /// The client id handed out last; `0` before the first.
    pub client_id: i32,
    /// The ids of the collections that have a live actor.
    pub collections: Set<Seq<char>>,
}

/// The ids in a directory.
pub open spec fn ids(collections: Seq<String>) -> Seq<Seq<char>> {
    collections.map_values(|id: String| id@)
}

impl View for SinkronActor {
    type V = SinkronActorView;

    closed spec fn view(&self) -> SinkronActorView {
        SinkronActorView { client_id: self.client_id, collections: ids(self.collections@).to_set() }
    }
}

/// Removing the one occurrence of an id from a directory without duplicates
/// removes the id from its set.
proof fn lemma_remove_from_directory(s: Seq<Seq<char>>, i: int)
    requires
        s.no_duplicates(),
        0 <= i < s.len(),
    ensures
        s.remove(i).no_duplicates(),
        s.remove(i).to_set() == s.to_set().remove(s[i]),
{
    let r = s.remove(i);
    s.remove_ensures(i);
    assert forall|x: Seq<char>| r.to_set().contains(x) <==> s.to_set().remove(s[i]).contains(x) by {
        if r.contains(x) {
            let j = choose|j: int| 0 <= j < r.len() && r[j] == x;
            if j < i {
                assert(s[j] == x);
            } else {
                assert(s[j + 1] == x);
            }
        }
        if s.contains(x) && x != s[i] {
            let j = choose|j: int| 0 <= j < s.len() && s[j] == x;
            if j < i {
                assert(r[j] == x);
            } else {
                assert(r[j - 1] == x);
            }
        }
    }
    assert(r.to_set() =~= s.to_set().remove(s[i]));
}

/// The position of `id` in the directory, if it is listed.
fn position(collections: &Vec<String>, id: &String) -> (found: Option<usize>)
    ensures
        match found {
            Some(i) => i < collections.len() && ids(collections@)[i as int] == id@ && ids(
                collections@,
            ).contains(id@),
            None => !ids(collections@).contains(id@),
        },
{
    let mut i: usize = 0;
    while i < collections.len()
        invariant
            i <= collections.len(),
            forall|j: int| 0 <= j < i ==> collections@[j]@ != id@,
        decreases collections.len() - i,
    {
        if collections[i] == *id {
            assert(ids(collections@)[i as int] == id@);
            return Some(i);
        }
        i += 1;
    }
    None
}

impl SinkronActorView {
    /// The directory after the actor for `id` was asked for, and where that
    /// actor comes from.
    pub open spec fn resolve(self, id: Seq<char>) -> (SinkronActorView, Resolution) {
        if self.collections.contains(id) {
            (self, Resolution::Live)
        } else {
            (SinkronActorView { collections: self.collections.insert(id), ..self }, Resolution::Spawn)
        }
    }

    /// What a connection attempt does to the root and how it ends, given
    /// what looking the collection up produced.
    ///
    /// A collection that is not there refuses the client with `not_found`, a
    /// store that could not answer with `internal_server_error`, and so does
    /// a root that has run out of client ids.  Otherwise the client gets the
    /// next id and the collection's actor.
    pub open spec fn connects(
        self,
        msg: ConnectMessage,
        found: Result<Collection, StoreError>,
        next: SinkronActorView,
        connect: Connect,
    ) -> bool {
        match found {
            Err(StoreError::NotFound) => next == self && connect == Connect::Refuse(
                ServerMessage::SyncError(SyncErrorMessage { col: msg.col, code: ErrorCode::NotFound }),
            ),
            Err(StoreError::Failed(_)) => next == self && connect == Connect::Refuse(
                ServerMessage::SyncError(
                    SyncErrorMessage { col: msg.col, code: ErrorCode::InternalServerError },
                ),
            ),
            Ok(collection) => if self.client_id == i32::MAX {
                next == self && connect == Connect::Refuse(
                    ServerMessage::SyncError(
                        SyncErrorMessage { col: msg.col, code: ErrorCode::InternalServerError },
                    ),
                )
            } else {
                let client_id = (self.client_id + 1) as i32;
                let (resolved, resolution) = self.resolve(collection.id@);
                &&& next == (SinkronActorView { client_id, ..resolved })
                &&& connect == (Connect::Accept {
                    client_id,
                    user: msg.user,
                    collection,
                    colrev: msg.colrev,
                    resolution,
                })
            },
        }
    }
}

impl SinkronActor {
    #[verifier::type_invariant]
    spec fn one_actor_per_collection(&self) -> bool {
        ids(self.collections@).no_duplicates()
    }

    /// A root with no live collection that has handed out no client id.
    pub fn new() -> (actor: Self)
        ensures
            actor@.client_id == 0,
            actor@.collections == Set::<Seq<char>>::empty(),
    {
        let collections: Vec<String> = Vec::new();
        assert(ids(collections@).to_set() =~= Set::<Seq<char>>::empty());
        SinkronActor { client_id: 0, collections }
    }

    /// The number of live collection actors.
    pub fn live_collections(&self) -> (n: usize)
        ensures
            n == self@.collections.len(),
            self@.collections.finite(),
    {
        proof {
            use_type_invariant(self);
            ids(self.collections@).unique_seq_to_set();
        }
        self.collections.len()
    }

    /// Whether the collection has a live actor.
    pub fn is_live(&self, id: &String) -> (live: bool)
        ensures
            live == self@.collections.contains(id@),
    {
        position(&self.collections, id).is_some()
    }

    /// The next client id.  Ids grow by one and are never handed out twice;
    /// when they are used up there is none.
    pub fn next_client_id(&mut self) -> (id: Option<i32>)
        ensures
            old(self)@.client_id < i32::MAX ==> id == Some((old(self)@.client_id + 1) as i32)
                && final(self)@ == (SinkronActorView { client_id: id->0, ..old(self)@ }),
            old(self)@.client_id == i32::MAX ==> id is None && final(self)@ == old(self)@,
    {
        proof {
            use_type_invariant(&*self);
        }
        if self.client_id < i32::MAX {
            self.client_id = self.client_id + 1;
            Some(self.client_id)
        } else {
            None
        }
    }

    /// Says where the actor for a collection comes from, and lists the
    /// collection if its actor is to be spawned.
    pub fn get_collection_actor(&mut self, col: &Collection) -> (resolution: Resolution)
        ensures
            (final(self)@, resolution) == old(self)@.resolve(col.id@),
    {
        proof {
            use_type_invariant(&*self);
        }
        match position(&self.collections, &col.id) {
            Some(_) => Resolution::Live,
            None => {
                let id = col.id.clone();
                proof {
                    let listed = ids(self.collections@);
                    listed.lemma_push_to_set_commute(id@);
                    assert(ids(self.collections@.push(id)) =~= listed.push(id@));
                }
                let mut directory: Vec<String> = Vec::new();
                assert(ids(directory@) =~= Seq::<Seq<char>>::empty());
                core::mem::swap(&mut self.collections, &mut directory);
                directory.push(id);
                self.collections = directory;
                Resolution::Spawn
            },
        }
    }

    /// Says where the actor for a collection comes from, given what looking
    /// the collection up produced: a collection that is not there is
    /// `not_found`, a store that could not answer `internal_server_error`.
    pub fn get_collection_actor_by_id(
        &mut self,
        found: Result<Collection, StoreError>,
    ) -> (res: Result<(Collection, Resolution), SinkronError>)
        ensures
            match found {
                Ok(collection) => res == Ok::<(Collection, Resolution), SinkronError>(
                    (collection, old(self)@.resolve(collection.id@).1),
                ) && final(self)@ == old(self)@.resolve(collection.id@).0,
                Err(err) => {
                    &&& res matches Err(e)
                    &&& err.reported("Collection not found"@, e)
                    &&& final(self)@ == old(self)@
                },
            },
    {
        match found {
            Ok(collection) => {
                let resolution = self.get_collection_actor(&collection);
                Ok((collection, resolution))
            },
            Err(err) => Err(err.report("Collection not found")),
        }
    }

    /// Decides how a connection attempt ends, given what looking the
    /// collection up produced.
    pub fn handle_connect(
        &mut self,
        msg: ConnectMessage,
        found: Result<Collection, StoreError>,
    ) -> (connect: Connect)
        ensures
            old(self)@.connects(msg, found, final(self)@, connect),
    {
        let ConnectMessage { user, col, colrev } = msg;
        let collection = match found {
            Ok(collection) => collection,
            Err(StoreError::NotFound) => {
                return Connect::Refuse(
                    ServerMessage::SyncError(SyncErrorMessage { col, code: ErrorCode::NotFound }),
                );
            },
            Err(StoreError::Failed(_)) => {
                return Connect::Refuse(
                    ServerMessage::SyncError(
                        SyncErrorMessage { col, code: ErrorCode::InternalServerError },
                    ),
                );
            },
        };
        let client_id = match self.next_client_id() {
            Some(id) => id,
            None => {
                return Connect::Refuse(
                    ServerMessage::SyncError(
                        SyncErrorMessage { col, code: ErrorCode::InternalServerError },
                    ),
                );
            },
        };
        let resolution = self.get_collection_actor(&collection);
        Connect::Accept { client_id, user, collection, colrev, resolution }
    }

    /// Forgets a collection whose actor has exited.  The next demand for the
    /// collection spawns a new actor.
    pub fn collection_exited(&mut self, id: &String)
        ensures
            final(self)@ == (SinkronActorView {
                collections: old(self)@.collections.remove(id@),
                ..old(self)@
            }),
    {
        proof {
            use_type_invariant(&*self);
        }
        match position(&self.collections, id) {
            Some(i) => {
                proof {
                    lemma_remove_from_directory(ids(self.collections@), i as int);
                    assert(ids(self.collections@.remove(i as int)) =~= ids(self.collections@).remove(
                        i as int,
                    ));
                }
                let mut directory: Vec<String> = Vec::new();
                assert(ids(directory@) =~= Seq::<Seq<char>>::empty());
                core::mem::swap(&mut self.collections, &mut directory);
                directory.remove(i);
                self.collections = directory;
            },
            None => {
                assert(self@.collections.remove(id@) =~= self@.collections);
            },
        }
    }
}

} // verus!
