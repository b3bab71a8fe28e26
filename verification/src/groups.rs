//! The groups service: which groups a user belongs to, remembered in a
//! bounded least-recently-used cache that every change of membership
//! invalidates.
//!
//! The store is asked by the driver.  The functions here take what the store
//! answered, keep the cache, and say what the caller is told.

use crate::error::{fails, internal_error, SinkronError, StoreError};
use crate::permissions::UserView;
use crate::protocol::ErrorCode;
use crate::types::{Group, User};
use lru::LruCache;
use std::num::NonZeroUsize;
use vstd::prelude::*;

verus! {

/// How many users the cache remembers.
pub const USER_CACHE_CAPACITY: usize = 5000;

/// `lru::LruCache`, a map that keeps its entries in the order of their last
/// use and forgets the least recently used one when it is full.
#[verifier::external_type_specification]
#[verifier::external_body]
#[verifier::reject_recursive_types(K)]
#[verifier::reject_recursive_types(V)]
#[verifier::reject_recursive_types(S)]
pub struct ExLruCache<K, V, S>(lru::LruCache<K, V, S>);

/// `lru::DefaultHasher`, the hasher a cache is built with unless told
/// otherwise.
#[verifier::external_type_specification]
#[verifier::external_body]
pub struct ExDefaultHasher(lru::DefaultHasher);

/// One remembered user, under the id it was asked for.
pub type Entry = (Seq<char>, UserView);

/// The entries of a cache, most recently used first.
pub uninterp spec fn cache_entries(cache: LruCache<String, User>) -> Seq<Entry>;

/// The number of entries a cache was made for.
pub uninterp spec fn cache_capacity(cache: LruCache<String, User>) -> nat;

/// The user remembered under `id`, if any.
pub open spec fn lookup(entries: Seq<Entry>, id: Seq<char>) -> Option<UserView>
    decreases entries.len(),
{
    if entries.len() == 0 {
        None
    } else if entries[0].0 == id {
        Some(entries[0].1)
    } else {
        lookup(entries.drop_first(), id)
    }
}

/// The entries without those for `id`, in their order.
pub open spec fn without(entries: Seq<Entry>, id: Seq<char>) -> Seq<Entry>
    decreases entries.len(),
{
    if entries.len() == 0 {
        entries
    } else if entries[0].0 == id {
        without(entries.drop_first(), id)
    } else {
        seq![entries[0]] + without(entries.drop_first(), id)
    }
}

/// The entries without those for any of `ids`.
pub open spec fn without_all(entries: Seq<Entry>, ids: Seq<Seq<char>>) -> Seq<Entry>
    decreases ids.len(),
{
    if ids.len() == 0 {
        entries
    } else {
        without(without_all(entries, ids.drop_last()), ids.last())
    }
}

/// The entries after `user` was remembered under `id` in a cache made for
/// `capacity` entries: the user is at the front, and where the id is new and
/// the cache is full the entry at the back has made room.
pub open spec fn remembered(entries: Seq<Entry>, capacity: nat, id: Seq<char>, user: UserView) -> Seq<
    Entry,
> {
    match lookup(entries, id) {
        Some(_) => seq![(id, user)] + without(entries, id),
        None => seq![(id, user)] + (if entries.len() >= capacity {
            entries.drop_last()
        } else {
            entries
        }),
    }
}

/// The entries after the user under `id` was asked for: a user that is
/// remembered moves to the front.
pub open spec fn recalled(entries: Seq<Entry>, id: Seq<char>) -> Seq<Entry> {
    match lookup(entries, id) {
        Some(user) => seq![(id, user)] + without(entries, id),
        None => entries,
    }
}

/// `LruCache::new`: an empty cache for `capacity` entries.
#[verifier::external_body]
fn cache_new(capacity: usize) -> (cache: LruCache<String, User>)
    requires
        capacity > 0,
    ensures
        cache_entries(cache) == Seq::<Entry>::empty(),
        cache_capacity(cache) == capacity,
{
    LruCache::new(NonZeroUsize::new(capacity).unwrap())
}

/// `LruCache::get`, with the value cloned: the user remembered under `id`,
/// whose entry moves to the front; a cache that does not hold `id` stays as
/// it is.
#[verifier::external_body]
fn cache_get(cache: &mut LruCache<String, User>, id: &str) -> (user: Option<User>)
    ensures
        cache_capacity(*final(cache)) == cache_capacity(*old(cache)),
        cache_entries(*final(cache)) == recalled(cache_entries(*old(cache)), id@),
        match lookup(cache_entries(*old(cache)), id@) {
            Some(u) => user matches Some(found) && found@ == u,
            None => user is None,
        },
{
    cache.get(id).cloned()
}

/// `LruCache::put`: the entry for `id` is at the front with the new value.
/// An id that was held keeps its place in the count; a new id in a full
/// cache pushes out the entry at the back.  The cache never holds more than
/// it was made for.
#[verifier::external_body]
fn cache_put(cache: &mut LruCache<String, User>, id: String, user: User)
    ensures
        cache_capacity(*final(cache)) == cache_capacity(*old(cache)),
        cache_entries(*final(cache)).len() <= cache_capacity(*final(cache)),
        cache_entries(*final(cache)) == remembered(
            cache_entries(*old(cache)),
            cache_capacity(*old(cache)),
            id@,
            user@,
        ),
{
    cache.put(id, user);
}

/// `LruCache::pop`: the entry for `id` is gone and the others keep their
/// order.
#[verifier::external_body]
fn cache_pop(cache: &mut LruCache<String, User>, id: &str)
    ensures
        cache_capacity(*final(cache)) == cache_capacity(*old(cache)),
        cache_entries(*final(cache)) == without(cache_entries(*old(cache)), id@),
{
    cache.pop(id);
}

/// A user that was invalidated is not remembered.
pub proof fn lemma_invalidated_is_forgotten(entries: Seq<Entry>, id: Seq<char>)
    ensures
        lookup(without(entries, id), id) is None,
    decreases entries.len(),
{
    if entries.len() > 0 {
        lemma_invalidated_is_forgotten(entries.drop_first(), id);
        if entries[0].0 != id {
            let rest = without(entries.drop_first(), id);
            assert((seq![entries[0]] + rest).drop_first() =~= rest);
        }
    }
}

/// Invalidating one user does not bring another back.
pub proof fn lemma_invalidation_keeps_forgotten(entries: Seq<Entry>, id: Seq<char>, other: Seq<char>)
    requires
        lookup(entries, other) is None,
    ensures
        lookup(without(entries, id), other) is None,
    decreases entries.len(),
{
    if entries.len() > 0 {
        lemma_invalidation_keeps_forgotten(entries.drop_first(), id, other);
        if entries[0].0 != id {
            let rest = without(entries.drop_first(), id);
            assert((seq![entries[0]] + rest).drop_first() =~= rest);
        }
    }
}

/// Invalidating a user leaves every other user as remembered as before.
pub proof fn lemma_invalidation_spares_others(entries: Seq<Entry>, id: Seq<char>, other: Seq<char>)
    requires
        other != id,
    ensures
        lookup(without(entries, id), other) == lookup(entries, other),
    decreases entries.len(),
{
    if entries.len() > 0 {
        lemma_invalidation_spares_others(entries.drop_first(), id, other);
        if entries[0].0 != id {
            let rest = without(entries.drop_first(), id);
            assert((seq![entries[0]] + rest).drop_first() =~= rest);
        }
    }
}

/// A user that was remembered is found, whatever the cache held before.
pub proof fn lemma_remembered_is_found(entries: Seq<Entry>, capacity: nat, id: Seq<char>, user: UserView)
    ensures
        lookup(remembered(entries, capacity, id, user), id) == Some(user),
{
}

/// After the members of a group were invalidated, none of them is
/// remembered.
pub proof fn lemma_members_are_forgotten(entries: Seq<Entry>, ids: Seq<Seq<char>>, i: int)
    requires
        0 <= i < ids.len(),
    ensures
        lookup(without_all(entries, ids), ids[i]) is None,
    decreases ids.len(),
{
    let before = without_all(entries, ids.drop_last());
    if i == ids.len() - 1 {
        lemma_invalidated_is_forgotten(before, ids.last());
    } else {
        lemma_members_are_forgotten(entries, ids.drop_last(), i);
        lemma_invalidation_keeps_forgotten(before, ids.last(), ids[i]);
    }
}

#[derive(Clone, Debug, PartialEq, Eq)]
pub struct AddRemoveUserToGroup {
    pub user: String,
    pub group: String,
}

/// The groups service's memory.
pub struct GroupsApi {
    cache: LruCache<String, User>,
}

/// The groups service as contracts speak of it.
pub struct GroupsApiView {
    /// The remembered users, most recently used first.
    pub cached: Seq<Entry>,
    /// How many users the cache is made for.
    pub capacity: nat,
}

impl View for GroupsApi {
    type V = GroupsApiView;

    closed spec fn view(&self) -> GroupsApiView {
        GroupsApiView { cached: cache_entries(self.cache), capacity: cache_capacity(self.cache) }
    }
}

/// A copy of a user.
fn copy_user(user: &User) -> (copy: User)
    ensures
        copy@ == user@,
{
    let mut groups: Vec<String> = Vec::new();
    let mut i: usize = 0;
    while i < user.groups.len()
        invariant
            i <= user.groups.len(),
            groups@.len() == i,
            forall|j: int| 0 <= j < i ==> groups@[j]@ == user.groups@[j]@,
        decreases user.groups.len() - i,
    {
        groups.push(user.groups[i].clone());
        i += 1;
    }
    let copy = User { id: user.id.clone(), groups };
    assert(copy@.groups =~= user@.groups);
    copy
}

impl GroupsApi {
    /// A service that remembers nobody yet, with room for
    /// [`USER_CACHE_CAPACITY`] users.
    pub fn new() -> (api: Self)
        ensures
            api@.cached == Seq::<Entry>::empty(),
            api@.capacity == USER_CACHE_CAPACITY,
    {
        GroupsApi { cache: cache_new(USER_CACHE_CAPACITY) }
    }

    /// The user remembered under `id`, if any.  Asking counts as use.
    pub fn get_user_from_cache(&mut self, id: &str) -> (user: Option<User>)
        ensures
            final(self)@ == (GroupsApiView { cached: recalled(old(self)@.cached, id@), ..old(self)@ }),
            match lookup(old(self)@.cached, id@) {
                Some(u) => user matches Some(found) && found@ == u,
                None => user is None,
            },
    {
        cache_get(&mut self.cache, id)
    }

    /// Remembers `user` under `id`.
    pub fn put_user_to_cache(&mut self, id: String, user: User)
        ensures
            final(self)@ == (GroupsApiView {
                cached: remembered(old(self)@.cached, old(self)@.capacity, id@, user@),
                ..old(self)@
            }),
            final(self)@.cached.len() <= final(self)@.capacity,
            lookup(final(self)@.cached, id@) == Some(user@),
    {
        cache_put(&mut self.cache, id, user);
    }

    /// Forgets the user under `id`.
    pub fn remove_user_from_cache(&mut self, id: &str)
        ensures
            final(self)@ == (GroupsApiView { cached: without(old(self)@.cached, id@), ..old(self)@ }),
            lookup(final(self)@.cached, id@) is None,
    {
        proof {
            lemma_invalidated_is_forgotten(self@.cached, id@);
        }
        cache_pop(&mut self.cache, id);
    }

    /// Completes a lookup that missed the cache, given the groups the store
    /// lists for the user: the user is remembered and returned.  A store that
    /// could not answer is an `internal_server_error` and nothing is
    /// remembered.
    pub fn get_user(
        &mut self,
        id: String,
        groups: Result<Vec<String>, StoreError>,
    ) -> (res: Result<User, SinkronError>)
        ensures
            match groups {
                Ok(listed) => {
                    &&& res matches Ok(user)
                    &&& user == (User { id, groups: listed })
                    &&& final(self)@ == (GroupsApiView {
                        cached: remembered(old(self)@.cached, old(self)@.capacity, id@, user@),
                        ..old(self)@
                    })
                    &&& lookup(final(self)@.cached, id@) == Some(user@)
                },
                Err(err) => {
                    &&& res matches Err(e)
                    &&& err.internal(e)
                    &&& final(self)@ == old(self)@
                },
            },
    {
        match groups {
            Ok(listed) => {
                let key = id.clone();
                let user = User { id, groups: listed };
                self.put_user_to_cache(key, copy_user(&user));
                Ok(user)
            },
            Err(err) => Err(internal_error(err)),
        }
    }

    /// Whether a group exists, given how many rows the store counted for its
    /// id.
    pub fn group_exists(count: Result<i64, StoreError>) -> (res: Result<bool, SinkronError>)
        ensures
            match count {
                Ok(n) => res == Ok::<bool, SinkronError>(n != 0),
                Err(err) => res matches Err(e) && err.internal(e),
            },
    {
        match count {
            Ok(n) => Ok(n != 0),
            Err(err) => Err(internal_error(err)),
        }
    }

    /// The group with its members, given the members the store lists for
    /// it, or `None` where the group does not exist.
    pub fn get_group(
        id: String,
        members: Option<Result<Vec<String>, StoreError>>,
    ) -> (res: Result<Group, SinkronError>)
        ensures
            match members {
                None => fails(res, ErrorCode::NotFound, "Group not found"@),
                Some(Ok(listed)) => res == Ok::<Group, SinkronError>(Group { id, members: listed }),
                Some(Err(err)) => res matches Err(e) && err.internal(e),
            },
    {
        match members {
            None => Err(SinkronError::not_found("Group not found")),
            Some(Ok(listed)) => Ok(Group { id, members: listed }),
            Some(Err(err)) => Err(internal_error(err)),
        }
    }

    /// What the caller is told once the store was asked to insert a group.
    pub fn create_group(inserted: Result<usize, StoreError>) -> (res: Result<(), SinkronError>)
        ensures
            match inserted {
                Ok(_) => res is Ok,
                Err(err) => res matches Err(e) && err.internal(e),
            },
    {
        match inserted {
            Ok(_) => Ok(()),
            Err(err) => Err(internal_error(err)),
        }
    }

    /// Ends the deletion of a group, given the users whose membership the
    /// store removed and how many group rows it deleted.  Every such user is
    /// forgotten, whatever became of the group's row; a group that was not
    /// there is `not_found`.
    pub fn delete_group(
        &mut self,
        members: &Vec<String>,
        deleted: Result<usize, StoreError>,
    ) -> (res: Result<(), SinkronError>)
        ensures
            final(self)@ == (GroupsApiView {
                cached: without_all(old(self)@.cached, ids_of(members@)),
                ..old(self)@
            }),
            forall|i: int| 0 <= i < members@.len() ==> lookup(final(self)@.cached, #[trigger] members@[i]@)
                is None,
            match deleted {
                Ok(n) => if n == 0 {
                    fails(res, ErrorCode::NotFound, "Group not found"@)
                } else {
                    res is Ok
                },
                Err(err) => res matches Err(e) && err.internal(e),
            },
    {
        let ghost ids = ids_of(members@);
        let mut i: usize = 0;
        while i < members.len()
            invariant
                i <= members.len(),
                ids == ids_of(members@),
                self@ == (GroupsApiView {
                    cached: without_all(old(self)@.cached, ids.take(i as int)),
                    ..old(self)@
                }),
            decreases members.len() - i,
        {
            proof {
                assert(ids.take(i + 1).drop_last() =~= ids.take(i as int));
            }
            self.remove_user_from_cache(members[i].as_str());
            i += 1;
        }
        proof {
            assert(ids.take(members.len() as int) =~= ids);
            assert forall|j: int| 0 <= j < members@.len() implies lookup(
                self@.cached,
                #[trigger] members@[j]@,
            ) is None by {
                lemma_members_are_forgotten(old(self)@.cached, ids, j);
            }
        }
        match deleted {
            Ok(n) => if n == 0 {
                Err(SinkronError::not_found("Group not found"))
            } else {
                Ok(())
            },
            Err(err) => Err(internal_error(err)),
        }
    }

    /// Ends the adding of a user to a group, given what inserting the
    /// membership produced, or `None` where the group does not exist and
    /// nothing was inserted.  A membership that was inserted invalidates the
    /// user.
    pub fn add_user_to_group(
        &mut self,
        props: &AddRemoveUserToGroup,
        inserted: Option<Result<usize, StoreError>>,
    ) -> (res: Result<(), SinkronError>)
        ensures
            match inserted {
                None => fails(res, ErrorCode::NotFound, "Group not found"@) && final(self)@ == old(self)@,
                Some(Ok(_)) => {
                    &&& res is Ok
                    &&& final(self)@ == (GroupsApiView {
                        cached: without(old(self)@.cached, props.user@),
                        ..old(self)@
                    })
                    &&& lookup(final(self)@.cached, props.user@) is None
                },
                Some(Err(err)) => res matches Err(e) && err.internal(e) && final(self)@ == old(self)@,
            },
    {
        match inserted {
            None => Err(SinkronError::not_found("Group not found")),
            Some(Ok(_)) => {
                self.remove_user_from_cache(props.user.as_str());
                Ok(())
            },
            Some(Err(err)) => Err(internal_error(err)),
        }
    }

    /// Ends the removal of a user from a group, given how many memberships
    /// the store deleted.  A membership that was not there is `not_found`
    /// and leaves the cache alone; one that was removed invalidates the
    /// user.
    pub fn remove_user_from_group(
        &mut self,
        props: &AddRemoveUserToGroup,
        deleted: Result<usize, StoreError>,
    ) -> (res: Result<(), SinkronError>)
        ensures
            match deleted {
                Ok(n) => if n == 0 {
                    fails(res, ErrorCode::NotFound, "Group member not found"@) && final(self)@ == old(self)@
                } else {
                    &&& res is Ok
                    &&& final(self)@ == (GroupsApiView {
                        cached: without(old(self)@.cached, props.user@),
                        ..old(self)@
                    })
                    &&& lookup(final(self)@.cached, props.user@) is None
                },
                Err(err) => res matches Err(e) && err.internal(e) && final(self)@ == old(self)@,
            },
    {
        match deleted {
            Ok(n) => {
                if n == 0 {
                    Err(SinkronError::not_found("Group member not found"))
                } else {
                    self.remove_user_from_cache(props.user.as_str());
                    Ok(())
                }
            },
            Err(err) => Err(internal_error(err)),
        }
    }

    /// Ends the removal of a user from every group, given what deleting the
    /// memberships produced.  Memberships that were deleted, however many,
    /// invalidate the user.
    pub fn remove_user_from_all_groups(
        &mut self,
        id: &String,
        deleted: Result<usize, StoreError>,
    ) -> (res: Result<(), SinkronError>)
        ensures
            match deleted {
                Ok(_) => {
                    &&& res is Ok
                    &&& final(self)@ == (GroupsApiView {
                        cached: without(old(self)@.cached, id@),
                        ..old(self)@
                    })
                    &&& lookup(final(self)@.cached, id@) is None
                },
                Err(err) => res matches Err(e) && err.internal(e) && final(self)@ == old(self)@,
            },
    {
        match deleted {
            Ok(_) => {
                self.remove_user_from_cache(id.as_str());
                Ok(())
            },
            Err(err) => Err(internal_error(err)),
        }
    }
}

/// The ids in a list of users.
pub open spec fn ids_of(users: Seq<String>) -> Seq<Seq<char>> {
    users.map_values(|id: String| id@)
}

} // verus!
