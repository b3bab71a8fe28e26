//! Who may do what: role lists per action, and the rule that matches a user
//! against them.

use crate::types::User;
use vstd::prelude::*;

verus! {

#[derive(Clone, Copy, Debug, PartialEq, Eq, Structural)]
pub enum Action {
    Read,
    Create,
    Update,
    Delete,
}

#[derive(Clone, Debug, PartialEq, Eq)]
pub enum Role {
    Any,
    User { id: String },
    Group { id: String },
}

#[derive(Clone, Debug, PartialEq, Eq)]
pub struct Permissions {
    pub read: Vec<Role>,
    pub create: Vec<Role>,
    pub update: Vec<Role>,
    pub delete: Vec<Role>,
}

/// A user as the permission rule sees one: an id and the ids of the groups the
/// user belongs to.
pub struct UserView {
    pub id: Seq<char>,
    pub groups: Seq<Seq<char>>,
}

pub enum RoleView {
    Any,
    User { id: Seq<char> },
    Group { id: Seq<char> },
}

pub struct PermissionsView {
    pub read: Seq<RoleView>,
    pub create: Seq<RoleView>,
    pub update: Seq<RoleView>,
    pub delete: Seq<RoleView>,
}

impl View for User {
    type V = UserView;

    open spec fn view(&self) -> UserView {
        UserView { id: self.id@, groups: self.groups@.map_values(|g: String| g@) }
    }
}

impl View for Role {
    type V = RoleView;

    open spec fn view(&self) -> RoleView {
        match *self {
            Role::Any => RoleView::Any,
            Role::User { id } => RoleView::User { id: id@ },
            Role::Group { id } => RoleView::Group { id: id@ },
        }
    }
}

impl View for Permissions {
    type V = PermissionsView;

    open spec fn view(&self) -> PermissionsView {
        PermissionsView {
            read: self.read@.map_values(|r: Role| r@),
            create: self.create@.map_values(|r: Role| r@),
            update: self.update@.map_values(|r: Role| r@),
            delete: self.delete@.map_values(|r: Role| r@),
        }
    }
}

impl RoleView {
    /// A user matches a role iff the role is `Any`, or names the user, or
    /// names one of the user's groups.
    pub open spec fn matches(self, user: UserView) -> bool {
        match self {
            RoleView::Any => true,
            RoleView::User { id } => user.id == id,
            RoleView::Group { id } => user.groups.contains(id),
        }
    }
}

impl PermissionsView {
    pub open spec fn empty() -> PermissionsView {
        PermissionsView { read: seq![], create: seq![], update: seq![], delete: seq![] }
    }

    /// The role list that governs an action.
    pub open spec fn roles(self, action: Action) -> Seq<RoleView> {
        match action {
            Action::Read => self.read,
            Action::Create => self.create,
            Action::Update => self.update,
            Action::Delete => self.delete,
        }
    }

    /// An action is permitted iff any role in its list matches the user.
    pub open spec fn permits(self, user: UserView, action: Action) -> bool {
        exists|i: int| 0 <= i < self.roles(action).len() && #[trigger] self.roles(action)[i].matches(user)
    }
}

/// Whether `id` is among `groups`.
fn in_groups(groups: &Vec<String>, id: &String) -> (found: bool)
    ensures
        found == groups@.map_values(|g: String| g@).contains(id@),
{
    let ghost ids = groups@.map_values(|g: String| g@);
    let mut i: usize = 0;
    while i < groups.len()
        invariant
            i <= groups.len(),
            ids == groups@.map_values(|g: String| g@),
            forall|j: int| 0 <= j < i ==> ids[j] != id@,
        decreases groups.len() - i,
    {
        if groups[i] == *id {
            assert(ids[i as int] == id@);
            return true;
        }
        i += 1;
    }
    false
}

impl Role {
    /// Whether `user` matches this role.
    pub fn matches(&self, user: &User) -> (ok: bool)
        ensures
            ok == self@.matches(user@),
    {
        match self {
            Role::Any => true,
            Role::User { id } => user.id == *id,
            Role::Group { id } => in_groups(&user.groups, id),
        }
    }
}

impl Permissions {
    /// The permission set that denies everything.
    pub fn empty() -> (p: Self)
        ensures
            p@ == PermissionsView::empty(),
            forall|user: UserView, action: Action| !p@.permits(user, action),
    {
        let p = Permissions {
            read: Vec::new(),
            create: Vec::new(),
            update: Vec::new(),
            delete: Vec::new(),
        };
        assert(p@.read =~= seq![]);
        assert(p@.create =~= seq![]);
        assert(p@.update =~= seq![]);
        assert(p@.delete =~= seq![]);
        p
    }

    /// The permissions a stored text stands for, given what decoding it
    /// produced: text that does not decode degrades to the empty set.
    pub fn parse_or_empty(parsed: Option<Permissions>) -> (p: Self)
        ensures
            parsed matches Some(q) ==> p == q,
            parsed is None ==> p@ == PermissionsView::empty(),
    {
        match parsed {
            Some(q) => q,
            None => Permissions::empty(),
        }
    }

    /// Whether `user` may perform `action`.
    pub fn check(&self, user: &User, action: Action) -> (ok: bool)
        ensures
            ok == self@.permits(user@, action),
    {
        let list = match action {
            Action::Read => &self.read,
            Action::Create => &self.create,
            Action::Update => &self.update,
            Action::Delete => &self.delete,
        };
        let ghost roles = self@.roles(action);
        assert(roles == list@.map_values(|r: Role| r@));
        let mut i: usize = 0;
        while i < list.len()
            invariant
                i <= list.len(),
                roles == self@.roles(action),
                roles == list@.map_values(|r: Role| r@),
                forall|j: int| 0 <= j < i ==> !(#[trigger] roles[j]).matches(user@),
            decreases list.len() - i,
        {
            if list[i].matches(user) {
                assert(roles[i as int].matches(user@));
                return true;
            }
            i += 1;
        }
        false
    }
}

} // verus!
