use sinkron::permissions::{Action, Permissions, Role};
use sinkron::types::User;

fn user(id: &str, groups: &[&str]) -> User {
    User { id: id.to_string(), groups: groups.iter().map(|g| g.to_string()).collect() }
}

#[test]
fn empty_permissions_deny_everyone() {
    let p = Permissions::empty();
    let u = user("alice", &["staff"]);
    assert!(!p.check(&u, Action::Read));
    assert!(!p.check(&u, Action::Create));
    assert!(!p.check(&u, Action::Update));
    assert!(!p.check(&u, Action::Delete));
}

#[test]
fn any_role_matches_every_user() {
    let mut p = Permissions::empty();
    p.read.push(Role::Any);
    assert!(p.check(&user("bob", &[]), Action::Read));
    assert!(!p.check(&user("bob", &[]), Action::Update));
}

#[test]
fn user_role_matches_the_named_user_only() {
    let mut p = Permissions::empty();
    p.read.push(Role::User { id: "alice".to_string() });
    assert!(p.check(&user("alice", &[]), Action::Read));
    assert!(!p.check(&user("bob", &["alice"]), Action::Read));
    assert!(Role::User { id: "alice".to_string() }.matches(&user("alice", &[])));
    assert!(!Role::User { id: "alice".to_string() }.matches(&user("alic", &[])));
}

#[test]
fn group_role_matches_members_of_the_group() {
    let mut p = Permissions::empty();
    p.delete.push(Role::User { id: "root".to_string() });
    p.delete.push(Role::Group { id: "staff".to_string() });
    assert!(p.check(&user("carol", &["guests", "staff"]), Action::Delete));
    assert!(!p.check(&user("staff", &["guests"]), Action::Delete));
    assert!(!p.check(&user("carol", &[]), Action::Delete));
    assert!(!p.check(&user("carol", &["guests", "staff"]), Action::Read));
}

#[test]
fn each_action_has_its_own_list() {
    let p = Permissions {
        read: vec![Role::User { id: "r".to_string() }],
        create: vec![Role::User { id: "c".to_string() }],
        update: vec![Role::User { id: "u".to_string() }],
        delete: vec![Role::User { id: "d".to_string() }],
    };
    for (id, action) in [("r", Action::Read), ("c", Action::Create), ("u", Action::Update), ("d", Action::Delete)] {
        for other in [Action::Read, Action::Create, Action::Update, Action::Delete] {
            assert_eq!(p.check(&user(id, &[]), other), other == action);
        }
    }
}

#[test]
fn text_that_does_not_decode_degrades_to_deny_all() {
    let p = Permissions::parse_or_empty(None);
    assert_eq!(p, Permissions::empty());
    assert!(!p.check(&user("alice", &[]), Action::Read));
    let mut q = Permissions::empty();
    q.read.push(Role::Any);
    assert_eq!(Permissions::parse_or_empty(Some(q.clone())), q);
}
