use suibi::aggregate::{apply_all, Aggregate, DomainError, Field, Items};
use suibi::permission::{self, Permission};
use suibi::permission_code::PermissionCode;
use suibi::post::{self, Post, PostStatus};
use suibi::role::{self, Role};
use suibi::sets::{IdSet, NameSet};
use suibi::tag::{self, Tag};
use suibi::taxonomy::{self, Taxonomy};
use suibi::taxonomy_path::TaxonomyPath;
use suibi::user::{self, User};

fn s(x: &str) -> String {
    x.to_string()
}

fn sorted<T: Ord>(mut v: Vec<T>) -> Vec<T> {
    v.sort();
    v
}

fn run<A: Aggregate>(state: Option<A>, command: A::Command) -> Result<Option<A>, DomainError> {
    let events = A::handle(state.as_ref(), command)?;
    Ok(apply_all(state, &events))
}

fn new_tag() -> Tag {
    run::<Tag>(None, tag::Command::Create { id: 1, name: s("rust"), hero: None, description: s("d") })
        .unwrap()
        .unwrap()
}

#[test]
fn tag_lifecycle() {
    let t = new_tag();
    assert_eq!((t.id, t.name.as_str(), t.hero.clone(), t.description.as_str()), (1, "rust", None, "d"));
    assert_eq!(t.aggregate_id(), 1);
    let t = run(Some(t), tag::Command::UpdateName { name: s("go") }).unwrap().unwrap();
    assert_eq!(t.name, "go");
    let t = run(Some(t), tag::Command::UpdateHero { hero: Some(s("h.png")) }).unwrap().unwrap();
    assert_eq!(t.hero.as_deref(), Some("h.png"));
    let t = run(Some(t), tag::Command::UpdateDescription { description: s("e") }).unwrap().unwrap();
    assert_eq!(t.description, "e");
    assert!(run(Some(t), tag::Command::Delete).unwrap().is_none());
}

#[test]
fn tag_refusals() {
    assert!(matches!(
        Tag::handle(None, tag::Command::Create { id: 1, name: s(""), hero: None, description: s("") }),
        Err(DomainError::EmptyField(Field::Name))
    ));
    let t = new_tag();
    assert!(matches!(
        Tag::handle(Some(&t), tag::Command::Create { id: 2, name: s("x"), hero: None, description: s("") }),
        Err(DomainError::AlreadyExists)
    ));
    assert!(matches!(Tag::handle(None, tag::Command::Delete), Err(DomainError::NotFound)));
    assert!(matches!(
        Tag::handle(Some(&t), tag::Command::UpdateName { name: s("") }),
        Err(DomainError::EmptyField(Field::Name))
    ));
    assert!(matches!(Tag::handle(None, tag::Command::UpdateHero { hero: None }), Err(DomainError::NotFound)));
}

#[test]
fn update_events_need_a_state() {
    assert!(Tag::apply(None, &tag::Event::NameUpdated { name: s("x") }).is_none());
    assert!(Role::apply(None, &role::Event::ParentRemoved).is_none());
    assert!(Post::apply(None, &post::Event::StatusChanged { status: PostStatus::Published }).is_none());
}

#[test]
fn permission_lifecycle() {
    let code = PermissionCode::new("user.create").unwrap();
    let p = run::<Permission>(None, permission::Command::Create { id: 4, code, description: None })
        .unwrap()
        .unwrap();
    assert_eq!(&*p.code, "user.create");
    let p = run(Some(p), permission::Command::UpdateCode { code: PermissionCode::new("user.read").unwrap() })
        .unwrap()
        .unwrap();
    assert_eq!(p.code.as_str(), "user.read");
    let p = run(Some(p), permission::Command::UpdateDescription { description: Some(s("read users")) })
        .unwrap()
        .unwrap();
    assert_eq!(p.description.as_deref(), Some("read users"));
    assert!(matches!(
        Permission::handle(Some(&p), permission::Command::Create {
            id: 5,
            code: PermissionCode::new("a").unwrap(),
            description: None
        }),
        Err(DomainError::AlreadyExists)
    ));
    assert!(matches!(
        Permission::handle(None, permission::Command::UpdateDescription { description: None }),
        Err(DomainError::NotFound)
    ));
    assert!(Permission::apply(Some(p), &permission::Event::Deleted).is_none());
}

fn names(v: &[&str]) -> NameSet {
    NameSet::from_vec(v.iter().map(|x| s(x)).collect())
}

fn new_role(id: u128) -> Role {
    run::<Role>(None, role::Command::Create { id, name: s("admin"), description: None }).unwrap().unwrap()
}

#[test]
fn role_permissions() {
    let r = new_role(10);
    assert!(r.permissions.is_empty() && r.parent.is_none());
    assert!(matches!(
        Role::handle(Some(&r), role::Command::GrantPermissions { permissions: NameSet::new() }),
        Err(DomainError::EmptySelection(Field::Permissions))
    ));
    let r = run(Some(r), role::Command::GrantPermissions { permissions: names(&["a", "b"]) }).unwrap().unwrap();
    assert_eq!(sorted(r.permissions.to_vec()), vec![s("a"), s("b")]);
    assert!(matches!(
        Role::handle(Some(&r), role::Command::GrantPermissions { permissions: names(&["b", "c"]) }),
        Err(DomainError::AlreadyPresent(Field::Permissions, Items::Names(d))) if d.to_vec() == vec![s("b")]
    ));
    assert!(matches!(
        Role::handle(Some(&r), role::Command::RevokePermissions { permissions: names(&["a", "z"]) }),
        Err(DomainError::Missing(Field::Permissions, Items::Names(d))) if d.to_vec() == vec![s("z")]
    ));
    match Role::handle(Some(&r), role::Command::GrantPermissions { permissions: names(&["c", "c"]) }) {
        Ok(events) => {
            assert_eq!(events.len(), 1);
            assert!(matches!(&events[0], role::Event::PermissionsGranted { permissions } if permissions == &vec![s("c")]));
        }
        Err(_) => panic!("grant refused"),
    }
    let r = run(Some(r), role::Command::RevokePermissions { permissions: names(&["a"]) }).unwrap().unwrap();
    assert_eq!(r.permissions.to_vec(), vec![s("b")]);
}

#[test]
fn role_parent() {
    let r = new_role(10);
    assert!(matches!(
        Role::handle(Some(&r), role::Command::AssignParent { parent: 10 }),
        Err(DomainError::SelfParent)
    ));
    assert!(matches!(Role::handle(Some(&r), role::Command::RemoveParent), Err(DomainError::NoParent)));
    let r = run(Some(r), role::Command::AssignParent { parent: 11 }).unwrap().unwrap();
    assert_eq!(r.parent, Some(11));
    assert!(matches!(
        Role::handle(Some(&r), role::Command::AssignParent { parent: 12 }),
        Err(DomainError::ParentAlreadyAssigned)
    ));
    let r = run(Some(r), role::Command::RemoveParent).unwrap().unwrap();
    assert_eq!(r.parent, None);
    let r = run(Some(r), role::Command::UpdateName { name: s("ops") }).unwrap().unwrap();
    assert_eq!(r.name, "ops");
    assert!(matches!(
        Role::handle(Some(&r), role::Command::UpdateName { name: s("") }),
        Err(DomainError::EmptyField(Field::Name))
    ));
}

fn new_user() -> User {
    run::<User>(None, user::Command::CreateByEmail { id: 7, username: s("ann"), email: s("a@x"), phc: s("$h") })
        .unwrap()
        .unwrap()
}

#[test]
fn user_creation_checks_each_field() {
    let make = |u: &str, e: &str, p: &str| {
        User::handle(None, user::Command::CreateByEmail { id: 1, username: s(u), email: s(e), phc: s(p) })
    };
    assert!(matches!(make("", "e", "p"), Err(DomainError::EmptyField(Field::Username))));
    assert!(matches!(make("u", "", "p"), Err(DomainError::EmptyField(Field::Email))));
    assert!(matches!(make("u", "e", ""), Err(DomainError::EmptyField(Field::Phc))));
    let u = new_user();
    assert_eq!((u.id, u.username.as_str(), u.email.as_deref(), u.phc.as_deref()), (7, "ann", Some("a@x"), Some("$h")));
    assert!(u.roles.is_empty());
}

#[test]
fn user_credentials() {
    let u = new_user();
    assert!(matches!(
        User::handle(Some(&u), user::Command::UpdateEmail { email: Some(s("")) }),
        Err(DomainError::EmptyField(Field::Email))
    ));
    let u = run(Some(u), user::Command::UpdateEmail { email: None }).unwrap().unwrap();
    assert_eq!(u.email, None);
    assert!(matches!(
        User::handle(Some(&u), user::Command::UpdatePhc { phc: Some(s("")) }),
        Err(DomainError::EmptyField(Field::Phc))
    ));
    let u = run(Some(u), user::Command::UpdatePhc { phc: Some(s("$new")) }).unwrap().unwrap();
    assert_eq!(u.phc.as_deref(), Some("$new"));
}

#[test]
fn user_roles_and_delete() {
    let u = new_user();
    let u = run(Some(u), user::Command::AssignRoles { roles: IdSet::from_vec(vec![1, 2]) }).unwrap().unwrap();
    assert_eq!(sorted(u.roles.to_vec()), vec![1, 2]);
    assert!(matches!(
        User::handle(Some(&u), user::Command::AssignRoles { roles: IdSet::from_vec(vec![2, 3]) }),
        Err(DomainError::AlreadyPresent(Field::Roles, Items::Ids(d))) if d.to_vec() == vec![2]
    ));
    assert!(matches!(
        User::handle(Some(&u), user::Command::RevokeRoles { roles: IdSet::from_vec(vec![3]) }),
        Err(DomainError::Missing(Field::Roles, Items::Ids(d))) if d.to_vec() == vec![3]
    ));
    assert!(matches!(
        User::handle(Some(&u), user::Command::RevokeRoles { roles: IdSet::new() }),
        Err(DomainError::EmptySelection(Field::Roles))
    ));
    let u = run(Some(u), user::Command::RevokeRoles { roles: IdSet::from_vec(vec![1]) }).unwrap().unwrap();
    assert_eq!(u.roles.to_vec(), vec![2]);
    assert!(matches!(User::handle(Some(&u), user::Command::UserDelete { id: 8 }), Err(DomainError::UserMismatch)));
    assert!(run(Some(u), user::Command::UserDelete { id: 7 }).unwrap().is_none());
}

fn new_post() -> Post {
    run::<Post>(None, post::Command::Create { id: 3, title: s("t"), content: s("c"), author_id: 9 })
        .unwrap()
        .unwrap()
}

#[test]
fn post_status_lifecycle() {
    let p = new_post();
    assert_eq!(p.status, PostStatus::Draft);
    assert!(matches!(Post::handle(Some(&p), post::Command::RevertToDraft), Err(DomainError::AlreadyDraft)));
    let p = run(Some(p), post::Command::Publish).unwrap().unwrap();
    assert_eq!(p.status, PostStatus::Published);
    assert!(matches!(Post::handle(Some(&p), post::Command::Publish), Err(DomainError::AlreadyPublished)));
    let p = run(Some(p), post::Command::Archive).unwrap().unwrap();
    assert_eq!(p.status, PostStatus::Archived);
    assert!(matches!(Post::handle(Some(&p), post::Command::Publish), Err(DomainError::PublishArchived)));
    assert!(matches!(Post::handle(Some(&p), post::Command::Archive), Err(DomainError::AlreadyArchived)));
    let p = run(Some(p), post::Command::RevertToDraft).unwrap().unwrap();
    assert_eq!(p.status, PostStatus::Draft);
}

#[test]
fn post_tags_and_taxonomies() {
    let p = new_post();
    let p = run(Some(p), post::Command::AddTags { tag_ids: IdSet::from_vec(vec![1, 2]) }).unwrap().unwrap();
    assert!(matches!(
        Post::handle(Some(&p), post::Command::AddTags { tag_ids: IdSet::from_vec(vec![2]) }),
        Err(DomainError::AlreadyPresent(Field::TagIds, Items::Ids(d))) if d.to_vec() == vec![2]
    ));
    let p = run(Some(p), post::Command::RemoveTags { tag_ids: IdSet::from_vec(vec![1]) }).unwrap().unwrap();
    assert_eq!(p.tag_ids.to_vec(), vec![2]);
    assert!(matches!(
        Post::handle(Some(&p), post::Command::RemoveTags { tag_ids: IdSet::from_vec(vec![1]) }),
        Err(DomainError::Missing(Field::TagIds, Items::Ids(d))) if d.to_vec() == vec![1]
    ));
    let p = run(Some(p), post::Command::AddTaxonomies { taxonomy_ids: IdSet::from_vec(vec![5]) }).unwrap().unwrap();
    assert!(matches!(
        Post::handle(Some(&p), post::Command::AddTaxonomies { taxonomy_ids: IdSet::new() }),
        Err(DomainError::EmptySelection(Field::TaxonomyIds))
    ));
    let p = run(Some(p), post::Command::RemoveTaxonomies { taxonomy_ids: IdSet::from_vec(vec![5]) })
        .unwrap()
        .unwrap();
    assert!(p.taxonomy_ids.is_empty());
}

#[test]
fn post_author_commands() {
    let p = new_post();
    assert!(matches!(
        Post::handle(Some(&p), post::Command::AuthorOwnUpdate { author_id: 1, title: None, content: None }),
        Err(DomainError::NotAuthor)
    ));
    let p = run(Some(p), post::Command::AuthorOwnUpdate { author_id: 9, title: Some(s("t2")), content: None })
        .unwrap()
        .unwrap();
    assert_eq!((p.title.as_str(), p.content.as_str()), ("t2", "c"));
    let p = run(Some(p), post::Command::ChangeAuthor { author_id: 4 }).unwrap().unwrap();
    assert_eq!(p.author_id, 4);
    assert!(matches!(Post::handle(Some(&p), post::Command::AuthorOwnDelete { author_id: 9 }), Err(DomainError::NotAuthor)));
    assert!(matches!(
        Post::handle(Some(&p), post::Command::UpdateTitle { title: s("") }),
        Err(DomainError::EmptyField(Field::Title))
    ));
    let p = run(Some(p), post::Command::UpdateContent { content: s("c2") }).unwrap().unwrap();
    assert_eq!(p.content, "c2");
    assert!(run(Some(p), post::Command::AuthorOwnDelete { author_id: 4 }).unwrap().is_none());
    assert!(matches!(
        Post::handle(None, post::Command::Create { id: 1, title: s("t"), content: s(""), author_id: 1 }),
        Err(DomainError::EmptyField(Field::Content))
    ));
    assert!(matches!(post::UniqueKey::title(9, s("t")), post::UniqueKey::Title { user: 9, title } if title == "t"));
}

#[test]
fn taxonomy_lifecycle() {
    let t = run::<Taxonomy>(None, taxonomy::Command::Create {
        id: 2,
        name: s("Rust"),
        slug: s("rust"),
        path: TaxonomyPath::new(s("tech/rust")),
        description: s(""),
        hero: None,
    })
    .unwrap()
    .unwrap();
    assert_eq!(t.path.as_path(), "tech/rust");
    assert!(matches!(
        Taxonomy::handle(Some(&t), taxonomy::Command::UpdateSlug { slug: s("") }),
        Err(DomainError::EmptyField(Field::Slug))
    ));
    let t = run(Some(t), taxonomy::Command::UpdatePath { path: TaxonomyPath::new(s("lang/rust")) }).unwrap().unwrap();
    assert_eq!(t.path.as_path(), "lang/rust");
    let t = run(Some(t), taxonomy::Command::UpdateHero { hero: Some(s("r.png")) }).unwrap().unwrap();
    assert_eq!(t.hero.as_deref(), Some("r.png"));
    assert!(matches!(
        Taxonomy::handle(None, taxonomy::Command::Create {
            id: 2,
            name: s("R"),
            slug: s(""),
            path: TaxonomyPath::new(s("x")),
            description: s(""),
            hero: None
        }),
        Err(DomainError::EmptyField(Field::Slug))
    ));
    assert!(run(Some(t), taxonomy::Command::Delete).unwrap().is_none());
}
