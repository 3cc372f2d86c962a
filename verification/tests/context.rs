use suibi::aggregate::{apply_all, DomainError};
use suibi::context::{CommitError, Context, InlineProjection, SnapShot, UnCommitted, VersionConflict};
use suibi::tag::{self, Tag};

fn s(x: &str) -> String {
    x.to_string()
}

fn create(id: u128, name: &str) -> tag::Command {
    tag::Command::Create { id, name: s(name), hero: None, description: s("") }
}

#[test]
fn empty_context() {
    let c = Context::<Tag>::empty(42);
    assert_eq!(c.id(), 42);
    assert!(c.as_aggregate().is_none());
    assert_eq!(c.version(), 0);
    assert_eq!(c.uncommitted_version(), 0);
    assert!(c.pending().is_empty());
}

#[test]
fn handle_applies_and_records() {
    let c = Context::<Tag>::empty(1).handle(create(1, "rust")).ok().unwrap();
    assert_eq!(c.as_aggregate().unwrap().name, "rust");
    assert_eq!(c.pending().len(), 1);
    assert_eq!(c.version(), 0);
    let c = c.handle(tag::Command::UpdateName { name: s("go") }).ok().unwrap();
    assert_eq!(c.as_aggregate().unwrap().name, "go");
    assert_eq!(c.pending().len(), 2);
    let refused = c.handle(create(1, "again"));
    assert!(matches!(refused, Err(DomainError::AlreadyExists)));
}

#[test]
fn handle_command_records_without_applying() {
    let mut c = Context::<Tag>::empty(1);
    assert!(c.handle_command(create(1, "rust")).is_ok());
    assert!(c.as_aggregate().is_none());
    assert_eq!(c.pending().len(), 1);
    // The state does not reflect the event yet, so the command is checked
    // against the absent tag.
    assert!(matches!(c.handle_command(tag::Command::Delete), Err(DomainError::NotFound)));
    assert_eq!(c.pending().len(), 1);
    // Bringing the state up to date applies the recorded event.
    let c = c.latest();
    assert_eq!(c.as_aggregate().unwrap().name, "rust");
    assert_eq!(c.version(), 1);
}

#[test]
fn replay_applies_stored_events() {
    let mut c = Context::<Tag>::empty(1);
    c.replay(&tag::Event::Created { id: 1, name: s("a"), hero: None, description: s("") });
    c.replay(&tag::Event::NameUpdated { name: s("b") });
    assert_eq!(c.version(), 2);
    assert_eq!(c.as_aggregate().unwrap().name, "b");
    c.replay(&tag::Event::Deleted);
    assert!(c.as_aggregate().is_none());
    assert_eq!(c.version(), 3);
}

#[test]
fn committing_moves_the_versions() {
    let mut c = Context::<Tag>::empty(1);
    assert!(c.handle_command(create(1, "rust")).is_ok());
    let mut c = c.latest();
    assert!(c.handle_command(tag::Command::UpdateName { name: s("go") }).is_ok());
    assert_eq!(c.pending().len(), 2);
    c.mark_committed();
    assert_eq!(c.version(), 2);
    assert_eq!(c.uncommitted_version(), 3);
    assert!(c.pending().is_empty());
    assert_eq!(c.as_aggregate().unwrap().name, "rust");
}

#[test]
fn executors_carry_the_context() {
    let c = Context::<Tag>::empty(9).handle(create(9, "x")).ok().unwrap();
    let committer = c.commit();
    let c = committer.into_context();
    assert_eq!(c.pending().len(), 1);
    let f = Context::<Tag>::empty(9).fetch(Some(3));
    assert_eq!((f.id(), f.version()), (9, Some(3)));
    let sf = Context::<Tag>::empty(8).snapshot();
    assert_eq!(sf.id(), 8);
}

#[test]
fn snapshots_and_projections() {
    let state = Tag { id: 5, name: s("n"), hero: None, description: s("") };
    let snap = SnapShot { state, version: 4 };
    assert_eq!(snap.id(), 5);
    let loader = snap.loader(7);
    assert_eq!(loader.version, 7);
    assert_eq!(loader.snapshot.unwrap().version, 4);
    let proj = InlineProjection::new(Tag { id: 6, name: s("m"), hero: None, description: s("") });
    assert_eq!(proj.get().id, 6);
    assert_eq!(proj.name, "m");
}

#[test]
fn uncommitted_and_conflicts() {
    let mut u: UnCommitted<u8> = UnCommitted::default();
    u.push(1);
    u.extend(vec![2, 3]);
    assert_eq!((u.version, u.events.clone()), (0, vec![1, 2, 3]));
    let v = VersionConflict::new(5, 3);
    assert_eq!((v.actual(), v.expected()), (5, 3));
    match CommitError::<(), ()>::conflict(3, 5) {
        CommitError::Conflict(c) => assert_eq!(c, VersionConflict::new(5, 3)),
        _ => panic!("not a conflict"),
    }
}

#[test]
fn replaying_in_two_batches_is_replaying_all() {
    let first = vec![
        tag::Event::Created { id: 1, name: s("a"), hero: None, description: s("") },
        tag::Event::NameUpdated { name: s("b") },
    ];
    let second = vec![tag::Event::DescriptionUpdated { description: s("d") }, tag::Event::NameUpdated { name: s("c") }];
    let all = vec![
        tag::Event::Created { id: 1, name: s("a"), hero: None, description: s("") },
        tag::Event::NameUpdated { name: s("b") },
        tag::Event::DescriptionUpdated { description: s("d") },
        tag::Event::NameUpdated { name: s("c") },
    ];
    let batched = apply_all(apply_all::<Tag>(None, &first), &second).unwrap();
    let whole = apply_all::<Tag>(None, &all).unwrap();
    assert_eq!((batched.name.as_str(), batched.description.as_str()), ("c", "d"));
    assert_eq!((whole.name.as_str(), whole.description.as_str()), ("c", "d"));
}

#[test]
fn a_loaded_context_commits_from_its_version() {
    let state = Tag { id: 3, name: s("a"), hero: None, description: s("") };
    let c = Context::loaded(3, Some(state), 5);
    assert_eq!((c.version(), c.uncommitted_version()), (5, 5));
    let mut c = c.handle(tag::Command::UpdateName { name: s("b") }).ok().unwrap();
    c.mark_committed();
    assert_eq!((c.version(), c.uncommitted_version()), (6, 7));
    assert_eq!(c.as_aggregate().unwrap().name, "b");
}

#[test]
fn rehydrate_copies_and_applies_the_recorded_events() {
    let state = Tag { id: 1, name: s("rust"), hero: None, description: s("") };
    let mut c = Context::loaded(1, Some(state), 5);
    assert!(c.handle_command(tag::Command::UpdateName { name: s("go") }).is_ok());
    assert!(c.handle_command(tag::Command::UpdateDescription { description: s("d") }).is_ok());
    let r = c.rehydrate();
    assert_eq!(r.as_aggregate().unwrap().name, "go");
    assert_eq!(r.as_aggregate().unwrap().description, "d");
    assert_eq!(r.version(), 7);
    assert_eq!(r.uncommitted_version(), 5);
    assert_eq!(r.pending().len(), 2);
    assert_eq!(r.id(), 1);
    // The context it was copied from is left as it was.
    assert_eq!(c.as_aggregate().unwrap().name, "rust");
    assert_eq!(c.version(), 5);
    let copy = c.as_aggregate().unwrap().clone();
    assert_eq!((copy.id, copy.name.as_str()), (1, "rust"));
}

#[test]
fn conflict_messages_name_both_versions() {
    assert_eq!(VersionConflict::new(3, 5).to_string(), "version conflict, expected is 5, actual is 3");
    assert_eq!(
        VersionConflict::new(1234567890, 0).to_string(),
        "version conflict, expected is 0, actual is 1234567890"
    );
    assert_eq!(
        VersionConflict::new(0, u64::MAX).to_string(),
        "version conflict, expected is 18446744073709551615, actual is 0"
    );
    match CommitError::<(), ()>::conflict(5, 3) {
        CommitError::Conflict(c) => assert_eq!(c.to_string(), "version conflict, expected is 5, actual is 3"),
        _ => panic!("not a conflict"),
    }
}

#[test]
fn latest_twice_applies_nothing_the_second_time() {
    let state = Tag { id: 1, name: s("rust"), hero: None, description: s("") };
    let mut c = Context::loaded(1, Some(state), 4);
    assert!(c.handle_command(tag::Command::UpdateName { name: s("go") }).is_ok());
    let once = c.latest();
    assert_eq!((once.version(), once.as_aggregate().unwrap().name.as_str()), (5, "go"));
    let twice = once.latest();
    assert_eq!((twice.version(), twice.as_aggregate().unwrap().name.as_str()), (5, "go"));
    assert_eq!((twice.uncommitted_version(), twice.pending().len()), (4, 1));
}
