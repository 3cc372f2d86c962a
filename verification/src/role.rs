use vstd::prelude::*;

use crate::aggregate::{
    fold_events, opt_text, refuses, refuses_missing_names, refuses_present_names, yields, Aggregate,
    DomainError, Field, Items,
};
use crate::sets::{text_set, texts, NameSet};

verus! {

/// Keys under which a role is unique.
#[derive(Debug)]
pub enum UniqueKey {
    Id(u128),
    Name(String),
}

/// Keys under which roles are searched.
#[derive(Debug)]
pub enum SearchKey {
    Id(u128),
    Name(String),
}

/// A role: a named set of permission codes, possibly inheriting from a
/// parent role.
#[derive(Debug)]
pub struct Role {
    pub id: u128,
    pub name: String,
    pub description: Option<String>,
    pub permissions: NameSet,
    pub parent: Option<u128>,
}

/// The value of a role.
pub struct RoleView {
    pub id: u128,
    pub name: Seq<char>,
    pub description: Option<Seq<char>>,
    pub permissions: Set<Seq<char>>,
    pub parent: Option<u128>,
}

impl View for Role {
    type V = RoleView;

    open spec fn view(&self) -> RoleView {
        RoleView {
            id: self.id,
            name: self.name@,
            description: opt_text(self.description),
            permissions: self.permissions@,
            parent: self.parent,
        }
    }
}

/// What happened to a role.
#[derive(Debug, Clone)]
#[allow(inconsistent_fields)]
pub enum Event {
    Created { id: u128, name: String, description: Option<String> },
    NameUpdated { name: String },
    DescriptionUpdated { description: Option<String> },
    PermissionsGranted { permissions: Vec<String> },
    PermissionsRevoked { permissions: Vec<String> },
    ParentAssigned { parent: u128 },
    ParentRemoved,
    Deleted,
}

/// What may be asked of a role.
#[derive(Debug)]
#[allow(inconsistent_fields)]
pub enum Command {
    Create { id: u128, name: String, description: Option<String> },
    UpdateName { name: String },
    UpdateDescription { description: Option<String> },
    GrantPermissions { permissions: NameSet },
    RevokePermissions { permissions: NameSet },
    AssignParent { parent: u128 },
    RemoveParent,
}

/// `events` is the single event that lists exactly the permission codes of
/// `codes`, each once.
pub open spec fn granted_once(events: Seq<Event>, codes: Set<Seq<char>>) -> bool {
    &&& events.len() == 1
    &&& events[0] matches Event::PermissionsGranted { permissions }
    &&& text_set(permissions@) == codes
    &&& texts(permissions@).no_duplicates()
}

/// `events` is the single event that revokes exactly the permission codes of
/// `codes`, each once.
pub open spec fn revoked_once(events: Seq<Event>, codes: Set<Seq<char>>) -> bool {
    &&& events.len() == 1
    &&& events[0] matches Event::PermissionsRevoked { permissions }
    &&& text_set(permissions@) == codes
    &&& texts(permissions@).no_duplicates()
}

/// The state that handling `command` in `state` is meant to lead to.
pub open spec fn command_effect(state: Option<RoleView>, command: Command) -> Option<RoleView> {
    match command {
        Command::Create { id, name, description } => Some(
            RoleView {
                id,
                name: name@,
                description: opt_text(description),
                permissions: Set::empty(),
                parent: None,
            },
        ),
        Command::UpdateName { name } => Some(RoleView { name: name@, ..state.unwrap() }),
        Command::UpdateDescription { description } => Some(
            RoleView { description: opt_text(description), ..state.unwrap() },
        ),
        Command::GrantPermissions { permissions } => Some(
            RoleView {
                permissions: state.unwrap().permissions.union(permissions@),
                ..state.unwrap()
            },
        ),
        Command::RevokePermissions { permissions } => Some(
            RoleView {
                permissions: state.unwrap().permissions.difference(permissions@),
                ..state.unwrap()
            },
        ),
        Command::AssignParent { parent } => Some(RoleView { parent: Some(parent), ..state.unwrap() }),
        Command::RemoveParent => Some(RoleView { parent: None, ..state.unwrap() }),
    }
}

impl Clone for Role {
    fn clone(&self) -> (r: Self)
        ensures
            r@ == self@,
    {
        Role {
            id: self.id,
            name: self.name.clone(),
            description: self.description.clone(),
            permissions: self.permissions.clone(),
            parent: self.parent,
        }
    }
}

impl Aggregate for Role {
    type Event = Event;
    type Command = Command;
    type UniqueKey = UniqueKey;
    type SearchKey = SearchKey;

    open spec fn id_of(v: RoleView) -> u128 {
        v.id
    }

    open spec fn apply_spec(state: Option<RoleView>, event: Event) -> Option<RoleView> {
        match event {
            Event::Created { id, name, description } => Some(
                RoleView {
                    id,
                    name: name@,
                    description: opt_text(description),
                    permissions: Set::empty(),
                    parent: None,
                },
            ),
            Event::NameUpdated { name } => match state {
                Some(s) => Some(RoleView { name: name@, ..s }),
                None => None,
            },
            Event::DescriptionUpdated { description } => match state {
                Some(s) => Some(RoleView { description: opt_text(description), ..s }),
                None => None,
            },
            Event::PermissionsGranted { permissions } => match state {
                Some(s) => Some(
                    RoleView { permissions: s.permissions.union(text_set(permissions@)), ..s },
                ),
                None => None,
            },
            Event::PermissionsRevoked { permissions } => match state {
                Some(s) => Some(
                    RoleView { permissions: s.permissions.difference(text_set(permissions@)), ..s },
                ),
                None => None,
            },
            Event::ParentAssigned { parent } => match state {
                Some(s) => Some(RoleView { parent: Some(parent), ..s }),
                None => None,
            },
            Event::ParentRemoved => match state {
                Some(s) => Some(RoleView { parent: None, ..s }),
                None => None,
            },
            Event::Deleted => None,
        }
    }

    open spec fn handle_spec(
        state: Option<RoleView>,
        command: Command,
        result: Result<Seq<Event>, DomainError>,
    ) -> bool {
        match command {
            Command::Create { id, name, description } => if state is Some {
                refuses(result, DomainError::AlreadyExists)
            } else if name@.len() == 0 {
                refuses(result, DomainError::EmptyField(Field::Name))
            } else {
                yields(result, seq![Event::Created { id, name, description }])
            },
            Command::UpdateName { name } => if state is None {
                refuses(result, DomainError::NotFound)
            } else if name@.len() == 0 {
                refuses(result, DomainError::EmptyField(Field::Name))
            } else {
                yields(result, seq![Event::NameUpdated { name }])
            },
            Command::UpdateDescription { description } => if state is None {
                refuses(result, DomainError::NotFound)
            } else {
                yields(result, seq![Event::DescriptionUpdated { description }])
            },
            Command::GrantPermissions { permissions } => if state is None {
                refuses(result, DomainError::NotFound)
            } else if permissions@.is_empty() {
                refuses(result, DomainError::EmptySelection(Field::Permissions))
            } else if !permissions@.disjoint(state.unwrap().permissions) {
                refuses_present_names(result, Field::Permissions, permissions@.intersect(state.unwrap().permissions))
            } else {
                result matches Ok(events) && granted_once(events, permissions@)
            },
            Command::RevokePermissions { permissions } => if state is None {
                refuses(result, DomainError::NotFound)
            } else if permissions@.is_empty() {
                refuses(result, DomainError::EmptySelection(Field::Permissions))
            } else if !permissions@.subset_of(state.unwrap().permissions) {
                refuses_missing_names(result, Field::Permissions, permissions@.difference(state.unwrap().permissions))
            } else {
                result matches Ok(events) && revoked_once(events, permissions@)
            },
            Command::AssignParent { parent } => if state is None {
                refuses(result, DomainError::NotFound)
            } else if state.unwrap().parent is Some {
                refuses(result, DomainError::ParentAlreadyAssigned)
            } else if state.unwrap().id == parent {
                refuses(result, DomainError::SelfParent)
            } else {
                yields(result, seq![Event::ParentAssigned { parent }])
            },
            Command::RemoveParent => if state is None {
                refuses(result, DomainError::NotFound)
            } else if state.unwrap().parent is None {
                refuses(result, DomainError::NoParent)
            } else {
                yields(result, seq![Event::ParentRemoved])
            },
        }
    }

    proof fn lemma_clone_keeps_value(a: Self, b: Self) {
    }

    fn aggregate_id(&self) -> (r: u128) {
        self.id
    }

    fn apply(state: Option<Self>, event: &Event) -> (r: Option<Self>) {
        match event {
            Event::Created { id, name, description } => Some(
                Role {
                    id: *id,
                    name: name.clone(),
                    description: description.clone(),
                    permissions: NameSet::new(),
                    parent: None,
                },
            ),
            Event::NameUpdated { name } => match state {
                Some(mut s) => {
                    s.name = name.clone();
                    Some(s)
                },
                None => None,
            },
            Event::DescriptionUpdated { description } => match state {
                Some(mut s) => {
                    s.description = description.clone();
                    Some(s)
                },
                None => None,
            },
            Event::PermissionsGranted { permissions } => match state {
                Some(mut s) => {
                    s.permissions.extend(permissions);
                    Some(s)
                },
                None => None,
            },
            Event::PermissionsRevoked { permissions } => match state {
                Some(mut s) => {
                    s.permissions.retain_absent_from(permissions);
                    Some(s)
                },
                None => None,
            },
            Event::ParentAssigned { parent } => match state {
                Some(mut s) => {
                    s.parent = Some(*parent);
                    Some(s)
                },
                None => None,
            },
            Event::ParentRemoved => match state {
                Some(mut s) => {
                    s.parent = None;
                    Some(s)
                },
                None => None,
            },
            Event::Deleted => None,
        }
    }

    fn handle(state: Option<&Self>, command: Command) -> (r: Result<Vec<Event>, DomainError>) {
        match command {
            Command::Create { id, name, description } => {
                if state.is_some() {
                    return Err(DomainError::AlreadyExists);
                }
                if name.as_str().is_empty() {
                    return Err(DomainError::EmptyField(Field::Name));
                }
                Ok(vec![Event::Created { id, name, description }])
            },
            Command::UpdateName { name } => {
                if state.is_none() {
                    return Err(DomainError::NotFound);
                }
                if name.as_str().is_empty() {
                    return Err(DomainError::EmptyField(Field::Name));
                }
                Ok(vec![Event::NameUpdated { name }])
            },
            Command::UpdateDescription { description } => {
                if state.is_none() {
                    return Err(DomainError::NotFound);
                }
                Ok(vec![Event::DescriptionUpdated { description }])
            },
            Command::GrantPermissions { permissions } => {
                let s = match state {
                    Some(s) => s,
                    None => return Err(DomainError::NotFound),
                };
                if permissions.is_empty() {
                    return Err(DomainError::EmptySelection(Field::Permissions));
                }
                let duplicates = permissions.common_with(&s.permissions);
                if !duplicates.is_empty() {
                    assert(exists|x: Seq<char>| duplicates@.contains(x)) by {
                        if !(exists|x: Seq<char>| duplicates@.contains(x)) {
                            assert(duplicates@ =~= Set::<Seq<char>>::empty());
                        }
                    }
                    return Err(DomainError::AlreadyPresent(Field::Permissions, Items::Names(duplicates)));
                }
                assert(permissions@.disjoint(s.permissions@)) by {
                    assert forall|x: Seq<char>| permissions@.contains(x) implies !s.permissions@.contains(x) by {
                        assert(!duplicates@.contains(x));
                    }
                }
                let listed = permissions.to_vec();
                let events = vec![Event::PermissionsGranted { permissions: listed }];
                assert(granted_once(events@, permissions@));
                Ok(events)
            },
            Command::RevokePermissions { permissions } => {
                let s = match state {
                    Some(s) => s,
                    None => return Err(DomainError::NotFound),
                };
                if permissions.is_empty() {
                    return Err(DomainError::EmptySelection(Field::Permissions));
                }
                let not_exist = permissions.absent_from(&s.permissions);
                if !not_exist.is_empty() {
                    assert(exists|x: Seq<char>| not_exist@.contains(x)) by {
                        if !(exists|x: Seq<char>| not_exist@.contains(x)) {
                            assert(not_exist@ =~= Set::<Seq<char>>::empty());
                        }
                    }
                    return Err(DomainError::Missing(Field::Permissions, Items::Names(not_exist)));
                }
                assert(permissions@.subset_of(s.permissions@)) by {
                    assert forall|x: Seq<char>| permissions@.contains(x) implies s.permissions@.contains(x) by {
                        assert(!not_exist@.contains(x));
                    }
                }
                let listed = permissions.to_vec();
                let events = vec![Event::PermissionsRevoked { permissions: listed }];
                assert(revoked_once(events@, permissions@));
                Ok(events)
            },
            Command::AssignParent { parent } => {
                let s = match state {
                    Some(s) => s,
                    None => return Err(DomainError::NotFound),
                };
                if s.parent.is_some() {
                    return Err(DomainError::ParentAlreadyAssigned);
                }
                if s.id == parent {
                    return Err(DomainError::SelfParent);
                }
                Ok(vec![Event::ParentAssigned { parent }])
            },
            Command::RemoveParent => {
                let s = match state {
                    Some(s) => s,
                    None => return Err(DomainError::NotFound),
                };
                if s.parent.is_none() {
                    return Err(DomainError::NoParent);
                }
                Ok(vec![Event::ParentRemoved])
            },
        }
    }
}

/// Handling a command and then applying the events it gave leads to the
/// state that the command asks for.
pub proof fn law_handle_then_apply(state: Option<RoleView>, command: Command, events: Seq<Event>)
    requires
        Role::handle_spec(state, command, Ok(events)),
    ensures
        fold_events::<Role>(state, events) == command_effect(state, command),
{
    reveal_with_fuel(fold_events, 2);
    assert(events.drop_last() =~= Seq::<Event>::empty());
}

/// No accepted command makes a role its own parent: starting from no role,
/// or from a role that is not its own parent, the state after the events of
/// an accepted command is again no role or a role that is not its own parent.
pub proof fn law_never_own_parent(state: Option<RoleView>, command: Command, events: Seq<Event>)
    requires
        Role::handle_spec(state, command, Ok(events)),
        state matches Some(s) ==> s.parent != Some(s.id),
    ensures
        fold_events::<Role>(state, events) matches Some(t) ==> t.parent != Some(t.id),
{
    law_handle_then_apply(state, command, events);
}

/// Granting the same permissions twice: the second grant is refused, as
/// every one of them is already held.
pub proof fn law_grant_twice_refused(
    state: Option<RoleView>,
    permissions: NameSet,
    events: Seq<Event>,
    again: NameSet,
)
    requires
        Role::handle_spec(state, Command::GrantPermissions { permissions }, Ok(events)),
        again@ == permissions@,
    ensures
        forall|r: Result<Seq<Event>, DomainError>|
            Role::handle_spec(
                fold_events::<Role>(state, events),
                Command::GrantPermissions { permissions: again },
                r,
            ) <==> refuses_present_names(r, Field::Permissions, permissions@),
{
    law_handle_then_apply(state, Command::GrantPermissions { permissions }, events);
    let x = permissions@.choose();
    assert(permissions@.contains(x));
    assert(fold_events::<Role>(state, events).unwrap().permissions.contains(x));
    assert(permissions@.intersect(fold_events::<Role>(state, events).unwrap().permissions) =~= permissions@);
}

/// Revoking the same permissions twice: the second revoke is refused, as
/// none of them is held any more.
pub proof fn law_revoke_twice_refused(
    state: Option<RoleView>,
    permissions: NameSet,
    events: Seq<Event>,
    again: NameSet,
)
    requires
        Role::handle_spec(state, Command::RevokePermissions { permissions }, Ok(events)),
        again@ == permissions@,
    ensures
        forall|r: Result<Seq<Event>, DomainError>|
            Role::handle_spec(
                fold_events::<Role>(state, events),
                Command::RevokePermissions { permissions: again },
                r,
            ) <==> refuses_missing_names(r, Field::Permissions, permissions@),
{
    law_handle_then_apply(state, Command::RevokePermissions { permissions }, events);
    let x = permissions@.choose();
    assert(permissions@.contains(x));
    assert(!fold_events::<Role>(state, events).unwrap().permissions.contains(x));
    assert(permissions@.difference(fold_events::<Role>(state, events).unwrap().permissions)
        =~= permissions@);
}

/// A role takes one parent at a time: after an accepted assignment, another
/// one is refused until the parent is removed.
pub proof fn law_one_parent(state: Option<RoleView>, parent: u128, events: Seq<Event>, other: u128)
    requires
        Role::handle_spec(state, Command::AssignParent { parent }, Ok(events)),
    ensures
        Role::handle_spec(
            fold_events::<Role>(state, events),
            Command::AssignParent { parent: other },
            Err(DomainError::ParentAlreadyAssigned),
        ),
{
    law_handle_then_apply(state, Command::AssignParent { parent }, events);
}

/// What a role answers to each command: on no role, every command but a
/// create is refused as not found; on an existing role, a create is refused
/// as already existing; a create or a rename is accepted exactly when the
/// name is non-empty; a grant exactly when it names some permission and none
/// the role holds; a revoke exactly when it names some permission and only
/// ones the role holds; a parent is assigned exactly when the role has none
/// and the parent is another role; removed exactly when there is one; a new
/// description is always accepted.
pub proof fn law_role_answers(state: Option<RoleView>, command: Command, r: Result<Seq<Event>, DomainError>)
    requires
        Role::handle_spec(state, command, r),
    ensures
        state is None && !(command is Create) ==> r == Err::<Seq<Event>, DomainError>(DomainError::NotFound),
        state is Some && command is Create ==> r == Err::<Seq<Event>, DomainError>(DomainError::AlreadyExists),
        state is None ==> (command matches Command::Create { name, .. } ==> {
            &&& r is Ok <==> name@.len() > 0
            &&& name@.len() == 0 ==> r == Err::<Seq<Event>, DomainError>(DomainError::EmptyField(Field::Name))
        }),
        state matches Some(s) ==> {
            &&& command matches Command::UpdateName { name } ==> {
                &&& r is Ok <==> name@.len() > 0
                &&& name@.len() == 0 ==> r == Err::<Seq<Event>, DomainError>(DomainError::EmptyField(Field::Name))
            }
            &&& command is UpdateDescription ==> r is Ok
            &&& command matches Command::GrantPermissions { permissions } ==> {
                &&& r is Ok <==> ((exists|y: Seq<char>| permissions@.contains(y)) && forall|c: Seq<char>|
                    permissions@.contains(c) ==> !s.permissions.contains(c))
                &&& !(exists|y: Seq<char>| permissions@.contains(y)) ==> r == Err::<Seq<Event>, DomainError>(DomainError::EmptySelection(Field::Permissions))
            }
            &&& command matches Command::RevokePermissions { permissions } ==> {
                &&& r is Ok <==> ((exists|y: Seq<char>| permissions@.contains(y)) && forall|c: Seq<char>|
                    permissions@.contains(c) ==> s.permissions.contains(c))
                &&& !(exists|y: Seq<char>| permissions@.contains(y)) ==> r == Err::<Seq<Event>, DomainError>(DomainError::EmptySelection(Field::Permissions))
            }
            &&& command matches Command::AssignParent { parent } ==> {
                &&& r is Ok <==> (s.parent is None && parent != s.id)
                &&& s.parent is Some ==> r == Err::<Seq<Event>, DomainError>(DomainError::ParentAlreadyAssigned)
                &&& s.parent is None && parent == s.id ==> r == Err::<Seq<Event>, DomainError>(DomainError::SelfParent)
            }
            &&& command is RemoveParent ==> {
                &&& r is Ok <==> s.parent is Some
                &&& s.parent is None ==> r == Err::<Seq<Event>, DomainError>(DomainError::NoParent)
            }
        },
{
    if let Some(s) = state {
        match command {
            Command::GrantPermissions { permissions } => {
                if !(exists|y: Seq<char>| permissions@.contains(y)) {
                    assert(permissions@ =~= Set::<Seq<char>>::empty());
                }
            },
            Command::RevokePermissions { permissions } => {
                if !(exists|y: Seq<char>| permissions@.contains(y)) {
                    assert(permissions@ =~= Set::<Seq<char>>::empty());
                }
            },
            _ => {},
        }
    }
}

/// What an accepted command makes of a role: a create makes a role with the
/// name and description given, no permissions and no parent; every other
/// command keeps the identifier and changes only the field it names: a
/// rename the name, a new description the description, a grant adds exactly
/// the permissions named, a revoke takes exactly them away, an assignment
/// sets the parent, a removal clears it.
pub proof fn law_role_effects(state: Option<RoleView>, command: Command, events: Seq<Event>)
    requires
        Role::handle_spec(state, command, Ok(events)),
    ensures
        fold_events::<Role>(state, events) is Some,
        command matches Command::Create { id, name, description } ==> fold_events::<Role>(
            state,
            events,
        ) == Some(
            RoleView {
                id,
                name: name@,
                description: opt_text(description),
                permissions: Set::empty(),
                parent: None,
            },
        ),
        state matches Some(s) ==> (fold_events::<Role>(state, events) matches Some(t) && {
            &&& t.id == s.id
            &&& t.name == (match command {
                Command::UpdateName { name } => name@,
                _ => s.name,
            })
            &&& t.description == (match command {
                Command::UpdateDescription { description } => opt_text(description),
                _ => s.description,
            })
            &&& forall|c: Seq<char>|
                #[trigger] t.permissions.contains(c) <==> (match command {
                    Command::GrantPermissions { permissions } => s.permissions.contains(c)
                        || permissions@.contains(c),
                    Command::RevokePermissions { permissions } => s.permissions.contains(c)
                        && !permissions@.contains(c),
                    _ => s.permissions.contains(c),
                })
            &&& t.parent == (match command {
                Command::AssignParent { parent } => Some(parent),
                Command::RemoveParent => None,
                _ => s.parent,
            })
        }),
{
    law_handle_then_apply(state, command, events);
}

} // verus!
