use vstd::prelude::*;

use crate::aggregate::{
    fold_events, opt_text, refuses, refuses_missing_ids, refuses_present_ids, yields, Aggregate,
    DomainError, Field, Items,
};
use crate::sets::IdSet;

verus! {

/// Keys under which a user is unique.
#[derive(Debug)]
pub enum UniqueKey {
    Id(u128),
    Email(String),
}

/// Keys under which users are searched.
#[derive(Debug)]
pub enum SearchKey {
    Id(u128),
    Email(String),
}

/// A user account: its login e-mail, its password hash in PHC format, and the
/// roles it holds.
#[derive(Debug)]
pub struct User {
    pub id: u128,
    pub username: String,
    pub email: Option<String>,
    pub phc: Option<String>,
    pub roles: IdSet,
}

/// The value of a user.
pub struct UserView {
    pub id: u128,
    pub username: Seq<char>,
    pub email: Option<Seq<char>>,
    pub phc: Option<Seq<char>>,
    pub roles: Set<u128>,
}

impl View for User {
    type V = UserView;

    open spec fn view(&self) -> UserView {
        UserView {
            id: self.id,
            username: self.username@,
            email: opt_text(self.email),
            phc: opt_text(self.phc),
            roles: self.roles@,
        }
    }
}

/// What happened to a user.
#[derive(Debug, Clone)]
#[allow(inconsistent_fields)]
pub enum Event {
    Created { id: u128, username: String, email: Option<String>, phc: Option<String> },
    EmailUpdated { email: Option<String> },
    PhcUpdated { phc: Option<String> },
    RolesAssigned { roles: Vec<u128> },
    RolesRevoked { roles: Vec<u128> },
    Deleted,
}

/// What may be asked of a user.
#[derive(Debug)]
#[allow(inconsistent_fields)]
pub enum Command {
    CreateByEmail { id: u128, username: String, email: String, phc: String },
    UpdateEmail { email: Option<String> },
    UpdatePhc { phc: Option<String> },
    AssignRoles { roles: IdSet },
    RevokeRoles { roles: IdSet },
    UserDelete { id: u128 },
}

/// An optional text that is present and empty.
pub open spec fn present_but_empty(o: Option<String>) -> bool {
    o matches Some(s) && s@.len() == 0
}

/// `events` is the single event that assigns exactly the roles `ids`, each
/// once.
pub open spec fn assigned_once(events: Seq<Event>, ids: Set<u128>) -> bool {
    &&& events.len() == 1
    &&& events[0] matches Event::RolesAssigned { roles }
    &&& roles@.to_set() == ids
    &&& roles@.no_duplicates()
}

/// `events` is the single event that revokes exactly the roles `ids`, each
/// once.
pub open spec fn revoked_once(events: Seq<Event>, ids: Set<u128>) -> bool {
    &&& events.len() == 1
    &&& events[0] matches Event::RolesRevoked { roles }
    &&& roles@.to_set() == ids
    &&& roles@.no_duplicates()
}

/// The state that handling `command` in `state` is meant to lead to.
pub open spec fn command_effect(state: Option<UserView>, command: Command) -> Option<UserView> {
    match command {
        Command::CreateByEmail { id, username, email, phc } => Some(
            UserView {
                id,
                username: username@,
                email: Some(email@),
                phc: Some(phc@),
                roles: Set::empty(),
            },
        ),
        Command::UpdateEmail { email } => Some(UserView { email: opt_text(email), ..state.unwrap() }),
        Command::UpdatePhc { phc } => Some(UserView { phc: opt_text(phc), ..state.unwrap() }),
        Command::AssignRoles { roles } => Some(
            UserView { roles: state.unwrap().roles.union(roles@), ..state.unwrap() },
        ),
        Command::RevokeRoles { roles } => Some(
            UserView { roles: state.unwrap().roles.difference(roles@), ..state.unwrap() },
        ),
        Command::UserDelete { id } => None,
    }
}

impl Clone for User {
    fn clone(&self) -> (r: Self)
        ensures
            r@ == self@,
    {
        User {
            id: self.id,
            username: self.username.clone(),
            email: self.email.clone(),
            phc: self.phc.clone(),
            roles: self.roles.clone(),
        }
    }
}

impl Aggregate for User {
    type Event = Event;
    type Command = Command;
    type UniqueKey = UniqueKey;
    type SearchKey = SearchKey;

    open spec fn id_of(v: UserView) -> u128 {
        v.id
    }

    open spec fn apply_spec(state: Option<UserView>, event: Event) -> Option<UserView> {
        match event {
            Event::Created { id, username, email, phc } => Some(
                UserView {
                    id,
                    username: username@,
                    email: opt_text(email),
                    phc: opt_text(phc),
                    roles: Set::empty(),
                },
            ),
            Event::EmailUpdated { email } => match state {
                Some(s) => Some(UserView { email: opt_text(email), ..s }),
                None => None,
            },
            Event::PhcUpdated { phc } => match state {
                Some(s) => Some(UserView { phc: opt_text(phc), ..s }),
                None => None,
            },
            Event::RolesAssigned { roles } => match state {
                Some(s) => Some(UserView { roles: s.roles.union(roles@.to_set()), ..s }),
                None => None,
            },
            Event::RolesRevoked { roles } => match state {
                Some(s) => Some(UserView { roles: s.roles.difference(roles@.to_set()), ..s }),
                None => None,
            },
            Event::Deleted => None,
        }
    }

    open spec fn handle_spec(
        state: Option<UserView>,
        command: Command,
        result: Result<Seq<Event>, DomainError>,
    ) -> bool {
        match command {
            Command::CreateByEmail { id, username, email, phc } => if state is Some {
                refuses(result, DomainError::AlreadyExists)
            } else if username@.len() == 0 {
                refuses(result, DomainError::EmptyField(Field::Username))
            } else if email@.len() == 0 {
                refuses(result, DomainError::EmptyField(Field::Email))
            } else if phc@.len() == 0 {
                refuses(result, DomainError::EmptyField(Field::Phc))
            } else {
                yields(
                    result,
                    seq![Event::Created { id, username, email: Some(email), phc: Some(phc) }],
                )
            },
            Command::UpdateEmail { email } => if state is None {
                refuses(result, DomainError::NotFound)
            } else if present_but_empty(email) {
                refuses(result, DomainError::EmptyField(Field::Email))
            } else {
                yields(result, seq![Event::EmailUpdated { email }])
            },
            Command::UpdatePhc { phc } => if state is None {
                refuses(result, DomainError::NotFound)
            } else if present_but_empty(phc) {
                refuses(result, DomainError::EmptyField(Field::Phc))
            } else {
                yields(result, seq![Event::PhcUpdated { phc }])
            },
            Command::AssignRoles { roles } => if state is None {
                refuses(result, DomainError::NotFound)
            } else if roles@.is_empty() {
                refuses(result, DomainError::EmptySelection(Field::Roles))
            } else if !roles@.disjoint(state.unwrap().roles) {
                refuses_present_ids(result, Field::Roles, roles@.intersect(state.unwrap().roles))
            } else {
                result matches Ok(events) && assigned_once(events, roles@)
            },
            Command::RevokeRoles { roles } => if state is None {
                refuses(result, DomainError::NotFound)
            } else if roles@.is_empty() {
                refuses(result, DomainError::EmptySelection(Field::Roles))
            } else if !roles@.subset_of(state.unwrap().roles) {
                refuses_missing_ids(result, Field::Roles, roles@.difference(state.unwrap().roles))
            } else {
                result matches Ok(events) && revoked_once(events, roles@)
            },
            Command::UserDelete { id } => if state is None {
                refuses(result, DomainError::NotFound)
            } else if state.unwrap().id != id {
                refuses(result, DomainError::UserMismatch)
            } else {
                yields(result, seq![Event::Deleted])
            },
        }
    }

    proof fn lemma_clone_keeps_value(a: Self, b: Self) {
    }

    fn aggregate_id(&self) -> (r: u128) {
        self.id
    }

    fn apply(state: Option<Self>, event: &Event) -> (r: Option<Self>) {
        match event {
            Event::Created { id, username, email, phc } => Some(
                User {
                    id: *id,
                    username: username.clone(),
                    email: email.clone(),
                    phc: phc.clone(),
                    roles: IdSet::new(),
                },
            ),
            Event::PhcUpdated { phc } => match state {
                Some(mut s) => {
                    s.phc = phc.clone();
                    Some(s)
                },
                None => None,
            },
            Event::EmailUpdated { email } => match state {
                Some(mut s) => {
                    s.email = email.clone();
                    Some(s)
                },
                None => None,
            },
            Event::Deleted => None,
            Event::RolesAssigned { roles } => match state {
                Some(mut s) => {
                    s.roles.extend(roles);
                    Some(s)
                },
                None => None,
            },
            Event::RolesRevoked { roles } => match state {
                Some(mut s) => {
                    s.roles.retain_absent_from(roles);
                    Some(s)
                },
                None => None,
            },
        }
    }

    fn handle(state: Option<&Self>, command: Command) -> (r: Result<Vec<Event>, DomainError>) {
        match command {
            Command::CreateByEmail { id, username, email, phc } => {
                if state.is_some() {
                    return Err(DomainError::AlreadyExists);
                }
                if username.as_str().is_empty() {
                    return Err(DomainError::EmptyField(Field::Username));
                }
                if email.as_str().is_empty() {
                    return Err(DomainError::EmptyField(Field::Email));
                }
                if phc.as_str().is_empty() {
                    return Err(DomainError::EmptyField(Field::Phc));
                }
                Ok(vec![Event::Created { id, username, email: Some(email), phc: Some(phc) }])
            },
            Command::UpdateEmail { email } => {
                if state.is_none() {
                    return Err(DomainError::NotFound);
                }
                let empty = match &email {
                    Some(s) => s.as_str().is_empty(),
                    None => false,
                };
                if empty {
                    return Err(DomainError::EmptyField(Field::Email));
                }
                Ok(vec![Event::EmailUpdated { email }])
            },
            Command::UpdatePhc { phc } => {
                if state.is_none() {
                    return Err(DomainError::NotFound);
                }
                let empty = match &phc {
                    Some(s) => s.as_str().is_empty(),
                    None => false,
                };
                if empty {
                    return Err(DomainError::EmptyField(Field::Phc));
                }
                Ok(vec![Event::PhcUpdated { phc }])
            },
            Command::AssignRoles { roles } => {
                let s = match state {
                    Some(s) => s,
                    None => return Err(DomainError::NotFound),
                };
                if roles.is_empty() {
                    return Err(DomainError::EmptySelection(Field::Roles));
                }
                let duplicates = roles.common_with(&s.roles);
                if !duplicates.is_empty() {
                    assert(exists|x: u128| duplicates@.contains(x)) by {
                        if !(exists|x: u128| duplicates@.contains(x)) {
                            assert(duplicates@ =~= Set::<u128>::empty());
                        }
                    }
                    return Err(DomainError::AlreadyPresent(Field::Roles, Items::Ids(duplicates)));
                }
                assert(roles@.disjoint(s.roles@)) by {
                    assert forall|x: u128| roles@.contains(x) implies !s.roles@.contains(x) by {
                        assert(!duplicates@.contains(x));
                    }
                }
                let listed = roles.to_vec();
                let events = vec![Event::RolesAssigned { roles: listed }];
                assert(assigned_once(events@, roles@));
                Ok(events)
            },
            Command::RevokeRoles { roles } => {
                let s = match state {
                    Some(s) => s,
                    None => return Err(DomainError::NotFound),
                };
                if roles.is_empty() {
                    return Err(DomainError::EmptySelection(Field::Roles));
                }
                let not_exist = roles.absent_from(&s.roles);
                if !not_exist.is_empty() {
                    assert(exists|x: u128| not_exist@.contains(x)) by {
                        if !(exists|x: u128| not_exist@.contains(x)) {
                            assert(not_exist@ =~= Set::<u128>::empty());
                        }
                    }
                    return Err(DomainError::Missing(Field::Roles, Items::Ids(not_exist)));
                }
                assert(roles@.subset_of(s.roles@)) by {
                    assert forall|x: u128| roles@.contains(x) implies s.roles@.contains(x) by {
                        assert(!not_exist@.contains(x));
                    }
                }
                let listed = roles.to_vec();
                let events = vec![Event::RolesRevoked { roles: listed }];
                assert(revoked_once(events@, roles@));
                Ok(events)
            },
            Command::UserDelete { id } => {
                let s = match state {
                    Some(s) => s,
                    None => return Err(DomainError::NotFound),
                };
                if s.id != id {
                    return Err(DomainError::UserMismatch);
                }
                Ok(vec![Event::Deleted])
            },
        }
    }
}

/// Handling a command and then applying the events it gave leads to the
/// state that the command asks for.
pub proof fn law_handle_then_apply(state: Option<UserView>, command: Command, events: Seq<Event>)
    requires
        User::handle_spec(state, command, Ok(events)),
    ensures
        fold_events::<User>(state, events) == command_effect(state, command),
{
    reveal_with_fuel(fold_events, 2);
    assert(events.drop_last() =~= Seq::<Event>::empty());
}

/// An accepted command never leaves a user with an e-mail or a password hash
/// that is present but empty, when there was none before.
pub proof fn law_no_empty_credentials(state: Option<UserView>, command: Command, events: Seq<Event>)
    requires
        User::handle_spec(state, command, Ok(events)),
        state matches Some(s) ==> (s.email != Some(Seq::<char>::empty()) && s.phc != Some(
            Seq::<char>::empty(),
        )),
    ensures
        fold_events::<User>(state, events) matches Some(t) ==> (t.email != Some(
            Seq::<char>::empty(),
        ) && t.phc != Some(Seq::<char>::empty())),
{
    law_handle_then_apply(state, command, events);
    match command {
        Command::CreateByEmail { id, username, email, phc } => {
            assert(email@.len() != 0);
            assert(phc@.len() != 0);
        },
        Command::UpdateEmail { email } => {
            if let Some(e) = email {
                assert(e@.len() != 0);
            }
        },
        Command::UpdatePhc { phc } => {
            if let Some(p) = phc {
                assert(p@.len() != 0);
            }
        },
        _ => {},
    }
}

/// Assigning the same roles twice: the second assignment is refused, as every
/// one of them is already held.
pub proof fn law_assign_twice_refused(
    state: Option<UserView>,
    roles: IdSet,
    events: Seq<Event>,
    again: IdSet,
)
    requires
        User::handle_spec(state, Command::AssignRoles { roles }, Ok(events)),
        again@ == roles@,
    ensures
        forall|r: Result<Seq<Event>, DomainError>|
            User::handle_spec(fold_events::<User>(state, events), Command::AssignRoles { roles: again }, r)
                <==> refuses_present_ids(r, Field::Roles, roles@),
{
    law_handle_then_apply(state, Command::AssignRoles { roles }, events);
    let x = roles@.choose();
    assert(roles@.contains(x));
    assert(fold_events::<User>(state, events).unwrap().roles.contains(x));
    assert(roles@.intersect(fold_events::<User>(state, events).unwrap().roles) =~= roles@);
}

/// Revoking the same roles twice: the second revoke is refused, as none of
/// them is held any more.
pub proof fn law_revoke_twice_refused(
    state: Option<UserView>,
    roles: IdSet,
    events: Seq<Event>,
    again: IdSet,
)
    requires
        User::handle_spec(state, Command::RevokeRoles { roles }, Ok(events)),
        again@ == roles@,
    ensures
        forall|r: Result<Seq<Event>, DomainError>|
            User::handle_spec(fold_events::<User>(state, events), Command::RevokeRoles { roles: again }, r)
                <==> refuses_missing_ids(r, Field::Roles, roles@),
{
    law_handle_then_apply(state, Command::RevokeRoles { roles }, events);
    let x = roles@.choose();
    assert(roles@.contains(x));
    assert(!fold_events::<User>(state, events).unwrap().roles.contains(x));
    assert(roles@.difference(fold_events::<User>(state, events).unwrap().roles) =~= roles@);
}

/// What a user answers to each command: on no user, every command but a
/// create is refused as not found; on an existing user, a create is refused
/// as already existing; a create is accepted exactly when the username, the
/// e-mail and the password hash are all non-empty (checked in that order); a
/// new e-mail or password hash exactly when it is absent or non-empty; a role
/// assignment exactly when it names some role and none the user holds; a
/// revoke exactly when it names some role and only ones the user holds; a
/// delete exactly when it names this user.
pub proof fn law_user_answers(state: Option<UserView>, command: Command, r: Result<Seq<Event>, DomainError>)
    requires
        User::handle_spec(state, command, r),
    ensures
        state is None && !(command is CreateByEmail) ==> r == Err::<Seq<Event>, DomainError>(DomainError::NotFound),
        state is Some && command is CreateByEmail ==> r == Err::<Seq<Event>, DomainError>(DomainError::AlreadyExists),
        state is None ==> (command matches Command::CreateByEmail { username, email, phc, .. } ==> {
            &&& r is Ok <==> (username@.len() > 0 && email@.len() > 0 && phc@.len() > 0)
            &&& username@.len() == 0 ==> r == Err::<Seq<Event>, DomainError>(DomainError::EmptyField(Field::Username))
            &&& username@.len() > 0 && email@.len() == 0 ==> r == Err::<Seq<Event>, DomainError>(
                DomainError::EmptyField(Field::Email),
            )
            &&& username@.len() > 0 && email@.len() > 0 && phc@.len() == 0 ==> r == Err::<Seq<Event>, DomainError>(
                DomainError::EmptyField(Field::Phc),
            )
        }),
        state matches Some(s) ==> {
            &&& command matches Command::UpdateEmail { email } ==> {
                &&& r is Ok <==> (email is None || email.unwrap()@.len() > 0)
                &&& !(r is Ok) ==> r == Err::<Seq<Event>, DomainError>(DomainError::EmptyField(Field::Email))
            }
            &&& command matches Command::UpdatePhc { phc } ==> {
                &&& r is Ok <==> (phc is None || phc.unwrap()@.len() > 0)
                &&& !(r is Ok) ==> r == Err::<Seq<Event>, DomainError>(DomainError::EmptyField(Field::Phc))
            }
            &&& command matches Command::AssignRoles { roles } ==> {
                &&& r is Ok <==> ((exists|y: u128| roles@.contains(y)) && forall|x: u128|
                    roles@.contains(x) ==> !s.roles.contains(x))
                &&& !(exists|y: u128| roles@.contains(y)) ==> r == Err::<Seq<Event>, DomainError>(DomainError::EmptySelection(Field::Roles))
            }
            &&& command matches Command::RevokeRoles { roles } ==> {
                &&& r is Ok <==> ((exists|y: u128| roles@.contains(y)) && forall|x: u128|
                    roles@.contains(x) ==> s.roles.contains(x))
                &&& !(exists|y: u128| roles@.contains(y)) ==> r == Err::<Seq<Event>, DomainError>(DomainError::EmptySelection(Field::Roles))
            }
            &&& command matches Command::UserDelete { id } ==> {
                &&& r is Ok <==> id == s.id
                &&& id != s.id ==> r == Err::<Seq<Event>, DomainError>(DomainError::UserMismatch)
            }
        },
{
    if let Some(s) = state {
        match command {
            Command::AssignRoles { roles } => {
                if !(exists|y: u128| roles@.contains(y)) {
                    assert(roles@ =~= Set::<u128>::empty());
                }
            },
            Command::RevokeRoles { roles } => {
                if !(exists|y: u128| roles@.contains(y)) {
                    assert(roles@ =~= Set::<u128>::empty());
                }
            },
            _ => {},
        }
    }
}

/// What an accepted command makes of a user: a create makes a user with the
/// username, e-mail and password hash given and no roles; a delete removes
/// the user; every other command keeps the identifier and the username and
/// changes only the field it names: the e-mail, the password hash, or the
/// roles, to which an assignment adds exactly the roles named and from which
/// a revoke takes exactly them away.
pub proof fn law_user_effects(state: Option<UserView>, command: Command, events: Seq<Event>)
    requires
        User::handle_spec(state, command, Ok(events)),
    ensures
        command is UserDelete <==> fold_events::<User>(state, events) is None,
        command matches Command::CreateByEmail { id, username, email, phc } ==> fold_events::<User>(
            state,
            events,
        ) == Some(
            UserView {
                id,
                username: username@,
                email: Some(email@),
                phc: Some(phc@),
                roles: Set::empty(),
            },
        ),
        state matches Some(s) ==> (!(command is UserDelete) ==> (fold_events::<User>(state, events) matches Some(t)
            && {
            &&& t.id == s.id
            &&& t.username == s.username
            &&& t.email == (match command {
                Command::UpdateEmail { email } => opt_text(email),
                _ => s.email,
            })
            &&& t.phc == (match command {
                Command::UpdatePhc { phc } => opt_text(phc),
                _ => s.phc,
            })
            &&& forall|x: u128|
                #[trigger] t.roles.contains(x) <==> (match command {
                    Command::AssignRoles { roles } => s.roles.contains(x) || roles@.contains(x),
                    Command::RevokeRoles { roles } => s.roles.contains(x) && !roles@.contains(x),
                    _ => s.roles.contains(x),
                })
        })),
{
    law_handle_then_apply(state, command, events);
}

} // verus!
