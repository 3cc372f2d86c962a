use vstd::prelude::*;

use crate::aggregate::{fold_events, opt_text, refuses, yields, Aggregate, DomainError};
use crate::permission_code::PermissionCode;

verus! {

/// Keys under which a permission is unique.
#[derive(Debug)]
pub enum UniqueKey {
    Id(u128),
    Code(PermissionCode),
}

/// Keys under which permissions are searched.
#[derive(Debug)]
pub enum SearchKey {
    Id(u128),
    Code(PermissionCode),
}

/// A permission that roles can grant.
#[derive(Debug)]
pub struct Permission {
    pub id: u128,
    pub code: PermissionCode,
    pub description: Option<String>,
}

/// The value of a permission.
pub struct PermissionView {
    pub id: u128,
    pub code: Seq<char>,
    pub description: Option<Seq<char>>,
}

impl View for Permission {
    type V = PermissionView;

    open spec fn view(&self) -> PermissionView {
        PermissionView { id: self.id, code: self.code@, description: opt_text(self.description) }
    }
}

/// What happened to a permission.
#[derive(Debug, Clone)]
#[allow(inconsistent_fields)]
pub enum Event {
    Created { id: u128, code: PermissionCode, description: Option<String> },
    CodeUpdated { code: PermissionCode },
    DescriptionUpdated { description: Option<String> },
    Deleted,
}

/// What may be asked of a permission.
#[derive(Debug)]
#[allow(inconsistent_fields)]
pub enum Command {
    Create { id: u128, code: PermissionCode, description: Option<String> },
    UpdateCode { code: PermissionCode },
    UpdateDescription { description: Option<String> },
}

/// The state that handling `command` in `state` is meant to lead to.
pub open spec fn command_effect(state: Option<PermissionView>, command: Command) -> Option<
    PermissionView,
> {
    match command {
        Command::Create { id, code, description } => Some(
            PermissionView { id, code: code@, description: opt_text(description) },
        ),
        Command::UpdateCode { code } => Some(PermissionView { code: code@, ..state.unwrap() }),
        Command::UpdateDescription { description } => Some(
            PermissionView { description: opt_text(description), ..state.unwrap() },
        ),
    }
}

impl Clone for Permission {
    fn clone(&self) -> (r: Self)
        ensures
            r@ == self@,
    {
        Permission { id: self.id, code: self.code.clone(), description: self.description.clone() }
    }
}

impl Aggregate for Permission {
    type Event = Event;
    type Command = Command;
    type UniqueKey = UniqueKey;
    type SearchKey = SearchKey;

    open spec fn id_of(v: PermissionView) -> u128 {
        v.id
    }

    open spec fn apply_spec(state: Option<PermissionView>, event: Event) -> Option<PermissionView> {
        match event {
            Event::Created { id, code, description } => Some(
                PermissionView { id, code: code@, description: opt_text(description) },
            ),
            Event::CodeUpdated { code } => match state {
                Some(s) => Some(PermissionView { code: code@, ..s }),
                None => None,
            },
            Event::DescriptionUpdated { description } => match state {
                Some(s) => Some(PermissionView { description: opt_text(description), ..s }),
                None => None,
            },
            Event::Deleted => None,
        }
    }

    open spec fn handle_spec(
        state: Option<PermissionView>,
        command: Command,
        result: Result<Seq<Event>, DomainError>,
    ) -> bool {
        match command {
            Command::Create { id, code, description } => if state is Some {
                refuses(result, DomainError::AlreadyExists)
            } else {
                yields(result, seq![Event::Created { id, code, description }])
            },
            Command::UpdateCode { code } => if state is None {
                refuses(result, DomainError::NotFound)
            } else {
                yields(result, seq![Event::CodeUpdated { code }])
            },
            Command::UpdateDescription { description } => if state is None {
                refuses(result, DomainError::NotFound)
            } else {
                yields(result, seq![Event::DescriptionUpdated { description }])
            },
        }
    }

    proof fn lemma_clone_keeps_value(a: Self, b: Self) {
    }

    fn aggregate_id(&self) -> (r: u128) {
        self.id
    }

    fn apply(state: Option<Self>, event: &Event) -> (r: Option<Self>) {
        match event {
            Event::Created { id, code, description } => Some(
                Permission { id: *id, code: code.clone(), description: description.clone() },
            ),
            Event::CodeUpdated { code } => match state {
                Some(mut s) => {
                    s.code = code.clone();
                    Some(s)
                },
                None => None,
            },
            Event::DescriptionUpdated { description } => match state {
                Some(mut s) => {
                    s.description = description.clone();
                    Some(s)
                },
                None => None,
            },
            Event::Deleted => None,
        }
    }

    fn handle(state: Option<&Self>, command: Command) -> (r: Result<Vec<Event>, DomainError>) {
        match command {
            Command::Create { id, code, description } => {
                if state.is_some() {
                    return Err(DomainError::AlreadyExists);
                }
                Ok(vec![Event::Created { id, code, description }])
            },
            Command::UpdateCode { code } => {
                if state.is_none() {
                    return Err(DomainError::NotFound);
                }
                Ok(vec![Event::CodeUpdated { code }])
            },
            Command::UpdateDescription { description } => {
                if state.is_none() {
                    return Err(DomainError::NotFound);
                }
                Ok(vec![Event::DescriptionUpdated { description }])
            },
        }
    }
}

/// Handling a command and then applying the events it gave leads to the
/// state that the command asks for.
pub proof fn law_handle_then_apply(
    state: Option<PermissionView>,
    command: Command,
    events: Seq<Event>,
)
    requires
        Permission::handle_spec(state, command, Ok(events)),
    ensures
        fold_events::<Permission>(state, events) == command_effect(state, command),
{
    reveal_with_fuel(fold_events, 2);
    assert(events.drop_last() =~= Seq::<Event>::empty());
}

/// What a permission answers to each command: on no permission, an update is
/// refused as not found; on an existing one, a create is refused as already
/// existing; every other command is accepted.
pub proof fn law_permission_answers(
    state: Option<PermissionView>,
    command: Command,
    r: Result<Seq<Event>, DomainError>,
)
    requires
        Permission::handle_spec(state, command, r),
    ensures
        state is None && !(command is Create) ==> r == Err::<Seq<Event>, DomainError>(
            DomainError::NotFound,
        ),
        state is Some && command is Create ==> r == Err::<Seq<Event>, DomainError>(
            DomainError::AlreadyExists,
        ),
        state is None && command is Create ==> r is Ok,
        state is Some && !(command is Create) ==> r is Ok,
{
}

/// What an accepted command makes of a permission: a create makes one with
/// the values given; an update sets the one field it names and keeps the
/// others, the identifier included. No command removes a permission.
pub proof fn law_permission_effects(state: Option<PermissionView>, command: Command, events: Seq<Event>)
    requires
        Permission::handle_spec(state, command, Ok(events)),
    ensures
        fold_events::<Permission>(state, events) is Some,
        command matches Command::Create { id, code, description } ==> fold_events::<Permission>(
            state,
            events,
        ) == Some(PermissionView { id, code: code@, description: opt_text(description) }),
        state matches Some(s) ==> (command matches Command::UpdateCode { code }
            ==> fold_events::<Permission>(state, events) matches Some(t) && t.code == code@ && t.id
            == s.id && t.description == s.description),
        state matches Some(s) ==> (command matches Command::UpdateDescription { description }
            ==> fold_events::<Permission>(state, events) matches Some(t) && t.description
            == opt_text(description) && t.id == s.id && t.code == s.code),
{
    law_handle_then_apply(state, command, events);
}

} // verus!
