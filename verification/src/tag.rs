use vstd::prelude::*;

use crate::aggregate::{fold_events, opt_text, refuses, yields, Aggregate, DomainError, Field};

verus! {

/// Keys under which a tag is unique.
#[derive(Debug)]
pub enum UniqueKey {
    Id(u128),
    Name(String),
}

/// Keys under which tags are searched.
#[derive(Debug)]
pub enum SearchKey {
    Id(u128),
    Name(String),
}

/// A tag that posts can carry.
#[derive(Debug)]
pub struct Tag {
    pub id: u128,
    pub name: String,
    pub hero: Option<String>,
    pub description: String,
}

/// The value of a tag.
pub struct TagView {
    pub id: u128,
    pub name: Seq<char>,
    pub hero: Option<Seq<char>>,
    pub description: Seq<char>,
}

impl View for Tag {
    type V = TagView;

    open spec fn view(&self) -> TagView {
        TagView {
            id: self.id,
            name: self.name@,
            hero: opt_text(self.hero),
            description: self.description@,
        }
    }
}

/// What happened to a tag.
#[derive(Debug, Clone)]
#[allow(inconsistent_fields)]
pub enum Event {
    Created { id: u128, name: String, hero: Option<String>, description: String },
    NameUpdated { name: String },
    HeroUpdated { hero: Option<String> },
    DescriptionUpdated { description: String },
    Deleted,
}

/// What may be asked of a tag.
#[derive(Debug)]
#[allow(inconsistent_fields)]
pub enum Command {
    Create { id: u128, name: String, hero: Option<String>, description: String },
    UpdateName { name: String },
    UpdateHero { hero: Option<String> },
    UpdateDescription { description: String },
    Delete,
}

/// The state that handling `command` in `state` is meant to lead to.
pub open spec fn command_effect(state: Option<TagView>, command: Command) -> Option<TagView> {
    match command {
        Command::Create { id, name, hero, description } => Some(
            TagView { id, name: name@, hero: opt_text(hero), description: description@ },
        ),
        Command::UpdateName { name } => Some(TagView { name: name@, ..state.unwrap() }),
        Command::UpdateHero { hero } => Some(TagView { hero: opt_text(hero), ..state.unwrap() }),
        Command::UpdateDescription { description } => Some(
            TagView { description: description@, ..state.unwrap() },
        ),
        Command::Delete => None,
    }
}

impl Clone for Tag {
    fn clone(&self) -> (r: Self)
        ensures
            r@ == self@,
    {
        Tag { id: self.id, name: self.name.clone(), hero: self.hero.clone(), description: self.description.clone() }
    }
}

impl Aggregate for Tag {
    type Event = Event;
    type Command = Command;
    type UniqueKey = UniqueKey;
    type SearchKey = SearchKey;

    open spec fn id_of(v: TagView) -> u128 {
        v.id
    }

    open spec fn apply_spec(state: Option<TagView>, event: Event) -> Option<TagView> {
        match event {
            Event::Created { id, name, hero, description } => Some(
                TagView { id, name: name@, hero: opt_text(hero), description: description@ },
            ),
            Event::NameUpdated { name } => match state {
                Some(s) => Some(TagView { name: name@, ..s }),
                None => None,
            },
            Event::HeroUpdated { hero } => match state {
                Some(s) => Some(TagView { hero: opt_text(hero), ..s }),
                None => None,
            },
            Event::DescriptionUpdated { description } => match state {
                Some(s) => Some(TagView { description: description@, ..s }),
                None => None,
            },
            Event::Deleted => None,
        }
    }

    open spec fn handle_spec(
        state: Option<TagView>,
        command: Command,
        result: Result<Seq<Event>, DomainError>,
    ) -> bool {
        match command {
            Command::Create { id, name, hero, description } => if state is Some {
                refuses(result, DomainError::AlreadyExists)
            } else if name@.len() == 0 {
                refuses(result, DomainError::EmptyField(Field::Name))
            } else {
                yields(result, seq![Event::Created { id, name, hero, description }])
            },
            Command::UpdateName { name } => if state is None {
                refuses(result, DomainError::NotFound)
            } else if name@.len() == 0 {
                refuses(result, DomainError::EmptyField(Field::Name))
            } else {
                yields(result, seq![Event::NameUpdated { name }])
            },
            Command::UpdateHero { hero } => if state is None {
                refuses(result, DomainError::NotFound)
            } else {
                yields(result, seq![Event::HeroUpdated { hero }])
            },
            Command::UpdateDescription { description } => if state is None {
                refuses(result, DomainError::NotFound)
            } else {
                yields(result, seq![Event::DescriptionUpdated { description }])
            },
            Command::Delete => if state is None {
                refuses(result, DomainError::NotFound)
            } else {
                yields(result, seq![Event::Deleted])
            },
        }
    }

    proof fn lemma_clone_keeps_value(a: Self, b: Self) {
    }

    fn aggregate_id(&self) -> (r: u128) {
        self.id
    }

    fn apply(state: Option<Self>, event: &Event) -> (r: Option<Self>) {
        match event {
            Event::Created { id, name, hero, description } => Some(
                Tag {
                    id: *id,
                    name: name.clone(),
                    hero: hero.clone(),
                    description: description.clone(),
                },
            ),
            Event::NameUpdated { name } => match state {
                Some(mut s) => {
                    s.name = name.clone();
                    Some(s)
                },
                None => None,
            },
            Event::HeroUpdated { hero } => match state {
                Some(mut s) => {
                    s.hero = hero.clone();
                    Some(s)
                },
                None => None,
            },
            Event::DescriptionUpdated { description } => match state {
                Some(mut s) => {
                    s.description = description.clone();
                    Some(s)
                },
                None => None,
            },
            Event::Deleted => None,
        }
    }

    fn handle(state: Option<&Self>, command: Command) -> (r: Result<Vec<Event>, DomainError>) {
        match command {
            Command::Create { id, name, hero, description } => {
                if state.is_some() {
                    Err(DomainError::AlreadyExists)
                } else if name.as_str().is_empty() {
                    Err(DomainError::EmptyField(Field::Name))
                } else {
                    Ok(vec![Event::Created { id, name, hero, description }])
                }
            },
            Command::UpdateName { name } => {
                if state.is_none() {
                    return Err(DomainError::NotFound);
                }
                if name.as_str().is_empty() {
                    return Err(DomainError::EmptyField(Field::Name));
                }
                Ok(vec![Event::NameUpdated { name }])
            },
            Command::UpdateHero { hero } => {
                if state.is_none() {
                    return Err(DomainError::NotFound);
                }
                Ok(vec![Event::HeroUpdated { hero }])
            },
            Command::UpdateDescription { description } => {
                if state.is_none() {
                    return Err(DomainError::NotFound);
                }
                Ok(vec![Event::DescriptionUpdated { description }])
            },
            Command::Delete => {
                if state.is_none() {
                    return Err(DomainError::NotFound);
                }
                Ok(vec![Event::Deleted])
            },
        }
    }
}

/// Handling a command and then applying the events it gave leads to the
/// state that the command asks for.
pub proof fn law_handle_then_apply(state: Option<TagView>, command: Command, events: Seq<Event>)
    requires
        Tag::handle_spec(state, command, Ok(events)),
    ensures
        fold_events::<Tag>(state, events) == command_effect(state, command),
{
    reveal_with_fuel(fold_events, 2);
    assert(events.drop_last() =~= Seq::<Event>::empty());
}

/// A tag is created once: creating it again after an accepted create is
/// refused.
pub proof fn law_create_once(
    state: Option<TagView>,
    events: Seq<Event>,
    create: Command,
    again: Command,
)
    requires
        create is Create,
        again is Create,
        Tag::handle_spec(state, create, Ok(events)),
    ensures
        Tag::handle_spec(fold_events::<Tag>(state, events), again, Err(DomainError::AlreadyExists)),
{
    law_handle_then_apply(state, create, events);
}

/// After an accepted delete, every further command but a create is refused
/// as not found.
pub proof fn law_deleted_is_gone(state: Option<TagView>, events: Seq<Event>, next: Command)
    requires
        Tag::handle_spec(state, Command::Delete, Ok(events)),
        !(next is Create),
    ensures
        Tag::handle_spec(fold_events::<Tag>(state, events), next, Err(DomainError::NotFound)),
{
    law_handle_then_apply(state, Command::Delete, events);
}

/// What a tag answers to each command: on no tag, every command but a create
/// is refused as not found; on an existing tag, a create is refused as
/// already existing; a create or a rename is refused exactly when the name is
/// empty; every other command on an existing tag is accepted.
pub proof fn law_tag_answers(state: Option<TagView>, command: Command, r: Result<Seq<Event>, DomainError>)
    requires
        Tag::handle_spec(state, command, r),
    ensures
        state is None && !(command is Create) ==> r == Err::<Seq<Event>, DomainError>(
            DomainError::NotFound,
        ),
        state is Some && command is Create ==> r == Err::<Seq<Event>, DomainError>(
            DomainError::AlreadyExists,
        ),
        state is None ==> (command matches Command::Create { name, .. } ==> (r is Ok <==> name@.len()
            > 0)),
        state is Some ==> (command matches Command::UpdateName { name } ==> (r is Ok <==> name@.len()
            > 0)),
        (command matches Command::Create { name, .. } && name@.len() == 0 && state is None) ==> r
            == Err::<Seq<Event>, DomainError>(DomainError::EmptyField(Field::Name)),
        (command matches Command::UpdateName { name } && name@.len() == 0 && state is Some) ==> r
            == Err::<Seq<Event>, DomainError>(DomainError::EmptyField(Field::Name)),
        state is Some && (command is UpdateHero || command is UpdateDescription || command is Delete)
            ==> r is Ok,
{
}

/// What an accepted command makes of a tag: a create makes a tag with the
/// values given; an update sets the one field it names to the value given
/// and keeps every other field, the identifier included; a delete removes
/// the tag. A tag that exists always has a non-empty name.
pub proof fn law_tag_effects(state: Option<TagView>, command: Command, events: Seq<Event>)
    requires
        Tag::handle_spec(state, command, Ok(events)),
    ensures
        command is Delete <==> fold_events::<Tag>(state, events) is None,
        fold_events::<Tag>(state, events) matches Some(t) ==> t.name.len() > 0 || (state matches Some(
            s,
        ) && s.name.len() == 0 && !(command is UpdateName)),
        command matches Command::Create { id, name, hero, description } ==> fold_events::<Tag>(
            state,
            events,
        ) == Some(TagView { id, name: name@, hero: opt_text(hero), description: description@ }),
        state matches Some(s) ==> (command matches Command::UpdateName { name } ==> fold_events::<Tag>(
            state,
            events,
        ) matches Some(t) && t.name == name@ && t.id == s.id && t.hero == s.hero && t.description
            == s.description),
        state matches Some(s) ==> (command matches Command::UpdateHero { hero } ==> fold_events::<Tag>(
            state,
            events,
        ) matches Some(t) && t.hero == opt_text(hero) && t.id == s.id && t.name == s.name
            && t.description == s.description),
        state matches Some(s) ==> (command matches Command::UpdateDescription { description }
            ==> fold_events::<Tag>(state, events) matches Some(t) && t.description == description@
            && t.id == s.id && t.name == s.name && t.hero == s.hero),
{
    law_handle_then_apply(state, command, events);
}

} // verus!
