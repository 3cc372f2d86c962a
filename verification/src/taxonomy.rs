use vstd::prelude::*;

use crate::aggregate::{fold_events, opt_text, refuses, yields, Aggregate, DomainError, Field};
use crate::taxonomy_path::TaxonomyPath;

verus! {

/// Keys under which a taxonomy is unique.
#[derive(Debug)]
pub enum UniqueKey {
    Id(u128),
    Slug(String),
}

/// Keys under which taxonomies are searched.
#[derive(Debug)]
pub enum SearchKey {
    Id(u128),
    Slug(String),
    Path(TaxonomyPath),
}

/// A node of the taxonomy tree that posts are filed under.
#[derive(Debug)]
pub struct Taxonomy {
    pub id: u128,
    pub name: String,
    pub slug: String,
    pub path: TaxonomyPath,
    pub description: String,
    pub hero: Option<String>,
}

/// The value of a taxonomy.
pub struct TaxonomyView {
    pub id: u128,
    pub name: Seq<char>,
    pub slug: Seq<char>,
    pub path: Seq<char>,
    pub description: Seq<char>,
    pub hero: Option<Seq<char>>,
}

impl View for Taxonomy {
    type V = TaxonomyView;

    open spec fn view(&self) -> TaxonomyView {
        TaxonomyView {
            id: self.id,
            name: self.name@,
            slug: self.slug@,
            path: self.path@,
            description: self.description@,
            hero: opt_text(self.hero),
        }
    }
}

/// What happened to a taxonomy.
#[derive(Debug, Clone)]
#[allow(inconsistent_fields)]
pub enum Event {
    Created {
        id: u128,
        name: String,
        slug: String,
        path: TaxonomyPath,
        description: String,
        hero: Option<String>,
    },
    NameUpdated { name: String },
    SlugUpdated { slug: String },
    PathUpdated { path: TaxonomyPath },
    DescriptionUpdated { description: String },
    HeroUpdated { hero: Option<String> },
    Deleted,
}

/// What may be asked of a taxonomy.
#[derive(Debug)]
#[allow(inconsistent_fields)]
pub enum Command {
    Create {
        id: u128,
        name: String,
        slug: String,
        path: TaxonomyPath,
        description: String,
        hero: Option<String>,
    },
    UpdateName { name: String },
    UpdateSlug { slug: String },
    UpdatePath { path: TaxonomyPath },
    UpdateDescription { description: String },
    UpdateHero { hero: Option<String> },
    Delete,
}

/// The state that handling `command` in `state` is meant to lead to.
pub open spec fn command_effect(state: Option<TaxonomyView>, command: Command) -> Option<
    TaxonomyView,
> {
    match command {
        Command::Create { id, name, slug, path, description, hero } => Some(
            TaxonomyView {
                id,
                name: name@,
                slug: slug@,
                path: path@,
                description: description@,
                hero: opt_text(hero),
            },
        ),
        Command::UpdateName { name } => Some(TaxonomyView { name: name@, ..state.unwrap() }),
        Command::UpdateSlug { slug } => Some(TaxonomyView { slug: slug@, ..state.unwrap() }),
        Command::UpdatePath { path } => Some(TaxonomyView { path: path@, ..state.unwrap() }),
        Command::UpdateDescription { description } => Some(
            TaxonomyView { description: description@, ..state.unwrap() },
        ),
        Command::UpdateHero { hero } => Some(
            TaxonomyView { hero: opt_text(hero), ..state.unwrap() },
        ),
        Command::Delete => None,
    }
}

impl Clone for Taxonomy {
    fn clone(&self) -> (r: Self)
        ensures
            r@ == self@,
    {
        Taxonomy {
            id: self.id,
            name: self.name.clone(),
            slug: self.slug.clone(),
            path: self.path.clone(),
            description: self.description.clone(),
            hero: self.hero.clone(),
        }
    }
}

impl Aggregate for Taxonomy {
    type Event = Event;
    type Command = Command;
    type UniqueKey = UniqueKey;
    type SearchKey = SearchKey;

    open spec fn id_of(v: TaxonomyView) -> u128 {
        v.id
    }

    open spec fn apply_spec(state: Option<TaxonomyView>, event: Event) -> Option<TaxonomyView> {
        match event {
            Event::Created { id, name, slug, path, description, hero } => Some(
                TaxonomyView {
                    id,
                    name: name@,
                    slug: slug@,
                    path: path@,
                    description: description@,
                    hero: opt_text(hero),
                },
            ),
            Event::NameUpdated { name } => match state {
                Some(s) => Some(TaxonomyView { name: name@, ..s }),
                None => None,
            },
            Event::SlugUpdated { slug } => match state {
                Some(s) => Some(TaxonomyView { slug: slug@, ..s }),
                None => None,
            },
            Event::PathUpdated { path } => match state {
                Some(s) => Some(TaxonomyView { path: path@, ..s }),
                None => None,
            },
            Event::DescriptionUpdated { description } => match state {
                Some(s) => Some(TaxonomyView { description: description@, ..s }),
                None => None,
            },
            Event::HeroUpdated { hero } => match state {
                Some(s) => Some(TaxonomyView { hero: opt_text(hero), ..s }),
                None => None,
            },
            Event::Deleted => None,
        }
    }

    open spec fn handle_spec(
        state: Option<TaxonomyView>,
        command: Command,
        result: Result<Seq<Event>, DomainError>,
    ) -> bool {
        match command {
            Command::Create { id, name, slug, path, description, hero } => if state is Some {
                refuses(result, DomainError::AlreadyExists)
            } else if name@.len() == 0 {
                refuses(result, DomainError::EmptyField(Field::Name))
            } else if slug@.len() == 0 {
                refuses(result, DomainError::EmptyField(Field::Slug))
            } else {
                yields(result, seq![Event::Created { id, name, slug, path, description, hero }])
            },
            Command::UpdateName { name } => if state is None {
                refuses(result, DomainError::NotFound)
            } else if name@.len() == 0 {
                refuses(result, DomainError::EmptyField(Field::Name))
            } else {
                yields(result, seq![Event::NameUpdated { name }])
            },
            Command::UpdateSlug { slug } => if state is None {
                refuses(result, DomainError::NotFound)
            } else if slug@.len() == 0 {
                refuses(result, DomainError::EmptyField(Field::Slug))
            } else {
                yields(result, seq![Event::SlugUpdated { slug }])
            },
            Command::UpdatePath { path } => if state is None {
                refuses(result, DomainError::NotFound)
            } else {
                yields(result, seq![Event::PathUpdated { path }])
            },
            Command::UpdateDescription { description } => if state is None {
                refuses(result, DomainError::NotFound)
            } else {
                yields(result, seq![Event::DescriptionUpdated { description }])
            },
            Command::UpdateHero { hero } => if state is None {
                refuses(result, DomainError::NotFound)
            } else {
                yields(result, seq![Event::HeroUpdated { hero }])
            },
            Command::Delete => if state is None {
                refuses(result, DomainError::NotFound)
            } else {
                yields(result, seq![Event::Deleted])
            },
        }
    }

    proof fn lemma_clone_keeps_value(a: Self, b: Self) {
    }

    fn aggregate_id(&self) -> (r: u128) {
        self.id
    }

    fn apply(state: Option<Self>, event: &Event) -> (r: Option<Self>) {
        match event {
            Event::Created { id, name, slug, path, description, hero } => Some(
                Taxonomy {
                    id: *id,
                    name: name.clone(),
                    slug: slug.clone(),
                    path: path.clone(),
                    description: description.clone(),
                    hero: hero.clone(),
                },
            ),
            Event::NameUpdated { name } => match state {
                Some(mut s) => {
                    s.name = name.clone();
                    Some(s)
                },
                None => None,
            },
            Event::SlugUpdated { slug } => match state {
                Some(mut s) => {
                    s.slug = slug.clone();
                    Some(s)
                },
                None => None,
            },
            Event::PathUpdated { path } => match state {
                Some(mut s) => {
                    s.path = path.clone();
                    Some(s)
                },
                None => None,
            },
            Event::DescriptionUpdated { description } => match state {
                Some(mut s) => {
                    s.description = description.clone();
                    Some(s)
                },
                None => None,
            },
            Event::HeroUpdated { hero } => match state {
                Some(mut s) => {
                    s.hero = hero.clone();
                    Some(s)
                },
                None => None,
            },
            Event::Deleted => None,
        }
    }

    fn handle(state: Option<&Self>, command: Command) -> (r: Result<Vec<Event>, DomainError>) {
        match command {
            Command::Create { id, name, slug, path, description, hero } => {
                if state.is_some() {
                    return Err(DomainError::AlreadyExists);
                }
                if name.as_str().is_empty() {
                    return Err(DomainError::EmptyField(Field::Name));
                }
                if slug.as_str().is_empty() {
                    return Err(DomainError::EmptyField(Field::Slug));
                }
                Ok(vec![Event::Created { id, name, slug, path, description, hero }])
            },
            Command::UpdateName { name } => {
                if state.is_none() {
                    return Err(DomainError::NotFound);
                }
                if name.as_str().is_empty() {
                    return Err(DomainError::EmptyField(Field::Name));
                }
                Ok(vec![Event::NameUpdated { name }])
            },
            Command::UpdateSlug { slug } => {
                if state.is_none() {
                    return Err(DomainError::NotFound);
                }
                if slug.as_str().is_empty() {
                    return Err(DomainError::EmptyField(Field::Slug));
                }
                Ok(vec![Event::SlugUpdated { slug }])
            },
            Command::UpdatePath { path } => {
                if state.is_none() {
                    return Err(DomainError::NotFound);
                }
                Ok(vec![Event::PathUpdated { path }])
            },
            Command::UpdateDescription { description } => {
                if state.is_none() {
                    return Err(DomainError::NotFound);
                }
                Ok(vec![Event::DescriptionUpdated { description }])
            },
            Command::UpdateHero { hero } => {
                if state.is_none() {
                    return Err(DomainError::NotFound);
                }
                Ok(vec![Event::HeroUpdated { hero }])
            },
            Command::Delete => {
                if state.is_none() {
                    return Err(DomainError::NotFound);
                }
                Ok(vec![Event::Deleted])
            },
        }
    }
}

/// Handling a command and then applying the events it gave leads to the
/// state that the command asks for.
pub proof fn law_handle_then_apply(state: Option<TaxonomyView>, command: Command, events: Seq<Event>)
    requires
        Taxonomy::handle_spec(state, command, Ok(events)),
    ensures
        fold_events::<Taxonomy>(state, events) == command_effect(state, command),
{
    reveal_with_fuel(fold_events, 2);
    assert(events.drop_last() =~= Seq::<Event>::empty());
}

/// What a taxonomy answers to each command: on no taxonomy, every command
/// but a create is refused as not found; on an existing one, a create is
/// refused as already existing; a create is refused exactly when the name or
/// the slug is empty (the name is checked first), a rename exactly when the
/// name is empty, a new slug exactly when it is empty; every other command on
/// an existing taxonomy is accepted.
pub proof fn law_taxonomy_answers(
    state: Option<TaxonomyView>,
    command: Command,
    r: Result<Seq<Event>, DomainError>,
)
    requires
        Taxonomy::handle_spec(state, command, r),
    ensures
        state is None && !(command is Create) ==> r == Err::<Seq<Event>, DomainError>(
            DomainError::NotFound,
        ),
        state is Some && command is Create ==> r == Err::<Seq<Event>, DomainError>(
            DomainError::AlreadyExists,
        ),
        state is None ==> (command matches Command::Create { name, slug, .. } ==> {
            &&& r is Ok <==> (name@.len() > 0 && slug@.len() > 0)
            &&& name@.len() == 0 ==> r == Err::<Seq<Event>, DomainError>(
                DomainError::EmptyField(Field::Name),
            )
            &&& name@.len() > 0 && slug@.len() == 0 ==> r == Err::<Seq<Event>, DomainError>(
                DomainError::EmptyField(Field::Slug),
            )
        }),
        state is Some ==> (command matches Command::UpdateName { name } ==> {
            &&& r is Ok <==> name@.len() > 0
            &&& name@.len() == 0 ==> r == Err::<Seq<Event>, DomainError>(
                DomainError::EmptyField(Field::Name),
            )
        }),
        state is Some ==> (command matches Command::UpdateSlug { slug } ==> {
            &&& r is Ok <==> slug@.len() > 0
            &&& slug@.len() == 0 ==> r == Err::<Seq<Event>, DomainError>(
                DomainError::EmptyField(Field::Slug),
            )
        }),
        state is Some && (command is UpdatePath || command is UpdateDescription || command is UpdateHero
            || command is Delete) ==> r is Ok,
{
}

/// What an accepted command makes of a taxonomy: a create makes one with the
/// values given; an update sets the one field it names to the value given and
/// keeps every other field, the identifier included; a delete removes it.
pub proof fn law_taxonomy_effects(state: Option<TaxonomyView>, command: Command, events: Seq<Event>)
    requires
        Taxonomy::handle_spec(state, command, Ok(events)),
    ensures
        command is Delete <==> fold_events::<Taxonomy>(state, events) is None,
        command matches Command::Create { id, name, slug, path, description, hero }
            ==> fold_events::<Taxonomy>(state, events) == Some(
            TaxonomyView {
                id,
                name: name@,
                slug: slug@,
                path: path@,
                description: description@,
                hero: opt_text(hero),
            },
        ),
        state matches Some(s) ==> (command matches Command::UpdateName { name }
            ==> fold_events::<Taxonomy>(state, events) matches Some(t) && t.name == name@ && t.id
            == s.id && t.slug == s.slug && t.path == s.path && t.description == s.description
            && t.hero == s.hero),
        state matches Some(s) ==> (command matches Command::UpdateSlug { slug }
            ==> fold_events::<Taxonomy>(state, events) matches Some(t) && t.slug == slug@ && t.id
            == s.id && t.name == s.name && t.path == s.path && t.description == s.description
            && t.hero == s.hero),
        state matches Some(s) ==> (command matches Command::UpdatePath { path }
            ==> fold_events::<Taxonomy>(state, events) matches Some(t) && t.path == path@ && t.id
            == s.id && t.name == s.name && t.slug == s.slug && t.description == s.description
            && t.hero == s.hero),
        state matches Some(s) ==> (command matches Command::UpdateDescription { description }
            ==> fold_events::<Taxonomy>(state, events) matches Some(t) && t.description
            == description@ && t.id == s.id && t.name == s.name && t.slug == s.slug && t.path
            == s.path && t.hero == s.hero),
        state matches Some(s) ==> (command matches Command::UpdateHero { hero }
            ==> fold_events::<Taxonomy>(state, events) matches Some(t) && t.hero == opt_text(hero)
            && t.id == s.id && t.name == s.name && t.slug == s.slug && t.path == s.path
            && t.description == s.description),
{
    law_handle_then_apply(state, command, events);
}

} // verus!
