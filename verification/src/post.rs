use vstd::prelude::*;

use crate::aggregate::{
    fold_events, refuses, refuses_missing_ids, refuses_present_ids, yields, Aggregate, DomainError, Field,
    Items,
};
use crate::sets::IdSet;

verus! {

/// Keys under which a post is unique: its id, or its title among the posts
/// of one author.
#[derive(Debug)]
pub enum UniqueKey {
    Id(u128),
    Title { user: u128, title: String },
}

impl UniqueKey {
    /// The key of the post titled `title` by `user`.
    pub fn title(user: u128, title: String) -> (r: UniqueKey)
        ensures
            r == (UniqueKey::Title { user, title }),
    {
        UniqueKey::Title { user, title }
    }
}

/// Where a post is in its life.
#[derive(Debug, Clone, Copy, PartialEq, Eq, Structural)]
pub enum PostStatus {
    Draft,
    Published,
    Archived,
}

/// A post written by an author, tagged and filed under taxonomies.
#[derive(Debug)]
pub struct Post {
    pub id: u128,
    pub title: String,
    pub content: String,
    pub author_id: u128,
    pub status: PostStatus,
    pub tag_ids: IdSet,
    pub taxonomy_ids: IdSet,
}

/// The value of a post.
pub struct PostView {
    pub id: u128,
    pub title: Seq<char>,
    pub content: Seq<char>,
    pub author_id: u128,
    pub status: PostStatus,
    pub tag_ids: Set<u128>,
    pub taxonomy_ids: Set<u128>,
}

impl View for Post {
    type V = PostView;

    open spec fn view(&self) -> PostView {
        PostView {
            id: self.id,
            title: self.title@,
            content: self.content@,
            author_id: self.author_id,
            status: self.status,
            tag_ids: self.tag_ids@,
            taxonomy_ids: self.taxonomy_ids@,
        }
    }
}

/// What happened to a post.
#[derive(Debug, Clone)]
#[allow(inconsistent_fields)]
pub enum Event {
    Created { id: u128, title: String, content: String, author_id: u128 },
    TitleUpdated { title: String },
    ContentUpdated { content: String },
    StatusChanged { status: PostStatus },
    TagsAdded { tag_ids: Vec<u128> },
    TagsRemoved { tag_ids: Vec<u128> },
    TaxonomiesAdded { taxonomy_ids: Vec<u128> },
    TaxonomiesRemoved { taxonomy_ids: Vec<u128> },
    AuthorChanged { author_id: u128 },
    Deleted,
}

/// What may be asked of a post.
#[derive(Debug)]
#[allow(inconsistent_fields)]
pub enum Command {
    Create { id: u128, title: String, content: String, author_id: u128 },
    UpdateTitle { title: String },
    UpdateContent { content: String },
    Publish,
    Archive,
    RevertToDraft,
    AddTags { tag_ids: IdSet },
    RemoveTags { tag_ids: IdSet },
    AddTaxonomies { taxonomy_ids: IdSet },
    RemoveTaxonomies { taxonomy_ids: IdSet },
    ChangeAuthor { author_id: u128 },
    AuthorOwnDelete { author_id: u128 },
    AuthorOwnUpdate { author_id: u128, title: Option<String>, content: Option<String> },
}

/// The text `o` holds, or `fallback` when it holds none.
pub open spec fn text_or(o: Option<String>, fallback: Seq<char>) -> Seq<char> {
    match o {
        Some(s) => s@,
        None => fallback,
    }
}

/// `events` is the single event adding exactly the tags `ids`, each once.
pub open spec fn tags_added_once(events: Seq<Event>, ids: Set<u128>) -> bool {
    &&& events.len() == 1
    &&& events[0] matches Event::TagsAdded { tag_ids }
    &&& tag_ids@.to_set() == ids
    &&& tag_ids@.no_duplicates()
}

/// `events` is the single event removing exactly the tags `ids`, each once.
pub open spec fn tags_removed_once(events: Seq<Event>, ids: Set<u128>) -> bool {
    &&& events.len() == 1
    &&& events[0] matches Event::TagsRemoved { tag_ids }
    &&& tag_ids@.to_set() == ids
    &&& tag_ids@.no_duplicates()
}

/// `events` is the single event adding exactly the taxonomies `ids`, each once.
pub open spec fn taxonomies_added_once(events: Seq<Event>, ids: Set<u128>) -> bool {
    &&& events.len() == 1
    &&& events[0] matches Event::TaxonomiesAdded { taxonomy_ids }
    &&& taxonomy_ids@.to_set() == ids
    &&& taxonomy_ids@.no_duplicates()
}

/// `events` is the single event removing exactly the taxonomies `ids`, each
/// once.
pub open spec fn taxonomies_removed_once(events: Seq<Event>, ids: Set<u128>) -> bool {
    &&& events.len() == 1
    &&& events[0] matches Event::TaxonomiesRemoved { taxonomy_ids }
    &&& taxonomy_ids@.to_set() == ids
    &&& taxonomy_ids@.no_duplicates()
}

/// `events` sets the title to `title` and then the content to `content`.
pub open spec fn rewritten(events: Seq<Event>, title: Seq<char>, content: Seq<char>) -> bool {
    &&& events.len() == 2
    &&& events[0] matches Event::TitleUpdated { title: t } && t@ == title
    &&& events[1] matches Event::ContentUpdated { content: c } && c@ == content
}

/// The state that handling `command` in `state` is meant to lead to.
pub open spec fn command_effect(state: Option<PostView>, command: Command) -> Option<PostView> {
    let s = state.unwrap();
    match command {
        Command::Create { id, title, content, author_id } => Some(
            PostView {
                id,
                title: title@,
                content: content@,
                author_id,
                status: PostStatus::Draft,
                tag_ids: Set::empty(),
                taxonomy_ids: Set::empty(),
            },
        ),
        Command::UpdateTitle { title } => Some(PostView { title: title@, ..s }),
        Command::UpdateContent { content } => Some(PostView { content: content@, ..s }),
        Command::Publish => Some(PostView { status: PostStatus::Published, ..s }),
        Command::Archive => Some(PostView { status: PostStatus::Archived, ..s }),
        Command::RevertToDraft => Some(PostView { status: PostStatus::Draft, ..s }),
        Command::AddTags { tag_ids } => Some(PostView { tag_ids: s.tag_ids.union(tag_ids@), ..s }),
        Command::RemoveTags { tag_ids } => Some(
            PostView { tag_ids: s.tag_ids.difference(tag_ids@), ..s },
        ),
        Command::AddTaxonomies { taxonomy_ids } => Some(
            PostView { taxonomy_ids: s.taxonomy_ids.union(taxonomy_ids@), ..s },
        ),
        Command::RemoveTaxonomies { taxonomy_ids } => Some(
            PostView { taxonomy_ids: s.taxonomy_ids.difference(taxonomy_ids@), ..s },
        ),
        Command::ChangeAuthor { author_id } => Some(PostView { author_id, ..s }),
        Command::AuthorOwnDelete { author_id } => None,
        Command::AuthorOwnUpdate { author_id, title, content } => Some(
            PostView { title: text_or(title, s.title), content: text_or(content, s.content), ..s },
        ),
    }
}

impl Clone for Post {
    fn clone(&self) -> (r: Self)
        ensures
            r@ == self@,
    {
        Post {
            id: self.id,
            title: self.title.clone(),
            content: self.content.clone(),
            author_id: self.author_id,
            status: self.status,
            tag_ids: self.tag_ids.clone(),
            taxonomy_ids: self.taxonomy_ids.clone(),
        }
    }
}

impl Aggregate for Post {
    type Event = Event;
    type Command = Command;
    type UniqueKey = UniqueKey;
    type SearchKey = ();

    open spec fn id_of(v: PostView) -> u128 {
        v.id
    }

    open spec fn apply_spec(state: Option<PostView>, event: Event) -> Option<PostView> {
        match event {
            Event::Created { id, title, content, author_id } => Some(
                PostView {
                    id,
                    title: title@,
                    content: content@,
                    author_id,
                    status: PostStatus::Draft,
                    tag_ids: Set::empty(),
                    taxonomy_ids: Set::empty(),
                },
            ),
            Event::TitleUpdated { title } => match state {
                Some(s) => Some(PostView { title: title@, ..s }),
                None => None,
            },
            Event::ContentUpdated { content } => match state {
                Some(s) => Some(PostView { content: content@, ..s }),
                None => None,
            },
            Event::StatusChanged { status } => match state {
                Some(s) => Some(PostView { status, ..s }),
                None => None,
            },
            Event::TagsAdded { tag_ids } => match state {
                Some(s) => Some(PostView { tag_ids: s.tag_ids.union(tag_ids@.to_set()), ..s }),
                None => None,
            },
            Event::TagsRemoved { tag_ids } => match state {
                Some(s) => Some(PostView { tag_ids: s.tag_ids.difference(tag_ids@.to_set()), ..s }),
                None => None,
            },
            Event::TaxonomiesAdded { taxonomy_ids } => match state {
                Some(s) => Some(
                    PostView { taxonomy_ids: s.taxonomy_ids.union(taxonomy_ids@.to_set()), ..s },
                ),
                None => None,
            },
            Event::TaxonomiesRemoved { taxonomy_ids } => match state {
                Some(s) => Some(
                    PostView {
                        taxonomy_ids: s.taxonomy_ids.difference(taxonomy_ids@.to_set()),
                        ..s
                    },
                ),
                None => None,
            },
            Event::AuthorChanged { author_id } => match state {
                Some(s) => Some(PostView { author_id, ..s }),
                None => None,
            },
            Event::Deleted => None,
        }
    }

    open spec fn handle_spec(
        state: Option<PostView>,
        command: Command,
        result: Result<Seq<Event>, DomainError>,
    ) -> bool {
        let s = state.unwrap();
        match command {
            Command::Create { id, title, content, author_id } => if state is Some {
                refuses(result, DomainError::AlreadyExists)
            } else if title@.len() == 0 {
                refuses(result, DomainError::EmptyField(Field::Title))
            } else if content@.len() == 0 {
                refuses(result, DomainError::EmptyField(Field::Content))
            } else {
                yields(result, seq![Event::Created { id, title, content, author_id }])
            },
            Command::UpdateTitle { title } => if state is None {
                refuses(result, DomainError::NotFound)
            } else if title@.len() == 0 {
                refuses(result, DomainError::EmptyField(Field::Title))
            } else {
                yields(result, seq![Event::TitleUpdated { title }])
            },
            Command::UpdateContent { content } => if state is None {
                refuses(result, DomainError::NotFound)
            } else if content@.len() == 0 {
                refuses(result, DomainError::EmptyField(Field::Content))
            } else {
                yields(result, seq![Event::ContentUpdated { content }])
            },
            Command::Publish => if state is None {
                refuses(result, DomainError::NotFound)
            } else if s.status == PostStatus::Published {
                refuses(result, DomainError::AlreadyPublished)
            } else if s.status == PostStatus::Archived {
                refuses(result, DomainError::PublishArchived)
            } else {
                yields(result, seq![Event::StatusChanged { status: PostStatus::Published }])
            },
            Command::Archive => if state is None {
                refuses(result, DomainError::NotFound)
            } else if s.status == PostStatus::Archived {
                refuses(result, DomainError::AlreadyArchived)
            } else {
                yields(result, seq![Event::StatusChanged { status: PostStatus::Archived }])
            },
            Command::RevertToDraft => if state is None {
                refuses(result, DomainError::NotFound)
            } else if s.status == PostStatus::Draft {
                refuses(result, DomainError::AlreadyDraft)
            } else {
                yields(result, seq![Event::StatusChanged { status: PostStatus::Draft }])
            },
            Command::AddTags { tag_ids } => if state is None {
                refuses(result, DomainError::NotFound)
            } else if tag_ids@.is_empty() {
                refuses(result, DomainError::EmptySelection(Field::TagIds))
            } else if !tag_ids@.disjoint(s.tag_ids) {
                refuses_present_ids(result, Field::TagIds, tag_ids@.intersect(s.tag_ids))
            } else {
                result matches Ok(events) && tags_added_once(events, tag_ids@)
            },
            Command::RemoveTags { tag_ids } => if state is None {
                refuses(result, DomainError::NotFound)
            } else if tag_ids@.is_empty() {
                refuses(result, DomainError::EmptySelection(Field::TagIds))
            } else if !tag_ids@.subset_of(s.tag_ids) {
                refuses_missing_ids(result, Field::TagIds, tag_ids@.difference(s.tag_ids))
            } else {
                result matches Ok(events) && tags_removed_once(events, tag_ids@)
            },
            Command::AddTaxonomies { taxonomy_ids } => if state is None {
                refuses(result, DomainError::NotFound)
            } else if taxonomy_ids@.is_empty() {
                refuses(result, DomainError::EmptySelection(Field::TaxonomyIds))
            } else if !taxonomy_ids@.disjoint(s.taxonomy_ids) {
                refuses_present_ids(result, Field::TaxonomyIds, taxonomy_ids@.intersect(s.taxonomy_ids))
            } else {
                result matches Ok(events) && taxonomies_added_once(events, taxonomy_ids@)
            },
            Command::RemoveTaxonomies { taxonomy_ids } => if state is None {
                refuses(result, DomainError::NotFound)
            } else if taxonomy_ids@.is_empty() {
                refuses(result, DomainError::EmptySelection(Field::TaxonomyIds))
            } else if !taxonomy_ids@.subset_of(s.taxonomy_ids) {
                refuses_missing_ids(result, Field::TaxonomyIds, taxonomy_ids@.difference(s.taxonomy_ids))
            } else {
                result matches Ok(events) && taxonomies_removed_once(events, taxonomy_ids@)
            },
            Command::ChangeAuthor { author_id } => if state is None {
                refuses(result, DomainError::NotFound)
            } else {
                yields(result, seq![Event::AuthorChanged { author_id }])
            },
            Command::AuthorOwnDelete { author_id } => if state is None {
                refuses(result, DomainError::NotFound)
            } else if author_id != s.author_id {
                refuses(result, DomainError::NotAuthor)
            } else {
                yields(result, seq![Event::Deleted])
            },
            Command::AuthorOwnUpdate { author_id, title, content } => if state is None {
                refuses(result, DomainError::NotFound)
            } else if author_id != s.author_id {
                refuses(result, DomainError::NotAuthor)
            } else {
                result matches Ok(events) && rewritten(
                    events,
                    text_or(title, s.title),
                    text_or(content, s.content),
                )
            },
        }
    }

    proof fn lemma_clone_keeps_value(a: Self, b: Self) {
    }

    fn aggregate_id(&self) -> (r: u128) {
        self.id
    }

    fn apply(state: Option<Self>, event: &Event) -> (r: Option<Self>) {
        match event {
            Event::Created { id, title, content, author_id } => Some(
                Post {
                    id: *id,
                    title: title.clone(),
                    content: content.clone(),
                    author_id: *author_id,
                    status: PostStatus::Draft,
                    tag_ids: IdSet::new(),
                    taxonomy_ids: IdSet::new(),
                },
            ),
            Event::TitleUpdated { title } => match state {
                Some(mut s) => {
                    s.title = title.clone();
                    Some(s)
                },
                None => None,
            },
            Event::ContentUpdated { content } => match state {
                Some(mut s) => {
                    s.content = content.clone();
                    Some(s)
                },
                None => None,
            },
            Event::StatusChanged { status } => match state {
                Some(mut s) => {
                    s.status = *status;
                    Some(s)
                },
                None => None,
            },
            Event::TagsAdded { tag_ids } => match state {
                Some(mut s) => {
                    s.tag_ids.extend(tag_ids);
                    Some(s)
                },
                None => None,
            },
            Event::TagsRemoved { tag_ids } => match state {
                Some(mut s) => {
                    s.tag_ids.retain_absent_from(tag_ids);
                    Some(s)
                },
                None => None,
            },
            Event::TaxonomiesAdded { taxonomy_ids } => match state {
                Some(mut s) => {
                    s.taxonomy_ids.extend(taxonomy_ids);
                    Some(s)
                },
                None => None,
            },
            Event::TaxonomiesRemoved { taxonomy_ids } => match state {
                Some(mut s) => {
                    s.taxonomy_ids.retain_absent_from(taxonomy_ids);
                    Some(s)
                },
                None => None,
            },
            Event::AuthorChanged { author_id } => match state {
                Some(mut s) => {
                    s.author_id = *author_id;
                    Some(s)
                },
                None => None,
            },
            Event::Deleted => None,
        }
    }

    fn handle(state: Option<&Self>, command: Command) -> (r: Result<Vec<Event>, DomainError>) {
        match command {
            Command::Create { id, title, content, author_id } => {
                if state.is_some() {
                    return Err(DomainError::AlreadyExists);
                }
                if title.as_str().is_empty() {
                    return Err(DomainError::EmptyField(Field::Title));
                }
                if content.as_str().is_empty() {
                    return Err(DomainError::EmptyField(Field::Content));
                }
                Ok(vec![Event::Created { id, title, content, author_id }])
            },
            Command::UpdateTitle { title } => {
                if state.is_none() {
                    return Err(DomainError::NotFound);
                }
                if title.as_str().is_empty() {
                    return Err(DomainError::EmptyField(Field::Title));
                }
                Ok(vec![Event::TitleUpdated { title }])
            },
            Command::UpdateContent { content } => {
                if state.is_none() {
                    return Err(DomainError::NotFound);
                }
                if content.as_str().is_empty() {
                    return Err(DomainError::EmptyField(Field::Content));
                }
                Ok(vec![Event::ContentUpdated { content }])
            },
            Command::Publish => {
                let s = match state {
                    Some(s) => s,
                    None => return Err(DomainError::NotFound),
                };
                if s.status == PostStatus::Published {
                    return Err(DomainError::AlreadyPublished);
                }
                if s.status == PostStatus::Archived {
                    return Err(DomainError::PublishArchived);
                }
                Ok(vec![Event::StatusChanged { status: PostStatus::Published }])
            },
            Command::Archive => {
                let s = match state {
                    Some(s) => s,
                    None => return Err(DomainError::NotFound),
                };
                if s.status == PostStatus::Archived {
                    return Err(DomainError::AlreadyArchived);
                }
                Ok(vec![Event::StatusChanged { status: PostStatus::Archived }])
            },
            Command::RevertToDraft => {
                let s = match state {
                    Some(s) => s,
                    None => return Err(DomainError::NotFound),
                };
                if s.status == PostStatus::Draft {
                    return Err(DomainError::AlreadyDraft);
                }
                Ok(vec![Event::StatusChanged { status: PostStatus::Draft }])
            },
            Command::AddTags { tag_ids } => {
                let s = match state {
                    Some(s) => s,
                    None => return Err(DomainError::NotFound),
                };
                if tag_ids.is_empty() {
                    return Err(DomainError::EmptySelection(Field::TagIds));
                }
                let duplicates = tag_ids.common_with(&s.tag_ids);
                if !duplicates.is_empty() {
                    assert(exists|x: u128| duplicates@.contains(x)) by {
                        if !(exists|x: u128| duplicates@.contains(x)) {
                            assert(duplicates@ =~= Set::<u128>::empty());
                        }
                    }
                    return Err(DomainError::AlreadyPresent(Field::TagIds, Items::Ids(duplicates)));
                }
                assert(tag_ids@.disjoint(s.tag_ids@)) by {
                    assert forall|x: u128| tag_ids@.contains(x) implies !s.tag_ids@.contains(x) by {
                        assert(!duplicates@.contains(x));
                    }
                }
                let listed = tag_ids.to_vec();
                let events = vec![Event::TagsAdded { tag_ids: listed }];
                assert(tags_added_once(events@, tag_ids@));
                Ok(events)
            },
            Command::RemoveTags { tag_ids } => {
                let s = match state {
                    Some(s) => s,
                    None => return Err(DomainError::NotFound),
                };
                if tag_ids.is_empty() {
                    return Err(DomainError::EmptySelection(Field::TagIds));
                }
                let not_exist = tag_ids.absent_from(&s.tag_ids);
                if !not_exist.is_empty() {
                    assert(exists|x: u128| not_exist@.contains(x)) by {
                        if !(exists|x: u128| not_exist@.contains(x)) {
                            assert(not_exist@ =~= Set::<u128>::empty());
                        }
                    }
                    return Err(DomainError::Missing(Field::TagIds, Items::Ids(not_exist)));
                }
                assert(tag_ids@.subset_of(s.tag_ids@)) by {
                    assert forall|x: u128| tag_ids@.contains(x) implies s.tag_ids@.contains(x) by {
                        assert(!not_exist@.contains(x));
                    }
                }
                let listed = tag_ids.to_vec();
                let events = vec![Event::TagsRemoved { tag_ids: listed }];
                assert(tags_removed_once(events@, tag_ids@));
                Ok(events)
            },
            Command::AddTaxonomies { taxonomy_ids } => {
                let s = match state {
                    Some(s) => s,
                    None => return Err(DomainError::NotFound),
                };
                if taxonomy_ids.is_empty() {
                    return Err(DomainError::EmptySelection(Field::TaxonomyIds));
                }
                let duplicates = taxonomy_ids.common_with(&s.taxonomy_ids);
                if !duplicates.is_empty() {
                    assert(exists|x: u128| duplicates@.contains(x)) by {
                        if !(exists|x: u128| duplicates@.contains(x)) {
                            assert(duplicates@ =~= Set::<u128>::empty());
                        }
                    }
                    return Err(DomainError::AlreadyPresent(Field::TaxonomyIds, Items::Ids(duplicates)));
                }
                assert(taxonomy_ids@.disjoint(s.taxonomy_ids@)) by {
                    assert forall|x: u128| taxonomy_ids@.contains(x) implies !s.taxonomy_ids@.contains(x) by {
                        assert(!duplicates@.contains(x));
                    }
                }
                let listed = taxonomy_ids.to_vec();
                let events = vec![Event::TaxonomiesAdded { taxonomy_ids: listed }];
                assert(taxonomies_added_once(events@, taxonomy_ids@));
                Ok(events)
            },
            Command::RemoveTaxonomies { taxonomy_ids } => {
                let s = match state {
                    Some(s) => s,
                    None => return Err(DomainError::NotFound),
                };
                if taxonomy_ids.is_empty() {
                    return Err(DomainError::EmptySelection(Field::TaxonomyIds));
                }
                let not_exist = taxonomy_ids.absent_from(&s.taxonomy_ids);
                if !not_exist.is_empty() {
                    assert(exists|x: u128| not_exist@.contains(x)) by {
                        if !(exists|x: u128| not_exist@.contains(x)) {
                            assert(not_exist@ =~= Set::<u128>::empty());
                        }
                    }
                    return Err(DomainError::Missing(Field::TaxonomyIds, Items::Ids(not_exist)));
                }
                assert(taxonomy_ids@.subset_of(s.taxonomy_ids@)) by {
                    assert forall|x: u128| taxonomy_ids@.contains(x) implies s.taxonomy_ids@.contains(x) by {
                        assert(!not_exist@.contains(x));
                    }
                }
                let listed = taxonomy_ids.to_vec();
                let events = vec![Event::TaxonomiesRemoved { taxonomy_ids: listed }];
                assert(taxonomies_removed_once(events@, taxonomy_ids@));
                Ok(events)
            },
            Command::ChangeAuthor { author_id } => {
                if state.is_none() {
                    return Err(DomainError::NotFound);
                }
                Ok(vec![Event::AuthorChanged { author_id }])
            },
            Command::AuthorOwnDelete { author_id } => {
                let s = match state {
                    Some(s) => s,
                    None => return Err(DomainError::NotFound),
                };
                if author_id != s.author_id {
                    return Err(DomainError::NotAuthor);
                }
                Ok(vec![Event::Deleted])
            },
            Command::AuthorOwnUpdate { author_id, title, content } => {
                let s = match state {
                    Some(s) => s,
                    None => return Err(DomainError::NotFound),
                };
                if author_id != s.author_id {
                    return Err(DomainError::NotAuthor);
                }
                let title = match title {
                    Some(t) => t,
                    None => s.title.clone(),
                };
                let content = match content {
                    Some(c) => c,
                    None => s.content.clone(),
                };
                Ok(vec![Event::TitleUpdated { title }, Event::ContentUpdated { content }])
            },
        }
    }
}

/// Handling a command and then applying the events it gave leads to the
/// state that the command asks for.
pub proof fn law_handle_then_apply(state: Option<PostView>, command: Command, events: Seq<Event>)
    requires
        Post::handle_spec(state, command, Ok(events)),
    ensures
        fold_events::<Post>(state, events) == command_effect(state, command),
{
    reveal_with_fuel(fold_events, 3);
    if events.len() == 2 {
        assert(events.drop_last().drop_last() =~= Seq::<Event>::empty());
    } else {
        assert(events.drop_last() =~= Seq::<Event>::empty());
    }
}

/// An archived post is never published by a single accepted command: it
/// goes back to draft first.
pub proof fn law_archived_not_published(state: Option<PostView>, command: Command, events: Seq<Event>)
    requires
        Post::handle_spec(state, command, Ok(events)),
        state matches Some(s) && s.status == PostStatus::Archived,
    ensures
        fold_events::<Post>(state, events) matches Some(t) ==> t.status != PostStatus::Published,
{
    law_handle_then_apply(state, command, events);
}

/// Only the author may change or delete a post through the author commands.
pub proof fn law_author_only(state: Option<PostView>, author_id: u128, title: Option<String>, content: Option<String>)
    requires
        state matches Some(s) && s.author_id != author_id,
    ensures
        Post::handle_spec(state, Command::AuthorOwnDelete { author_id }, Err(DomainError::NotAuthor)),
        Post::handle_spec(
            state,
            Command::AuthorOwnUpdate { author_id, title, content },
            Err(DomainError::NotAuthor),
        ),
{
}

/// Publishing twice: the second publish is refused.
pub proof fn law_publish_once(state: Option<PostView>, events: Seq<Event>)
    requires
        Post::handle_spec(state, Command::Publish, Ok(events)),
    ensures
        Post::handle_spec(
            fold_events::<Post>(state, events),
            Command::Publish,
            Err(DomainError::AlreadyPublished),
        ),
{
    law_handle_then_apply(state, Command::Publish, events);
}

/// After an accepted archive, publishing is refused until the post is
/// reverted to a draft.
pub proof fn law_archive_blocks_publish(state: Option<PostView>, events: Seq<Event>)
    requires
        Post::handle_spec(state, Command::Archive, Ok(events)),
    ensures
        Post::handle_spec(
            fold_events::<Post>(state, events),
            Command::Publish,
            Err(DomainError::PublishArchived),
        ),
{
    law_handle_then_apply(state, Command::Archive, events);
}

/// The status a status command moves a post to.
pub open spec fn status_target(command: Command) -> PostStatus {
    match command {
        Command::Publish => PostStatus::Published,
        Command::Archive => PostStatus::Archived,
        _ => PostStatus::Draft,
    }
}

/// How an existing post moves between draft, published and archived:
/// publishing is accepted only from a draft; archiving from a draft or a
/// published post; going back to a draft from a published or an archived
/// post. An accepted move sets the status to its target and changes nothing
/// else of the post.
pub proof fn law_status_moves(s: PostView, command: Command, r: Result<Seq<Event>, DomainError>)
    requires
        command is Publish || command is Archive || command is RevertToDraft,
        Post::handle_spec(Some(s), command, r),
    ensures
        command is Publish ==> (r is Ok <==> s.status == PostStatus::Draft),
        command is Archive ==> (r is Ok <==> (s.status == PostStatus::Draft || s.status
            == PostStatus::Published)),
        command is RevertToDraft ==> (r is Ok <==> (s.status == PostStatus::Published || s.status
            == PostStatus::Archived)),
        r matches Ok(events) ==> fold_events::<Post>(Some(s), events) == Some(
            PostView { status: status_target(command), ..s },
        ),
{
    reveal_with_fuel(fold_events, 2);
    if let Ok(events) = r {
        assert(events.drop_last() =~= Seq::<Event>::empty());
    }
}

/// What a post answers to each command: on no post, every command but a
/// create is refused as not found; on an existing post, a create is refused
/// as already existing; a create is accepted exactly when the title and the
/// content are non-empty (the title is checked first), a new title or
/// content exactly when it is non-empty; adding tags or taxonomies exactly
/// when some are named and none is already on the post; removing them
/// exactly when some are named and all are on the post; the author's own
/// delete or update exactly when the acting user is the author; a change of
/// author always.
pub proof fn law_post_answers(state: Option<PostView>, command: Command, r: Result<Seq<Event>, DomainError>)
    requires
        Post::handle_spec(state, command, r),
    ensures
        state is None && !(command is Create) ==> r == Err::<Seq<Event>, DomainError>(DomainError::NotFound),
        state is Some && command is Create ==> r == Err::<Seq<Event>, DomainError>(DomainError::AlreadyExists),
        state is None ==> (command matches Command::Create { title, content, .. } ==> {
            &&& r is Ok <==> (title@.len() > 0 && content@.len() > 0)
            &&& title@.len() == 0 ==> r == Err::<Seq<Event>, DomainError>(DomainError::EmptyField(Field::Title))
            &&& title@.len() > 0 && content@.len() == 0 ==> r == Err::<Seq<Event>, DomainError>(
                DomainError::EmptyField(Field::Content),
            )
        }),
        state matches Some(s) ==> {
            &&& command matches Command::UpdateTitle { title } ==> {
                &&& r is Ok <==> title@.len() > 0
                &&& title@.len() == 0 ==> r == Err::<Seq<Event>, DomainError>(DomainError::EmptyField(Field::Title))
            }
            &&& command matches Command::UpdateContent { content } ==> {
                &&& r is Ok <==> content@.len() > 0
                &&& content@.len() == 0 ==> r == Err::<Seq<Event>, DomainError>(DomainError::EmptyField(Field::Content))
            }
            &&& command matches Command::AddTags { tag_ids } ==> {
                &&& r is Ok <==> ((exists|y: u128| tag_ids@.contains(y)) && forall|x: u128|
                    tag_ids@.contains(x) ==> !s.tag_ids.contains(x))
                &&& !(exists|y: u128| tag_ids@.contains(y)) ==> r == Err::<Seq<Event>, DomainError>(
                    DomainError::EmptySelection(Field::TagIds),
                )
            }
            &&& command matches Command::RemoveTags { tag_ids } ==> {
                &&& r is Ok <==> ((exists|y: u128| tag_ids@.contains(y)) && forall|x: u128|
                    tag_ids@.contains(x) ==> s.tag_ids.contains(x))
                &&& !(exists|y: u128| tag_ids@.contains(y)) ==> r == Err::<Seq<Event>, DomainError>(
                    DomainError::EmptySelection(Field::TagIds),
                )
            }
            &&& command matches Command::AddTaxonomies { taxonomy_ids } ==> {
                &&& r is Ok <==> ((exists|y: u128| taxonomy_ids@.contains(y)) && forall|x: u128|
                    taxonomy_ids@.contains(x) ==> !s.taxonomy_ids.contains(x))
                &&& !(exists|y: u128| taxonomy_ids@.contains(y)) ==> r == Err::<Seq<Event>, DomainError>(
                    DomainError::EmptySelection(Field::TaxonomyIds),
                )
            }
            &&& command matches Command::RemoveTaxonomies { taxonomy_ids } ==> {
                &&& r is Ok <==> ((exists|y: u128| taxonomy_ids@.contains(y)) && forall|x: u128|
                    taxonomy_ids@.contains(x) ==> s.taxonomy_ids.contains(x))
                &&& !(exists|y: u128| taxonomy_ids@.contains(y)) ==> r == Err::<Seq<Event>, DomainError>(
                    DomainError::EmptySelection(Field::TaxonomyIds),
                )
            }
            &&& command is ChangeAuthor ==> r is Ok
            &&& command matches Command::AuthorOwnDelete { author_id } ==> {
                &&& r is Ok <==> author_id == s.author_id
                &&& author_id != s.author_id ==> r == Err::<Seq<Event>, DomainError>(DomainError::NotAuthor)
            }
            &&& command matches Command::AuthorOwnUpdate { author_id, .. } ==> {
                &&& r is Ok <==> author_id == s.author_id
                &&& author_id != s.author_id ==> r == Err::<Seq<Event>, DomainError>(DomainError::NotAuthor)
            }
        },
{
    if let Some(s) = state {
        match command {
            Command::AddTags { tag_ids } => {
                if !(exists|y: u128| tag_ids@.contains(y)) {
                    assert(tag_ids@ =~= Set::<u128>::empty());
                }
            },
            Command::RemoveTags { tag_ids } => {
                if !(exists|y: u128| tag_ids@.contains(y)) {
                    assert(tag_ids@ =~= Set::<u128>::empty());
                }
            },
            Command::AddTaxonomies { taxonomy_ids } => {
                if !(exists|y: u128| taxonomy_ids@.contains(y)) {
                    assert(taxonomy_ids@ =~= Set::<u128>::empty());
                }
            },
            Command::RemoveTaxonomies { taxonomy_ids } => {
                if !(exists|y: u128| taxonomy_ids@.contains(y)) {
                    assert(taxonomy_ids@ =~= Set::<u128>::empty());
                }
            },
            _ => {},
        }
    }
}

/// What an accepted command makes of a post: a create makes a draft by the
/// author given, with the title and content given and no tags or
/// taxonomies; the author's own delete removes the post; every other command
/// keeps the identifier and changes only what it names: the title, the
/// content (the author's own update sets those it is given and keeps the
/// others), the status, the author, or the tags and taxonomies, to which an
/// addition adds exactly those named and from which a removal takes exactly
/// them away.
pub proof fn law_post_effects(state: Option<PostView>, command: Command, events: Seq<Event>)
    requires
        Post::handle_spec(state, command, Ok(events)),
    ensures
        command is AuthorOwnDelete <==> fold_events::<Post>(state, events) is None,
        command matches Command::Create { id, title, content, author_id } ==> fold_events::<Post>(
            state,
            events,
        ) == Some(
            PostView {
                id,
                title: title@,
                content: content@,
                author_id,
                status: PostStatus::Draft,
                tag_ids: Set::empty(),
                taxonomy_ids: Set::empty(),
            },
        ),
        state matches Some(s) ==> (!(command is AuthorOwnDelete) ==> (fold_events::<Post>(
            state,
            events,
        ) matches Some(t) && {
            &&& t.id == s.id
            &&& t.title == (match command {
                Command::UpdateTitle { title } => title@,
                Command::AuthorOwnUpdate { title: Some(x), .. } => x@,
                _ => s.title,
            })
            &&& t.content == (match command {
                Command::UpdateContent { content } => content@,
                Command::AuthorOwnUpdate { content: Some(x), .. } => x@,
                _ => s.content,
            })
            &&& t.status == (match command {
                Command::Publish => PostStatus::Published,
                Command::Archive => PostStatus::Archived,
                Command::RevertToDraft => PostStatus::Draft,
                _ => s.status,
            })
            &&& t.author_id == (match command {
                Command::ChangeAuthor { author_id } => author_id,
                _ => s.author_id,
            })
            &&& forall|x: u128|
                #[trigger] t.tag_ids.contains(x) <==> (match command {
                    Command::AddTags { tag_ids } => s.tag_ids.contains(x) || tag_ids@.contains(x),
                    Command::RemoveTags { tag_ids } => s.tag_ids.contains(x) && !tag_ids@.contains(x),
                    _ => s.tag_ids.contains(x),
                })
            &&& forall|x: u128|
                #[trigger] t.taxonomy_ids.contains(x) <==> (match command {
                    Command::AddTaxonomies { taxonomy_ids } => s.taxonomy_ids.contains(x)
                        || taxonomy_ids@.contains(x),
                    Command::RemoveTaxonomies { taxonomy_ids } => s.taxonomy_ids.contains(x)
                        && !taxonomy_ids@.contains(x),
                    _ => s.taxonomy_ids.contains(x),
                })
        })),
{
    law_handle_then_apply(state, command, events);
}

} // verus!
