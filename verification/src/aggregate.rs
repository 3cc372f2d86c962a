use vstd::prelude::*;

use crate::sets::{IdSet, NameSet};

verus! {

/// Marker for the types that identify aggregates.
pub trait AggregateId: Clone {}

impl AggregateId for u128 {}

/// The field that a refusal is about.
#[derive(Debug, Clone, Copy, PartialEq, Eq, Structural)]
pub enum Field {
    Name,
    Slug,
    Username,
    Email,
    Phc,
    Title,
    Content,
    Permissions,
    Roles,
    TagIds,
    TaxonomyIds,
}

/// The elements a refusal names: identifiers, or names such as permission
/// codes.
#[derive(Debug, Clone)]
pub enum Items {
    Ids(IdSet),
    Names(NameSet),
}

/// Why an aggregate refused a command.
#[derive(Debug, Clone)]
pub enum DomainError {
    /// A create command for an aggregate that already exists.
    AlreadyExists,
    /// A command for an aggregate that does not exist.
    NotFound,
    /// The field's text is empty.
    EmptyField(Field),
    /// The command names no element of the collection.
    EmptySelection(Field),
    /// These elements named by the command are already in the collection.
    AlreadyPresent(Field, Items),
    /// These elements named by the command are not in the collection.
    Missing(Field, Items),
    /// The role already has a parent.
    ParentAlreadyAssigned,
    /// A role cannot be its own parent.
    SelfParent,
    /// The role has no parent to remove.
    NoParent,
    /// The delete command names another user.
    UserMismatch,
    /// The post is already published.
    AlreadyPublished,
    /// An archived post cannot be published.
    PublishArchived,
    /// The post is already archived.
    AlreadyArchived,
    /// The post is already a draft.
    AlreadyDraft,
    /// The acting user is not the author of the post.
    NotAuthor,
}

/// The view of an optional value.
pub open spec fn opt_view<T: View>(o: Option<T>) -> Option<T::V> {
    match o {
        Some(t) => Some(t@),
        None => None,
    }
}

/// The text of an optional string.
pub open spec fn opt_text(o: Option<String>) -> Option<Seq<char>> {
    match o {
        Some(s) => Some(s@),
        None => None,
    }
}

/// The result of a command handler, with its events as a sequence.
pub open spec fn result_seq<E>(r: Result<Vec<E>, DomainError>) -> Result<Seq<E>, DomainError> {
    match r {
        Ok(v) => Ok(v@),
        Err(e) => Err(e),
    }
}

/// The handler accepted the command and gave exactly `events`.
pub open spec fn yields<E>(r: Result<Seq<E>, DomainError>, events: Seq<E>) -> bool {
    r matches Ok(v) && v =~= events
}

/// The handler refused the command with `e`.
pub open spec fn refuses<E>(r: Result<Seq<E>, DomainError>, e: DomainError) -> bool {
    r == Err::<Seq<E>, DomainError>(e)
}

/// The handler refused the command as naming, for `field`, the identifiers
/// `ids` that are already present.
pub open spec fn refuses_present_ids<E>(r: Result<Seq<E>, DomainError>, field: Field, ids: Set<u128>) -> bool {
    r matches Err(DomainError::AlreadyPresent(f, Items::Ids(d))) && f == field && d@ == ids
}

/// The handler refused the command as naming, for `field`, the identifiers
/// `ids` that are missing.
pub open spec fn refuses_missing_ids<E>(r: Result<Seq<E>, DomainError>, field: Field, ids: Set<u128>) -> bool {
    r matches Err(DomainError::Missing(f, Items::Ids(d))) && f == field && d@ == ids
}

/// The handler refused the command as naming, for `field`, the names `names`
/// that are already present.
pub open spec fn refuses_present_names<E>(
    r: Result<Seq<E>, DomainError>,
    field: Field,
    names: Set<Seq<char>>,
) -> bool {
    r matches Err(DomainError::AlreadyPresent(f, Items::Names(d))) && f == field && d@ == names
}

/// The handler refused the command as naming, for `field`, the names `names`
/// that are missing.
pub open spec fn refuses_missing_names<E>(
    r: Result<Seq<E>, DomainError>,
    field: Field,
    names: Set<Seq<char>>,
) -> bool {
    r matches Err(DomainError::Missing(f, Items::Names(d))) && f == field && d@ == names
}

/// An event-sourced aggregate: commands are checked against the current
/// state and turned into events; events are applied to rebuild the state.
pub trait Aggregate: Sized + View + Clone {
    type Event: Clone;
    type Command;
    type UniqueKey;
    type SearchKey;

    /// The identifier of a state.
    spec fn id_of(v: Self::V) -> u128;

    /// The state after applying `event` to `state`.
    spec fn apply_spec(state: Option<Self::V>, event: Self::Event) -> Option<Self::V>;

    /// What handling `command` in `state` gives.
    spec fn handle_spec(
        state: Option<Self::V>,
        command: Self::Command,
        result: Result<Seq<Self::Event>, DomainError>,
    ) -> bool;

    /// A clone of a state has the same value.
    proof fn lemma_clone_keeps_value(a: Self, b: Self)
        requires
            cloned::<Self>(a, b),
        ensures
            a@ == b@,
    ;

    /// The identifier of the aggregate.
    fn aggregate_id(&self) -> (r: u128)
        ensures
            r == Self::id_of(self@),
    ;

    /// Applies one event; it never fails.
    fn apply(state: Option<Self>, event: &Self::Event) -> (r: Option<Self>)
        ensures
            opt_view(r) == Self::apply_spec(opt_view(state), *event),
    ;

    /// Checks a command against the current state and gives its events.
    fn handle(state: Option<&Self>, command: Self::Command) -> (r: Result<
        Vec<Self::Event>,
        DomainError,
    >)
        ensures
            Self::handle_spec(opt_view(state), command, result_seq(r)),
    ;
}

/// The state reached by applying `events`, first to last, to `state`.
pub open spec fn fold_events<A: Aggregate>(state: Option<A::V>, events: Seq<A::Event>) -> Option<
    A::V,
>
    decreases events.len(),
{
    if events.len() == 0 {
        state
    } else {
        A::apply_spec(fold_events::<A>(state, events.drop_last()), events.last())
    }
}

/// Applying a sequence followed by one more event.
pub proof fn lemma_fold_push<A: Aggregate>(state: Option<A::V>, events: Seq<A::Event>, e: A::Event)
    ensures
        fold_events::<A>(state, events.push(e)) == A::apply_spec(fold_events::<A>(state, events), e),
{
    assert(events.push(e).drop_last() =~= events);
}

/// Applying one sequence and then another is applying their concatenation.
pub proof fn law_fold_concat<A: Aggregate>(
    state: Option<A::V>,
    first: Seq<A::Event>,
    second: Seq<A::Event>,
)
    ensures
        fold_events::<A>(fold_events::<A>(state, first), second) == fold_events::<A>(
            state,
            first + second,
        ),
    decreases second.len(),
{
    if second.len() == 0 {
        assert(first + second =~= first);
    } else {
        law_fold_concat::<A>(state, first, second.drop_last());
        assert((first + second).drop_last() =~= first + second.drop_last());
        assert((first + second).last() == second.last());
    }
}

/// Applying no event leaves the state as it is, and applying a sequence with
/// one more event at its end applies that event to what the sequence gave.
pub proof fn law_fold_one_by_one<A: Aggregate>(state: Option<A::V>, events: Seq<A::Event>, e: A::Event)
    ensures
        fold_events::<A>(state, Seq::empty()) == state,
        fold_events::<A>(state, seq![e]) == A::apply_spec(state, e),
        fold_events::<A>(state, events.push(e)) == A::apply_spec(fold_events::<A>(state, events), e),
{
    lemma_fold_push::<A>(state, Seq::empty(), e);
    assert(Seq::<A::Event>::empty().push(e) =~= seq![e]);
    lemma_fold_push::<A>(state, events, e);
}

/// Applies `events`, first to last, to `state`.
pub fn apply_all<A: Aggregate>(state: Option<A>, events: &Vec<A::Event>) -> (r: Option<A>)
    ensures
        opt_view(r) == fold_events::<A>(opt_view(state), events@),
{
    let mut cur = state;
    let mut i: usize = 0;
    while i < events.len()
        invariant
            0 <= i <= events@.len(),
            opt_view(cur) == fold_events::<A>(opt_view(state), events@.subrange(0, i as int)),
        decreases events.len() - i,
    {
        proof {
            assert(events@.subrange(0, i + 1) =~= events@.subrange(0, i as int).push(
                events@[i as int],
            ));
            lemma_fold_push::<A>(
                opt_view(state),
                events@.subrange(0, i as int),
                events@[i as int],
            );
        }
        cur = A::apply(cur, &events[i]);
        i = i + 1;
    }
    assert(events@.subrange(0, events@.len() as int) =~= events@);
    cur
}

} // verus!
