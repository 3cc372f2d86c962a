use vstd::prelude::*;

use crate::aggregate::{fold_events, opt_view, Aggregate, DomainError};
use crate::text::{append_decimal, decimal, push_text};

verus! {

/// Events recorded since the last commit, and the version the stream had
/// when recording began.
pub struct UnCommitted<E> {
    pub version: u64,
    pub events: Vec<E>,
}

impl<E> UnCommitted<E> {
    /// Nothing recorded, at version 0.
    pub fn empty() -> (r: Self)
        ensures
            r.version == 0,
            r.events@ == Seq::<E>::empty(),
    {
        UnCommitted { version: 0, events: Vec::new() }
    }

    /// Records one more event.
    pub fn push(&mut self, event: E)
        ensures
            final(self).version == old(self).version,
            final(self).events@ == old(self).events@.push(event),
    {
        self.events.push(event);
    }

    /// Records `events`, in order.
    pub fn extend(&mut self, events: Vec<E>)
        ensures
            final(self).version == old(self).version,
            final(self).events@ == old(self).events@ + events@,
    {
        let mut events = events;
        self.events.append(&mut events);
    }
}

impl<E> Default for UnCommitted<E> {
    fn default() -> (r: Self)
        ensures
            r.version == 0,
            r.events@ == Seq::<E>::empty(),
    {
        UnCommitted::empty()
    }
}

/// The text reporting a conflict between the `expected` and the `actual`
/// version, both in decimal.
pub open spec fn conflict_message(expected: u64, actual: u64) -> Seq<char> {
    "version conflict, expected is "@ + decimal(expected as nat) + ", actual is "@ + decimal(
        actual as nat,
    )
}

/// A command refused by the store because the stream moved on.
#[derive(Debug, Clone, Copy, PartialEq, Eq, Structural)]
pub struct VersionConflict {
    actual: u64,
    expected: u64,
}

impl VersionConflict {
    /// The conflict between the `expected` version and the `actual` one.
    pub fn new(actual: u64, expected: u64) -> (r: VersionConflict)
        ensures
            r.spec_actual() == actual,
            r.spec_expected() == expected,
    {
        VersionConflict { actual, expected }
    }

    pub closed spec fn spec_actual(self) -> u64 {
        self.actual
    }

    pub closed spec fn spec_expected(self) -> u64 {
        self.expected
    }

    /// The version the stream is at.
    pub fn actual(&self) -> (r: u64)
        ensures
            r == self.spec_actual(),
    {
        self.actual
    }

    /// The version the writer expected.
    pub fn expected(&self) -> (r: u64)
        ensures
            r == self.spec_expected(),
    {
        self.expected
    }

    /// The message that reports the conflict, such as
    /// `version conflict, expected is 5, actual is 3`.
    pub fn to_string(&self) -> (r: String)
        ensures
            r@ == conflict_message(self.spec_expected(), self.spec_actual()),
    {
        let mut s = String::new();
        push_text(&mut s, "version conflict, expected is ");
        append_decimal(&mut s, self.expected);
        push_text(&mut s, ", actual is ");
        append_decimal(&mut s, self.actual);
        proof {
            let a = "version conflict, expected is "@;
            let b = ", actual is "@;
            assert(s@ =~= a + decimal(self.expected as nat) + b + decimal(self.actual as nat));
        }
        s
    }
}

/// Why committing events failed: the reader or the writer of the store
/// failed, or the stream was not at the expected version.
pub enum CommitError<R, W> {
    Reader(R),
    Writer(W),
    Conflict(VersionConflict),
}

impl<R, W> CommitError<R, W> {
    /// The conflict between `expected` and `actual`.
    pub fn conflict(expected: u64, actual: u64) -> (r: Self)
        ensures
            r matches CommitError::Conflict(c) && c.spec_expected() == expected && c.spec_actual()
                == actual,
    {
        CommitError::Conflict(VersionConflict::new(actual, expected))
    }
}

/// The working copy of one aggregate: its identifier, its current state, the
/// version of the stream it was read at, and the events recorded since.
pub struct Context<A: Aggregate> {
    id: u128,
    state: Option<A>,
    uncommitted: UnCommitted<A::Event>,
    version: u64,
}

impl<A: Aggregate> Context<A> {
    pub closed spec fn spec_id(&self) -> u128 {
        self.id
    }

    pub closed spec fn spec_state(&self) -> Option<A::V> {
        opt_view(self.state)
    }

    pub closed spec fn spec_version(&self) -> u64 {
        self.version
    }

    /// The version the recorded events start from.
    pub closed spec fn spec_base(&self) -> u64 {
        self.uncommitted.version
    }

    /// The events recorded and not yet committed.
    pub closed spec fn spec_pending(&self) -> Seq<A::Event> {
        self.uncommitted.events@
    }

    /// A context for `id` with no state, at version 0, with nothing recorded.
    pub fn empty(id: u128) -> (r: Self)
        ensures
            r.spec_id() == id,
            r.spec_state() is None,
            r.spec_version() == 0,
            r.spec_base() == 0,
            r.spec_pending() == Seq::<A::Event>::empty(),
    {
        Context { id, state: None, uncommitted: UnCommitted::empty(), version: 0 }
    }

    /// A context for `id` whose state, read from the store, is `state` at
    /// `version`, with nothing recorded since.
    pub fn loaded(id: u128, state: Option<A>, version: u64) -> (r: Self)
        ensures
            r.spec_id() == id,
            r.spec_state() == opt_view(state),
            r.spec_version() == version,
            r.spec_base() == version,
            r.spec_pending() == Seq::<A::Event>::empty(),
    {
        Context { id, state, uncommitted: UnCommitted { version, events: Vec::new() }, version }
    }

    /// The identifier of the aggregate.
    pub fn id(&self) -> (r: u128)
        ensures
            r == self.spec_id(),
    {
        self.id
    }

    /// The current state, if the aggregate exists.
    pub fn as_aggregate(&self) -> (r: Option<&A>)
        ensures
            opt_view(r) == self.spec_state(),
    {
        match &self.state {
            Some(a) => Some(a),
            None => None,
        }
    }

    /// The version of the stream the state was read at.
    pub fn version(&self) -> (r: u64)
        ensures
            r == self.spec_version(),
    {
        self.version
    }

    /// The version the recorded events start from.
    pub fn uncommitted_version(&self) -> (r: u64)
        ensures
            r == self.spec_base(),
    {
        self.uncommitted.version
    }

    /// The events recorded and not yet committed.
    pub fn pending(&self) -> (r: &Vec<A::Event>)
        ensures
            r@ == self.spec_pending(),
    {
        &self.uncommitted.events
    }

    /// Handles `command` against the current state; on success the events
    /// are applied to the state and recorded.
    pub fn handle(self, command: A::Command) -> (r: Result<Self, DomainError>)
        ensures
            match r {
                Ok(c) => {
                    let n = self.spec_pending().len();
                    let events = c.spec_pending().subrange(n as int, c.spec_pending().len() as int);
                    &&& A::handle_spec(self.spec_state(), command, Ok(events))
                    &&& c.spec_pending().len() >= n
                    &&& c.spec_pending().subrange(0, n as int) == self.spec_pending()
                    &&& c.spec_state() == fold_events::<A>(self.spec_state(), events)
                    &&& c.spec_id() == self.spec_id()
                    &&& c.spec_version() == self.spec_version()
                    &&& c.spec_base() == self.spec_base()
                },
                Err(e) => A::handle_spec(self.spec_state(), command, Err(e)),
            },
    {
        let Context { id, state, mut uncommitted, version } = self;
        let ghost old_pending = uncommitted.events@;
        let events = match A::handle(state.as_ref(), command) {
            Ok(events) => events,
            Err(e) => {
                return Err(e);
            },
        };
        let next = crate::aggregate::apply_all(state, &events);
        let ghost added = events@;
        uncommitted.extend(events);
        proof {
            assert(uncommitted.events@.subrange(
                old_pending.len() as int,
                uncommitted.events@.len() as int,
            ) =~= added);
            assert(uncommitted.events@.subrange(0, old_pending.len() as int) =~= old_pending);
        }
        Ok(Context { id, state: next, uncommitted, version })
    }

    /// Handles `command` against the current state and records its events,
    /// leaving the state as it is.
    pub fn handle_command(&mut self, command: A::Command) -> (r: Result<(), DomainError>)
        ensures
            final(self).spec_id() == old(self).spec_id(),
            final(self).spec_state() == old(self).spec_state(),
            final(self).spec_version() == old(self).spec_version(),
            final(self).spec_base() == old(self).spec_base(),
            match r {
                Ok(()) => {
                    let n = old(self).spec_pending().len();
                    let events = final(self).spec_pending().subrange(
                        n as int,
                        final(self).spec_pending().len() as int,
                    );
                    &&& A::handle_spec(old(self).spec_state(), command, Ok(events))
                    &&& final(self).spec_pending().len() >= n
                    &&& final(self).spec_pending().subrange(0, n as int) == old(
                        self,
                    ).spec_pending()
                },
                Err(e) => {
                    &&& A::handle_spec(old(self).spec_state(), command, Err(e))
                    &&& final(self).spec_pending() == old(self).spec_pending()
                },
            },
    {
        let events = match A::handle(self.state.as_ref(), command) {
            Ok(events) => events,
            Err(e) => {
                return Err(e);
            },
        };
        let ghost old_pending = self.uncommitted.events@;
        let ghost added = events@;
        self.uncommitted.extend(events);
        proof {
            assert(self.uncommitted.events@.subrange(
                old_pending.len() as int,
                self.uncommitted.events@.len() as int,
            ) =~= added);
            assert(self.uncommitted.events@.subrange(0, old_pending.len() as int) =~= old_pending);
        }
        Ok(())
    }

    /// Brings the state up to date with the recorded events that it does not
    /// reflect yet: those from position `version - base` on.
    pub fn latest(self) -> (r: Self)
        requires
            latest_ready(self),
        ensures
            is_latest_of(self, r),
    {
        let Context { id, state, uncommitted, version } = self;
        let start = (version - uncommitted.version) as usize;
        let mut cur = state;
        let mut i: usize = start;
        while i < uncommitted.events.len()
            invariant
                start <= i <= uncommitted.events@.len(),
                opt_view(cur) == fold_events::<A>(
                    opt_view(state),
                    uncommitted.events@.subrange(start as int, i as int),
                ),
            decreases uncommitted.events.len() - i,
        {
            proof {
                assert(uncommitted.events@.subrange(start as int, i + 1) =~= uncommitted.events@.subrange(
                    start as int,
                    i as int,
                ).push(uncommitted.events@[i as int]));
                crate::aggregate::lemma_fold_push::<A>(
                    opt_view(state),
                    uncommitted.events@.subrange(start as int, i as int),
                    uncommitted.events@[i as int],
                );
            }
            cur = A::apply(cur, &uncommitted.events[i]);
            i = i + 1;
        }
        let version = uncommitted.version + uncommitted.events.len() as u64;
        Context { id, state: cur, uncommitted, version }
    }

    /// A copy of the context whose state reflects the recorded events from
    /// position `version - base` on, and whose version is moved on by the
    /// number of recorded events.
    pub fn rehydrate(&self) -> (r: Self)
        requires
            self.spec_base() <= self.spec_version(),
            self.spec_version() - self.spec_base() <= self.spec_pending().len(),
            self.spec_version() + self.spec_pending().len() <= u64::MAX,
        ensures
            r.spec_state() == fold_events::<A>(
                self.spec_state(),
                self.spec_pending().subrange(
                    self.spec_version() - self.spec_base(),
                    self.spec_pending().len() as int,
                ),
            ),
            r.spec_version() == self.spec_version() + self.spec_pending().len(),
            r.spec_id() == self.spec_id(),
            r.spec_base() == self.spec_base(),
            r.spec_pending().len() == self.spec_pending().len(),
            forall|i: int|
                0 <= i < self.spec_pending().len() ==> cloned::<A::Event>(
                    self.spec_pending()[i],
                    #[trigger] r.spec_pending()[i],
                ),
    {
        let start = (self.version - self.uncommitted.version) as usize;
        let state = match &self.state {
            Some(a) => {
                let b = a.clone();
                proof {
                    A::lemma_clone_keeps_value(*a, b);
                }
                Some(b)
            },
            None => None,
        };
        let mut cur = state;
        let mut i: usize = start;
        while i < self.uncommitted.events.len()
            invariant
                start <= i <= self.uncommitted.events@.len(),
                opt_view(cur) == fold_events::<A>(
                    opt_view(self.state),
                    self.uncommitted.events@.subrange(start as int, i as int),
                ),
            decreases self.uncommitted.events.len() - i,
        {
            proof {
                assert(self.uncommitted.events@.subrange(start as int, i + 1)
                    =~= self.uncommitted.events@.subrange(start as int, i as int).push(
                    self.uncommitted.events@[i as int],
                ));
                crate::aggregate::lemma_fold_push::<A>(
                    opt_view(self.state),
                    self.uncommitted.events@.subrange(start as int, i as int),
                    self.uncommitted.events@[i as int],
                );
            }
            cur = A::apply(cur, &self.uncommitted.events[i]);
            i = i + 1;
        }
        let events = self.uncommitted.events.clone();
        let version = self.version + self.uncommitted.events.len() as u64;
        Context {
            id: self.id,
            state: cur,
            uncommitted: UnCommitted { version: self.uncommitted.version, events },
            version,
        }
    }

    /// Applies one event read back from the store and moves to the next
    /// version.
    pub fn replay(&mut self, event: &A::Event)
        requires
            old(self).spec_version() < u64::MAX,
        ensures
            final(self).spec_state() == A::apply_spec(old(self).spec_state(), *event),
            final(self).spec_version() == old(self).spec_version() + 1,
            final(self).spec_id() == old(self).spec_id(),
            final(self).spec_base() == old(self).spec_base(),
            final(self).spec_pending() == old(self).spec_pending(),
    {
        let state = self.state.take();
        self.state = A::apply(state, event);
        self.version = self.version + 1;
    }

    /// Marks the recorded events as written to the store: the version moves
    /// past them, the next batch starts one version later, and nothing is
    /// recorded any more. The state is left as it is.
    pub fn mark_committed(&mut self)
        requires
            old(self).spec_base() <= old(self).spec_version(),
            old(self).spec_version() - old(self).spec_base() <= old(self).spec_pending().len(),
            old(self).spec_base() + old(self).spec_pending().len() < u64::MAX,
        ensures
            final(self).spec_version() == old(self).spec_base() + old(self).spec_pending().len(),
            final(self).spec_base() == final(self).spec_version() + 1,
            final(self).spec_pending() == Seq::<A::Event>::empty(),
            final(self).spec_state() == old(self).spec_state(),
            final(self).spec_id() == old(self).spec_id(),
    {
        self.version = self.uncommitted.version + self.uncommitted.events.len() as u64;
        self.uncommitted.version = self.version + 1;
        self.uncommitted.events.clear();
    }

    /// Hands the context to an executor that commits its events.
    pub fn commit(self) -> (r: Commiter<A>)
        ensures
            r.spec_context() == self,
    {
        Commiter { ctx: self }
    }

    /// Hands the identifier to an executor that reads the aggregate, up to
    /// `version` when one is given.
    pub fn fetch(self, version: Option<u64>) -> (r: Fetcher<A>)
        ensures
            r.spec_id() == self.spec_id(),
            r.spec_version() == version,
    {
        Fetcher { id: self.id, version, kind: core::marker::PhantomData }
    }

    /// Hands the identifier to an executor that reads the latest snapshot.
    pub fn snapshot(self) -> (r: SnapshotFetcher<A>)
        ensures
            r.spec_id() == self.spec_id(),
    {
        SnapshotFetcher { id: self.id, kind: core::marker::PhantomData }
    }
}

/// `latest` can be called on `c`: its version lies between the version the
/// recorded events start from and that plus their number, and that sum fits
/// in a `u64`.
pub open spec fn latest_ready<A: Aggregate>(c: Context<A>) -> bool {
    &&& c.spec_base() <= c.spec_version()
    &&& c.spec_version() - c.spec_base() <= c.spec_pending().len()
    &&& c.spec_base() + c.spec_pending().len() <= u64::MAX
}

/// `r` is `c` brought up to date: the recorded events from position
/// `version - base` on are applied to the state, the version moves to `base`
/// plus the number of recorded events, and the rest is kept.
pub open spec fn is_latest_of<A: Aggregate>(c: Context<A>, r: Context<A>) -> bool {
    &&& r.spec_state() == fold_events::<A>(
        c.spec_state(),
        c.spec_pending().subrange(c.spec_version() - c.spec_base(), c.spec_pending().len() as int),
    )
    &&& r.spec_version() == c.spec_base() + c.spec_pending().len()
    &&& r.spec_id() == c.spec_id()
    &&& r.spec_base() == c.spec_base()
    &&& r.spec_pending() == c.spec_pending()
}

/// Bringing a context up to date twice: the second call is allowed, applies
/// no event and changes nothing.
pub proof fn law_latest_idempotent<A: Aggregate>(c: Context<A>, d: Context<A>, e: Context<A>)
    requires
        latest_ready(c),
        is_latest_of(c, d),
    ensures
        latest_ready(d),
        is_latest_of(d, e) ==> {
            &&& e.spec_state() == d.spec_state()
            &&& e.spec_version() == d.spec_version()
            &&& e.spec_id() == d.spec_id()
            &&& e.spec_base() == d.spec_base()
            &&& e.spec_pending() == d.spec_pending()
        },
{
    let n = d.spec_pending().len();
    assert(d.spec_pending().subrange(n as int, n as int) =~= Seq::<A::Event>::empty());
}

/// Commits the events recorded in a context.
pub struct Commiter<A: Aggregate> {
    ctx: Context<A>,
}

impl<A: Aggregate> Commiter<A> {
    pub closed spec fn spec_context(self) -> Context<A> {
        self.ctx
    }

    /// The context to commit.
    pub fn into_context(self) -> (r: Context<A>)
        ensures
            r == self.spec_context(),
    {
        self.ctx
    }
}

/// Reads an aggregate's events from the store.
pub struct Fetcher<A: Aggregate> {
    id: u128,
    version: Option<u64>,
    kind: core::marker::PhantomData<A>,
}

impl<A: Aggregate> Fetcher<A> {
    pub closed spec fn spec_id(self) -> u128 {
        self.id
    }

    pub closed spec fn spec_version(self) -> Option<u64> {
        self.version
    }

    /// The aggregate to read.
    pub fn id(&self) -> (r: u128)
        ensures
            r == self.spec_id(),
    {
        self.id
    }

    /// The version to read up to, if any.
    pub fn version(&self) -> (r: Option<u64>)
        ensures
            r == self.spec_version(),
    {
        self.version
    }
}

/// Reads an aggregate's latest snapshot from the store.
pub struct SnapshotFetcher<A: Aggregate> {
    id: u128,
    kind: core::marker::PhantomData<A>,
}

impl<A: Aggregate> SnapshotFetcher<A> {
    pub closed spec fn spec_id(self) -> u128 {
        self.id
    }

    /// The aggregate to read.
    pub fn id(&self) -> (r: u128)
        ensures
            r == self.spec_id(),
    {
        self.id
    }
}

/// A stored state of an aggregate and the version it was taken at.
pub struct SnapShot<A: Aggregate> {
    pub state: A,
    pub version: u64,
}

impl<A: Aggregate> SnapShot<A> {
    /// The identifier of the aggregate the snapshot is of.
    pub fn id(&self) -> (r: u128)
        ensures
            r == A::id_of(self.state@),
    {
        self.state.aggregate_id()
    }

    /// An executor that loads this snapshot and then the events after it, up
    /// to `version`.
    pub fn loader(self, version: u64) -> (r: SnapShotLoader<A>)
        ensures
            r.snapshot == Some(self),
            r.version == version,
    {
        SnapShotLoader { snapshot: Some(self), version }
    }
}

/// Loads a snapshot and the events after it.
pub struct SnapShotLoader<A: Aggregate> {
    pub snapshot: Option<SnapShot<A>>,
    pub version: u64,
}

/// A read model's keys and the events it follows.
pub trait Projection {
    type UniqueKey;
    type SearchKey;
    type Event;
}

/// The read model that is the aggregate's own current state.
pub struct InlineProjection<A: Aggregate> {
    pub state: A,
}

impl<A: Aggregate> Projection for InlineProjection<A> {
    type UniqueKey = A::UniqueKey;
    type SearchKey = A::SearchKey;
    type Event = A::Event;
}

impl<A: Aggregate> core::ops::Deref for InlineProjection<A> {
    type Target = A;

    fn deref(&self) -> (r: &A)
        ensures
            *r == self.state,
    {
        &self.state
    }
}

impl<A: Aggregate> InlineProjection<A> {
    /// The projection of `state`.
    pub fn new(state: A) -> (r: Self)
        ensures
            r.state == state,
    {
        InlineProjection { state }
    }

    /// The aggregate state the projection holds.
    pub fn get(&self) -> (r: &A)
        ensures
            *r == self.state,
    {
        &self.state
    }
}

} // verus!
