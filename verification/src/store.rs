//! A model of the store that the ledger relies on, and what the ledger's
//! operations do to it.
//!
//! The store is reached over a network and is not part of this library, so
//! nothing here runs: the model says how a transactional store with a
//! uniqueness constraint on edges answers the commands of a `Transaction`,
//! and the laws say what every operation driven against such a store leaves
//! behind, whichever of its commands fail.

use crate::ledger::{
    Counter, CounterKey, EdgeKey, LedgerError, LedgerOp, Relation, Step, StoreCommand, StoreReply,
    Transaction,
};
use vstd::prelude::*;

verus! {

/// What the store holds for the ledger: the edges, and the counters of the
/// posts and users that exist.
#[verifier::ext_equal]
pub struct Store {
    pub edges: Set<EdgeKey>,
    pub counters: Map<CounterKey, int>,
}

/// What an open transaction has done and not yet committed: the edges that
/// it inserted, and how often it raised each counter. Raising is recorded
/// as an increment, not as a value read and written back, so the increments
/// of several transactions add up whatever their order.
#[verifier::ext_equal]
pub struct Pending {
    pub edges: Set<EdgeKey>,
    pub raised: Map<CounterKey, nat>,
}

/// A connection to the store: what is committed, and the work of the
/// transaction that is open on the connection, if one is.
#[verifier::ext_equal]
pub struct Session {
    pub durable: Store,
    pub pending: Option<Pending>,
}

/// The edge counts toward the counter.
pub open spec fn counts_toward(edge: EdgeKey, key: CounterKey) -> bool {
    match key.counter {
        Counter::Likes => edge.relation == Relation::Like && edge.target == key.owner,
        Counter::Shares => edge.relation == Relation::Share && edge.target == key.owner,
        Counter::Followers => edge.relation == Relation::Follow && edge.target == key.owner,
        Counter::Following => edge.relation == Relation::Follow && edge.actor == key.owner,
    }
}

impl Pending {
    /// The work of a transaction that has just been opened.
    pub open spec fn nothing() -> Pending {
        Pending { edges: Set::empty(), raised: Map::empty() }
    }

    /// How often the transaction has raised a counter.
    pub open spec fn raises(self, key: CounterKey) -> nat {
        if self.raised.dom().contains(key) {
            self.raised[key]
        } else {
            0
        }
    }

    /// The work with one more edge inserted.
    pub open spec fn with_edge(self, key: EdgeKey) -> Pending {
        Pending { edges: self.edges.insert(key), raised: self.raised }
    }

    /// The work with a counter raised once more.
    pub open spec fn with_raise(self, key: CounterKey) -> Pending {
        Pending { edges: self.edges, raised: self.raised.insert(key, self.raises(key) + 1) }
    }

    /// The work of an operation that has inserted its edge and raised each
    /// of its counters.
    pub open spec fn of(op: LedgerOp) -> Pending {
        let keys = op.counter_keys();
        let inserted = Pending::nothing().with_edge(op.edge_key());
        if keys.len() == 2 {
            inserted.with_raise(keys[0]).with_raise(keys[1])
        } else {
            inserted.with_raise(keys[0])
        }
    }
}

impl Store {
    /// The store as a transaction sees it, and as it is once the
    /// transaction is committed: with the edges that the transaction
    /// inserted, and each counter that exists higher by the number of times
    /// that the transaction raised it.
    pub open spec fn plus(self, work: Pending) -> Store {
        Store {
            edges: self.edges.union(work.edges),
            counters: Map::new(
                |key: CounterKey| self.counters.dom().contains(key),
                |key: CounterKey| self.counters[key] + work.raises(key),
            ),
        }
    }

    /// The store with one more edge.
    pub open spec fn with_edge(self, key: EdgeKey) -> Store {
        Store { edges: self.edges.insert(key), counters: self.counters }
    }

    /// The store after `UPDATE .. SET counter = counter + 1` on one row: the
    /// counter is one higher, or nothing has changed where the row is absent.
    pub open spec fn raised(self, key: CounterKey) -> Store {
        if self.counters.dom().contains(key) {
            Store { edges: self.edges, counters: self.counters.insert(key, self.counters[key] + 1) }
        } else {
            self
        }
    }

    /// The store after an operation has taken effect: the edge is in, and
    /// each of the operation's counters is one higher.
    pub open spec fn applied(self, op: LedgerOp) -> Store {
        let keys = op.counter_keys();
        let inserted = self.with_edge(op.edge_key());
        if keys.len() == 2 {
            inserted.raised(keys[0]).raised(keys[1])
        } else {
            inserted.raised(keys[0])
        }
    }

    /// The number of edges that count toward a counter.
    pub open spec fn tally(self, key: CounterKey) -> nat {
        self.edges.filter(|edge: EdgeKey| counts_toward(edge, key)).len()
    }

    /// Every counter equals the number of edges that count toward it.
    pub open spec fn consistent(self) -> bool {
        &&& self.edges.finite()
        &&& forall|key: CounterKey| #[trigger]
            self.counters.dom().contains(key) ==> self.counters[key] == self.tally(key)
    }

    /// The users who follow `user`.
    pub open spec fn followers_of(self, user: u128) -> Set<u128> {
        Set::new(
            |follower: u128|
                self.edges.contains(
                    EdgeKey { actor: follower, target: user, relation: Relation::Follow },
                ),
        )
    }

    /// The users whom `user` follows.
    pub open spec fn followed_by(self, user: u128) -> Set<u128> {
        Set::new(
            |followed: u128|
                self.edges.contains(
                    EdgeKey { actor: user, target: followed, relation: Relation::Follow },
                ),
        )
    }
}

impl Session {
    /// A connection with no transaction open.
    pub open spec fn settled(store: Store) -> Session {
        Session { durable: store, pending: None }
    }

    /// The state that a command sees: what is committed, with the work of
    /// the open transaction.
    pub open spec fn current(self) -> Store {
        match self.pending {
            Some(work) => self.durable.plus(work),
            None => self.durable,
        }
    }

    /// The session after an insert. Outside a transaction a command takes
    /// effect at once.
    pub open spec fn inserted(self, key: EdgeKey) -> Session {
        match self.pending {
            Some(work) => Session { durable: self.durable, pending: Some(work.with_edge(key)) },
            None => Session::settled(self.durable.with_edge(key)),
        }
    }

    /// The session after an increment.
    pub open spec fn raised(self, key: CounterKey) -> Session {
        match self.pending {
            Some(work) => Session { durable: self.durable, pending: Some(work.with_raise(key)) },
            None => Session::settled(self.durable.raised(key)),
        }
    }

    /// The session once its transaction is gone without effect.
    pub open spec fn abandoned(self) -> Session {
        Session { durable: self.durable, pending: None }
    }
}

/// How the store answers a command. With a fault the command has no effect
/// and fails with that fault; a connection on which even the rollback fails
/// loses its transaction all the same. Without one, an insert meets the
/// uniqueness constraint exactly where the edge exists, and every other
/// command is carried out.
pub open spec fn respond<R, E>(
    session: Session,
    command: StoreCommand,
    fault: Option<E>,
    row: R,
) -> (Session, StoreReply<R, E>) {
    match fault {
        Some(e) => (
            if command is Rollback {
                session.abandoned()
            } else {
                session
            },
            StoreReply::Failed(e),
        ),
        None => match command {
            StoreCommand::Begin => (
                Session { durable: session.durable, pending: Some(Pending::nothing()) },
                StoreReply::Done,
            ),
            StoreCommand::InsertEdge(key) => if session.current().edges.contains(key) {
                (session, StoreReply::UniqueViolation)
            } else {
                (session.inserted(key), StoreReply::Inserted(row))
            },
            StoreCommand::Increment(key) => (session.raised(key), StoreReply::Done),
            StoreCommand::Commit => (Session::settled(session.current()), StoreReply::Done),
            StoreCommand::Rollback => (session.abandoned(), StoreReply::Done),
        },
    }
}

/// The most commands that one operation sends.
pub open spec fn max_commands() -> nat {
    6
}

/// Carries an operation on from `step`: each command goes to the store,
/// whose answer depends on `faults` at the number of commands sent so far,
/// and the reply goes back to the transaction. The result is the session at
/// the end and the operation's result, or `None` where the transaction is
/// handed a reply that it does not take, or is not over after `fuel`
/// commands.
pub open spec fn driven<R, E>(
    step: Step<R, E>,
    session: Session,
    faults: spec_fn(nat) -> Option<E>,
    row: R,
    sent: nat,
    fuel: nat,
) -> Option<(Session, Result<R, LedgerError<E>>)>
    decreases fuel,
{
    match step {
        Step::Finish(result) => Some((session, result)),
        Step::Run(transaction, command) => {
            let (next_session, reply) = respond(session, command, faults(sent), row);
            if fuel == 0 || !transaction.wf() || !transaction.expects(reply) {
                None
            } else {
                driven(
                    transaction.advanced(reply),
                    next_session,
                    faults,
                    row,
                    sent + 1,
                    (fuel - 1) as nat,
                )
            }
        },
    }
}

/// One operation of the ledger, carried out against the store from start to
/// finish. `row` is the row that the store makes of the edge.
pub open spec fn performed<R, E>(
    op: LedgerOp,
    session: Session,
    faults: spec_fn(nat) -> Option<E>,
    row: R,
) -> Option<(Session, Result<R, LedgerError<E>>)> {
    driven(Transaction::<R, E>::begun(op), session, faults, row, 0, max_commands())
}

/// No command fails.
pub open spec fn unfailing<E>(faults: spec_fn(nat) -> Option<E>) -> bool {
    forall|sent: nat| #[trigger] faults(sent) is None
}

/// Committing the whole work of an operation is the operation taking effect.
pub proof fn lemma_whole_work_is_the_operation(store: Store, op: LedgerOp)
    ensures
        store.plus(Pending::of(op)) == store.applied(op),
{
}

/// Every operation comes to an end within `max_commands` commands, and is
/// never handed a reply that it does not take.
pub proof fn lemma_operation_finishes<R, E>(
    op: LedgerOp,
    session: Session,
    faults: spec_fn(nat) -> Option<E>,
    row: R,
)
    ensures
        performed(op, session, faults, row) is Some,
{
    reveal_with_fuel(driven, 7);
}

/// An operation takes effect as a whole or not at all. Where it succeeds,
/// the edge was new, its row is the result, and the committed state has the
/// edge and each counter raised by one. Where it fails, the committed state
/// is what it was. Either way no transaction is left open.
pub proof fn lemma_all_or_nothing<R, E>(
    op: LedgerOp,
    store: Store,
    faults: spec_fn(nat) -> Option<E>,
    row: R,
)
    ensures
        performed(op, Session::settled(store), faults, row) matches Some((after, result)) && (
        match result {
            Ok(inserted) => inserted == row && op.admissible() && !store.edges.contains(
                op.edge_key(),
            ) && after == Session::settled(store.applied(op)),
            Err(_) => after == Session::settled(store),
        }),
{
    reveal_with_fuel(driven, 7);
}

/// Against a store that does not fail, an operation is refused as
/// `InvalidRelationship` where it is a self-follow, else as `DuplicateEdge`
/// where the edge exists, and succeeds otherwise.
pub proof fn lemma_outcome_without_faults<R, E>(
    op: LedgerOp,
    store: Store,
    faults: spec_fn(nat) -> Option<E>,
    row: R,
)
    requires
        unfailing(faults),
    ensures
        performed(op, Session::settled(store), faults, row) matches Some((_, result)) && result == (
        if !op.admissible() {
            Err::<R, LedgerError<E>>(LedgerError::InvalidRelationship)
        } else if store.edges.contains(op.edge_key()) {
            Err::<R, LedgerError<E>>(LedgerError::DuplicateEdge)
        } else {
            Ok::<R, LedgerError<E>>(row)
        }),
{
    reveal_with_fuel(driven, 7);
}

/// A `StorageFailure` carries a fault of the store as it came, and comes
/// only where the store failed.
pub proof fn lemma_storage_failure_is_the_stores<R, E>(
    op: LedgerOp,
    store: Store,
    faults: spec_fn(nat) -> Option<E>,
    row: R,
)
    ensures
        performed(op, Session::settled(store), faults, row) matches Some(
            (_, Err(LedgerError::StorageFailure(e))),
        ) ==> exists|sent: nat| sent < max_commands() && #[trigger] faults(sent) == Some(e),
{
    reveal_with_fuel(driven, 7);
}

/// What an operation that takes effect changes: the edge is added, each
/// counter that the operation names and that exists is one higher, and
/// nothing else is touched.
pub proof fn lemma_effect_of_operation(op: LedgerOp, store: Store)
    requires
        op.admissible(),
    ensures
        store.applied(op).edges == store.edges.insert(op.edge_key()),
        store.applied(op).counters.dom() == store.counters.dom(),
        forall|key: CounterKey| #[trigger]
            store.counters.dom().contains(key) ==> store.applied(op).counters[key]
                == store.counters[key] + (if op.counter_keys().contains(key) {
                1int
            } else {
                0int
            }),
{
}

/// A self-follow is refused as `InvalidRelationship` before any command is
/// sent: the store is not written, and not even asked.
pub proof fn lemma_self_follow_refused<R, E>(
    user: u128,
    session: Session,
    faults: spec_fn(nat) -> Option<E>,
    row: R,
)
    ensures
        Transaction::<R, E>::begun(LedgerOp::AddFollow { follower_id: user, following_id: user })
            == Step::<R, E>::Finish(Err(LedgerError::InvalidRelationship)),
        performed(
            LedgerOp::AddFollow { follower_id: user, following_id: user },
            session,
            faults,
            row,
        ) == Some((session, Err::<R, LedgerError<E>>(LedgerError::InvalidRelationship))),
{
    reveal_with_fuel(driven, 1);
}

/// The same operation twice, against a store that does not fail and that
/// did not have the edge: the first takes effect, the second is refused as
/// `DuplicateEdge`, and what is left is one edge and one increment of each
/// counter.
pub proof fn lemma_repeated_operation_is_duplicate<R, E>(
    op: LedgerOp,
    store: Store,
    first_faults: spec_fn(nat) -> Option<E>,
    second_faults: spec_fn(nat) -> Option<E>,
    first_row: R,
    second_row: R,
)
    requires
        op.admissible(),
        !store.edges.contains(op.edge_key()),
        unfailing(first_faults),
        unfailing(second_faults),
    ensures
        ({
            let first = performed(op, Session::settled(store), first_faults, first_row).unwrap();
            let second = performed(op, first.0, second_faults, second_row).unwrap();
            &&& first.1 == Ok::<R, LedgerError<E>>(first_row)
            &&& second.1 == Err::<R, LedgerError<E>>(LedgerError::DuplicateEdge)
            &&& second.0 == Session::settled(store.applied(op))
            &&& second.0.durable.edges == store.edges.insert(op.edge_key())
            &&& forall|key: CounterKey| #[trigger]
                store.counters.dom().contains(key) ==> second.0.durable.counters[key]
                    == store.counters[key] + (if op.counter_keys().contains(key) {
                    1int
                } else {
                    0int
                })
        }),
{
    lemma_outcome_without_faults(op, store, first_faults, first_row);
    lemma_all_or_nothing(op, store, first_faults, first_row);
    lemma_outcome_without_faults(op, store.applied(op), second_faults, second_row);
    lemma_all_or_nothing(op, store.applied(op), second_faults, second_row);
}

/// Two users like the same post, against a store that does not fail and
/// that had neither like. Whichever of the two is served first, both
/// succeed, and what is left is the same: two distinct edges, and a like
/// counter that is higher by exactly two.
pub proof fn lemma_likes_by_two_users<R, E>(
    post_id: u128,
    one: u128,
    other: u128,
    store: Store,
    faults: spec_fn(nat) -> Option<E>,
    one_row: R,
    other_row: R,
)
    requires
        one != other,
        unfailing(faults),
        !store.edges.contains(LedgerOp::AddLike { post_id, user_id: one }.edge_key()),
        !store.edges.contains(LedgerOp::AddLike { post_id, user_id: other }.edge_key()),
        store.counters.dom().contains(CounterKey { owner: post_id, counter: Counter::Likes }),
    ensures
        ({
            let like_one = LedgerOp::AddLike { post_id, user_id: one };
            let like_other = LedgerOp::AddLike { post_id, user_id: other };
            let likes = CounterKey { owner: post_id, counter: Counter::Likes };
            let a = performed(like_one, Session::settled(store), faults, one_row).unwrap();
            let ab = performed(like_other, a.0, faults, other_row).unwrap();
            let b = performed(like_other, Session::settled(store), faults, other_row).unwrap();
            let ba = performed(like_one, b.0, faults, one_row).unwrap();
            &&& a.1 == Ok::<R, LedgerError<E>>(one_row)
            &&& ab.1 == Ok::<R, LedgerError<E>>(other_row)
            &&& b.1 == Ok::<R, LedgerError<E>>(other_row)
            &&& ba.1 == Ok::<R, LedgerError<E>>(one_row)
            &&& ab.0 == ba.0
            &&& ab.0.pending is None
            &&& like_one.edge_key() != like_other.edge_key()
            &&& ab.0.durable.edges == store.edges.insert(like_one.edge_key()).insert(
                like_other.edge_key(),
            )
            &&& ab.0.durable.counters == store.counters.insert(likes, store.counters[likes] + 2)
        }),
{
    let like_one = LedgerOp::AddLike { post_id, user_id: one };
    let like_other = LedgerOp::AddLike { post_id, user_id: other };
    lemma_outcome_without_faults(like_one, store, faults, one_row);
    lemma_all_or_nothing(like_one, store, faults, one_row);
    lemma_outcome_without_faults(like_other, store.applied(like_one), faults, other_row);
    lemma_all_or_nothing(like_other, store.applied(like_one), faults, other_row);
    lemma_outcome_without_faults(like_other, store, faults, other_row);
    lemma_all_or_nothing(like_other, store, faults, other_row);
    lemma_outcome_without_faults(like_one, store.applied(like_other), faults, one_row);
    lemma_all_or_nothing(like_one, store.applied(like_other), faults, one_row);
}

/// A follow moves both counters or neither, whichever commands fail: where
/// it succeeds, the follower follows one more and the followed user has one
/// more follower; where it fails, both counters are what they were.
pub proof fn lemma_follow_moves_both_counters<R, E>(
    follower_id: u128,
    following_id: u128,
    store: Store,
    faults: spec_fn(nat) -> Option<E>,
    row: R,
)
    requires
        store.counters.dom().contains(
            CounterKey { owner: follower_id, counter: Counter::Following },
        ),
        store.counters.dom().contains(
            CounterKey { owner: following_id, counter: Counter::Followers },
        ),
    ensures
        ({
            let following = CounterKey { owner: follower_id, counter: Counter::Following };
            let followers = CounterKey { owner: following_id, counter: Counter::Followers };
            let (after, result) = performed(
                LedgerOp::AddFollow { follower_id, following_id },
                Session::settled(store),
                faults,
                row,
            ).unwrap();
            let moved: int = if result is Ok {
                1
            } else {
                0
            };
            &&& after.pending is None
            &&& after.durable.counters[following] == store.counters[following] + moved
            &&& after.durable.counters[followers] == store.counters[followers] + moved
            &&& after.durable.counters == store.counters.insert(
                following,
                store.counters[following] + moved,
            ).insert(followers, store.counters[followers] + moved)
        }),
{
    lemma_all_or_nothing(LedgerOp::AddFollow { follower_id, following_id }, store, faults, row);
}

/// A follow that succeeds shows in both listings: the follower is among the
/// followers of the followed user, who is among those whom the follower
/// follows; no other listing changes.
pub proof fn lemma_follow_is_listed(follower_id: u128, following_id: u128, store: Store)
    requires
        follower_id != following_id,
    ensures
        ({
            let after = store.applied(LedgerOp::AddFollow { follower_id, following_id });
            &&& after.followers_of(following_id) == store.followers_of(following_id).insert(
                follower_id,
            )
            &&& after.followed_by(follower_id) == store.followed_by(follower_id).insert(
                following_id,
            )
            &&& forall|user: u128|
                user != following_id ==> #[trigger] after.followers_of(user) == store.followers_of(
                    user,
                )
            &&& forall|user: u128|
                user != follower_id ==> #[trigger] after.followed_by(user) == store.followed_by(
                    user,
                )
        }),
{
}

/// Adding a new edge raises the tally of exactly the counters toward which
/// the edge counts.
proof fn lemma_tally_with_edge(store: Store, edge: EdgeKey, key: CounterKey)
    requires
        store.edges.finite(),
        !store.edges.contains(edge),
    ensures
        store.with_edge(edge).tally(key) == store.tally(key) + (if counts_toward(edge, key) {
            1int
        } else {
            0int
        }),
{
    let counted = |e: EdgeKey| counts_toward(e, key);
    store.edges.lemma_len_filter(counted);
    if counts_toward(edge, key) {
        assert(store.edges.insert(edge).filter(counted) =~= store.edges.filter(counted).insert(
            edge,
        ));
    } else {
        assert(store.edges.insert(edge).filter(counted) =~= store.edges.filter(counted));
    }
}

/// An operation that takes effect on a new edge keeps every counter equal
/// to the number of edges that count toward it.
pub proof fn lemma_operation_keeps_consistency(op: LedgerOp, store: Store)
    requires
        store.consistent(),
        op.admissible(),
        !store.edges.contains(op.edge_key()),
    ensures
        store.applied(op).consistent(),
{
    let changed = store.applied(op);
    assert forall|key: CounterKey| #[trigger] changed.counters.dom().contains(key) implies
        changed.counters[key] == changed.tally(key) by {
        lemma_tally_with_edge(store, op.edge_key(), key);
    }
}

/// Where every counter equals the number of edges that count toward it, it
/// still does after any operation, whichever commands fail.
pub proof fn lemma_counters_stay_consistent<R, E>(
    op: LedgerOp,
    store: Store,
    faults: spec_fn(nat) -> Option<E>,
    row: R,
)
    requires
        store.consistent(),
    ensures
        performed(op, Session::settled(store), faults, row) matches Some((after, _))
            && after.pending is None && after.durable.consistent(),
{
    lemma_all_or_nothing(op, store, faults, row);
    if performed(op, Session::settled(store), faults, row).unwrap().1 is Ok {
        lemma_operation_keeps_consistency(op, store);
    }
}

} // verus!
