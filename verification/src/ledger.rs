//! The relationship ledger: likes, shares and follows, each recorded as an
//! edge together with the counters that it moves.
//!
//! The ledger does not talk to the store. An operation is a `Transaction`
//! that says which command the store is to run next and takes the store's
//! reply; whoever owns the connection runs the commands. One operation is one
//! unit of work: open, insert the edge, raise the counters, commit, and roll
//! back on any failure in between.

use vstd::prelude::*;

verus! {

/// The kind of relationship that an edge records.
#[derive(Clone, Copy, Debug, PartialEq, Eq, Hash, Structural)]
pub enum Relation {
    Like,
    Share,
    Follow,
}

/// What identifies an edge: who acts, on what, and how. The store holds at
/// most one edge per key.
#[derive(Clone, Copy, Debug, PartialEq, Eq, Hash, Structural)]
pub struct EdgeKey {
    /// The user who likes, shares or follows.
    pub actor: u128,
    /// The post that is liked or shared, or the user who is followed.
    pub target: u128,
    pub relation: Relation,
}

/// The denormalized counters that the ledger maintains.
#[derive(Clone, Copy, Debug, PartialEq, Eq, Hash, Structural)]
pub enum Counter {
    /// A post's number of likes.
    Likes,
    /// A post's number of shares.
    Shares,
    /// A user's number of followers.
    Followers,
    /// The number of users that a user follows.
    Following,
}

/// One counter of one post or user.
#[derive(Clone, Copy, Debug, PartialEq, Eq, Hash, Structural)]
pub struct CounterKey {
    pub owner: u128,
    pub counter: Counter,
}

/// An operation of the ledger.
#[derive(Clone, Copy, Debug, PartialEq, Eq, Structural)]
pub enum LedgerOp {
    AddLike { post_id: u128, user_id: u128 },
    AddShare { post_id: u128, user_id: u128 },
    AddFollow { follower_id: u128, following_id: u128 },
}

/// Why an operation of the ledger did not take place. `E` is the store's
/// own error, handed on as it came.
#[derive(Debug)]
pub enum LedgerError<E> {
    /// The edge existed already.
    DuplicateEdge,
    /// A user cannot follow themselves.
    InvalidRelationship,
    /// The store failed.
    StorageFailure(E),
}

/// A command for the store.
#[derive(Clone, Copy, Debug, PartialEq, Eq, Structural)]
pub enum StoreCommand {
    /// Open a transaction.
    Begin,
    /// Insert the edge with this key.
    InsertEdge(EdgeKey),
    /// Raise this counter by one, in one atomic update.
    Increment(CounterKey),
    /// Commit the open transaction.
    Commit,
    /// Roll the open transaction back.
    Rollback,
}

/// The store's reply to a command. `R` is the row of a new edge.
#[derive(Debug)]
pub enum StoreReply<R, E> {
    /// The command was carried out and returns nothing.
    Done,
    /// The edge was inserted; this is its row.
    Inserted(R),
    /// The edge was not inserted: one with the same key exists.
    UniqueViolation,
    /// The command failed for any other reason.
    Failed(E),
}

/// Where a transaction stands: which reply it is waiting for.
#[derive(Debug)]
pub enum Phase<R, E> {
    /// `Begin` was sent.
    Opening,
    /// The edge's insert was sent.
    Inserting,
    /// The edge is in; the increment of the counter at `index` was sent.
    Counting { row: R, index: usize },
    /// All counters are raised; `Commit` was sent.
    Committing { row: R },
    /// A step failed; `Rollback` was sent.
    Aborting { error: LedgerError<E> },
}

/// One operation of the ledger in progress: a command is with the store,
/// and the transaction waits for the reply.
#[derive(Debug)]
pub struct Transaction<R, E> {
    pub op: LedgerOp,
    pub phase: Phase<R, E>,
}

/// What an operation asks of its driver.
#[derive(Debug)]
pub enum Step<R, E> {
    /// Run this command and hand the store's reply to the transaction.
    Run(Transaction<R, E>, StoreCommand),
    /// The operation is over and this is its result.
    Finish(Result<R, LedgerError<E>>),
}

impl Relation {
    /// The word under which the store files the relation.
    pub open spec fn label(self) -> Seq<char> {
        match self {
            Relation::Like => "like"@,
            Relation::Share => "share"@,
            Relation::Follow => "follow"@,
        }
    }

    /// The word under which the store files the relation.
    pub fn name(&self) -> (word: &'static str)
        ensures
            word@ == self.label(),
    {
        match self {
            Relation::Like => "like",
            Relation::Share => "share",
            Relation::Follow => "follow",
        }
    }
}

impl LedgerOp {
    /// The edge that the operation records.
    pub open spec fn edge_key(self) -> EdgeKey {
        match self {
            LedgerOp::AddLike { post_id, user_id } => EdgeKey {
                actor: user_id,
                target: post_id,
                relation: Relation::Like,
            },
            LedgerOp::AddShare { post_id, user_id } => EdgeKey {
                actor: user_id,
                target: post_id,
                relation: Relation::Share,
            },
            LedgerOp::AddFollow { follower_id, following_id } => EdgeKey {
                actor: follower_id,
                target: following_id,
                relation: Relation::Follow,
            },
        }
    }

    /// The counters that the operation raises, in the order in which it
    /// raises them.
    pub open spec fn counter_keys(self) -> Seq<CounterKey> {
        match self {
            LedgerOp::AddLike { post_id, user_id } => seq![
                CounterKey { owner: post_id, counter: Counter::Likes },
            ],
            LedgerOp::AddShare { post_id, user_id } => seq![
                CounterKey { owner: post_id, counter: Counter::Shares },
            ],
            LedgerOp::AddFollow { follower_id, following_id } => seq![
                CounterKey { owner: follower_id, counter: Counter::Following },
                CounterKey { owner: following_id, counter: Counter::Followers },
            ],
        }
    }

    /// The operation relates two different parties: it is no self-follow.
    pub open spec fn admissible(self) -> bool {
        match self {
            LedgerOp::AddFollow { follower_id, following_id } => follower_id != following_id,
            _ => true,
        }
    }

    /// The edge that the operation records.
    pub fn edge(&self) -> (key: EdgeKey)
        ensures
            key == self.edge_key(),
    {
        match *self {
            LedgerOp::AddLike { post_id, user_id } => EdgeKey {
                actor: user_id,
                target: post_id,
                relation: Relation::Like,
            },
            LedgerOp::AddShare { post_id, user_id } => EdgeKey {
                actor: user_id,
                target: post_id,
                relation: Relation::Share,
            },
            LedgerOp::AddFollow { follower_id, following_id } => EdgeKey {
                actor: follower_id,
                target: following_id,
                relation: Relation::Follow,
            },
        }
    }

    /// The counter that the operation raises at `index`, or `None` past the
    /// last one.
    pub fn counter(&self, index: usize) -> (key: Option<CounterKey>)
        ensures
            key == (if index < self.counter_keys().len() {
                Some(self.counter_keys()[index as int])
            } else {
                None
            }),
    {
        match *self {
            LedgerOp::AddLike { post_id, user_id } => if index == 0 {
                Some(CounterKey { owner: post_id, counter: Counter::Likes })
            } else {
                None
            },
            LedgerOp::AddShare { post_id, user_id } => if index == 0 {
                Some(CounterKey { owner: post_id, counter: Counter::Shares })
            } else {
                None
            },
            LedgerOp::AddFollow { follower_id, following_id } => if index == 0 {
                Some(CounterKey { owner: follower_id, counter: Counter::Following })
            } else if index == 1 {
                Some(CounterKey { owner: following_id, counter: Counter::Followers })
            } else {
                None
            },
        }
    }

    /// Tells whether the operation relates two different parties.
    pub fn is_admissible(&self) -> (yes: bool)
        ensures
            yes == self.admissible(),
    {
        match *self {
            LedgerOp::AddFollow { follower_id, following_id } => follower_id != following_id,
            _ => true,
        }
    }
}

impl<R, E> Transaction<R, E> {
    /// A transaction in the phase `Counting` waits for a counter that its
    /// operation has.
    pub open spec fn wf(self) -> bool {
        self.phase matches Phase::Counting { row, index } ==> index
            < self.op.counter_keys().len()
    }

    /// The reply is one that the command last sent can have: an insert
    /// returns a row, meets the uniqueness constraint or fails; every other
    /// command is done or fails.
    pub open spec fn expects(self, reply: StoreReply<R, E>) -> bool {
        match self.phase {
            Phase::Inserting => !(reply is Done),
            _ => reply is Done || reply is Failed,
        }
    }

    /// The transaction in its next phase, and the command for it.
    pub open spec fn moved(self, phase: Phase<R, E>, command: StoreCommand) -> Step<R, E> {
        Step::Run(Transaction { op: self.op, phase }, command)
    }

    /// The rollback that precedes a failure.
    pub open spec fn aborted(self, error: LedgerError<E>) -> Step<R, E> {
        self.moved(Phase::Aborting { error }, StoreCommand::Rollback)
    }

    /// The first step of an operation. A self-follow is refused here, before
    /// any command goes to the store; every other operation opens a
    /// transaction.
    pub open spec fn begun(op: LedgerOp) -> Step<R, E> {
        if op.admissible() {
            Step::Run(Transaction { op, phase: Phase::Opening }, StoreCommand::Begin)
        } else {
            Step::Finish(Err(LedgerError::InvalidRelationship))
        }
    }

    /// The step that follows a reply.
    ///
    /// Once the transaction is open, the edge is inserted, then each counter
    /// is raised, then the transaction is committed, and the edge's row is
    /// the result. A uniqueness violation on the insert ends in
    /// `DuplicateEdge`, any failure in `StorageFailure` with the store's own
    /// error; after the transaction was opened, either is preceded by a
    /// rollback, whose own outcome changes nothing.
    pub open spec fn advanced(self, reply: StoreReply<R, E>) -> Step<R, E> {
        match self.phase {
            Phase::Opening => match reply {
                StoreReply::Failed(e) => Step::Finish(Err(LedgerError::StorageFailure(e))),
                _ => self.moved(Phase::Inserting, StoreCommand::InsertEdge(self.op.edge_key())),
            },
            Phase::Inserting => match reply {
                StoreReply::Inserted(row) => self.moved(
                    Phase::Counting { row, index: 0 },
                    StoreCommand::Increment(self.op.counter_keys()[0]),
                ),
                StoreReply::Failed(e) => self.aborted(LedgerError::StorageFailure(e)),
                _ => self.aborted(LedgerError::DuplicateEdge),
            },
            Phase::Counting { row, index } => match reply {
                StoreReply::Failed(e) => self.aborted(LedgerError::StorageFailure(e)),
                _ => if index + 1 < self.op.counter_keys().len() {
                    self.moved(
                        Phase::Counting { row, index: (index + 1) as usize },
                        StoreCommand::Increment(self.op.counter_keys()[index + 1]),
                    )
                } else {
                    self.moved(Phase::Committing { row }, StoreCommand::Commit)
                },
            },
            Phase::Committing { row } => match reply {
                StoreReply::Failed(e) => self.aborted(LedgerError::StorageFailure(e)),
                _ => Step::Finish(Ok(row)),
            },
            Phase::Aborting { error } => Step::Finish(Err(error)),
        }
    }

    /// Starts an operation.
    pub fn begin(op: LedgerOp) -> (first: Step<R, E>)
        ensures
            first == Self::begun(op),
            first matches Step::Run(transaction, _) ==> transaction.wf(),
    {
        if op.is_admissible() {
            Step::Run(Transaction { op, phase: Phase::Opening }, StoreCommand::Begin)
        } else {
            Step::Finish(Err(LedgerError::InvalidRelationship))
        }
    }

    /// Tells whether `advance` can be called with the reply: the transaction
    /// is well formed and the reply is one that it takes.
    pub fn accepts(&self, reply: &StoreReply<R, E>) -> (yes: bool)
        ensures
            yes == (self.wf() && self.expects(*reply)),
    {
        match &self.phase {
            Phase::Inserting => match reply {
                StoreReply::Done => false,
                _ => true,
            },
            Phase::Counting { row: _, index } => match reply {
                StoreReply::Done => self.op.counter(*index).is_some(),
                StoreReply::Failed(_) => self.op.counter(*index).is_some(),
                _ => false,
            },
            _ => match reply {
                StoreReply::Done => true,
                StoreReply::Failed(_) => true,
                _ => false,
            },
        }
    }

    /// Takes the store's reply to the command last sent and says what comes
    /// next.
    pub fn advance(self, reply: StoreReply<R, E>) -> (next: Step<R, E>)
        requires
            self.wf(),
            self.expects(reply),
        ensures
            next == self.advanced(reply),
            next matches Step::Run(transaction, _) ==> transaction.wf(),
    {
        let op = self.op;
        match self.phase {
            Phase::Opening => match reply {
                StoreReply::Failed(e) => Step::Finish(Err(LedgerError::StorageFailure(e))),
                _ => Step::Run(
                    Transaction { op, phase: Phase::Inserting },
                    StoreCommand::InsertEdge(op.edge()),
                ),
            },
            Phase::Inserting => match reply {
                StoreReply::Inserted(row) => {
                    let first = op.counter(0);
                    Step::Run(
                        Transaction { op, phase: Phase::Counting { row, index: 0 } },
                        StoreCommand::Increment(first.unwrap()),
                    )
                },
                StoreReply::Failed(e) => Step::Run(
                    Transaction {
                        op,
                        phase: Phase::Aborting { error: LedgerError::StorageFailure(e) },
                    },
                    StoreCommand::Rollback,
                ),
                _ => Step::Run(
                    Transaction {
                        op,
                        phase: Phase::Aborting { error: LedgerError::DuplicateEdge },
                    },
                    StoreCommand::Rollback,
                ),
            },
            Phase::Counting { row, index } => match reply {
                StoreReply::Failed(e) => Step::Run(
                    Transaction {
                        op,
                        phase: Phase::Aborting { error: LedgerError::StorageFailure(e) },
                    },
                    StoreCommand::Rollback,
                ),
                _ => match op.counter(index + 1) {
                    Some(key) => Step::Run(
                        Transaction { op, phase: Phase::Counting { row, index: index + 1 } },
                        StoreCommand::Increment(key),
                    ),
                    None => Step::Run(
                        Transaction { op, phase: Phase::Committing { row } },
                        StoreCommand::Commit,
                    ),
                },
            },
            Phase::Committing { row } => match reply {
                StoreReply::Failed(e) => Step::Run(
                    Transaction {
                        op,
                        phase: Phase::Aborting { error: LedgerError::StorageFailure(e) },
                    },
                    StoreCommand::Rollback,
                ),
                _ => Step::Finish(Ok(row)),
            },
            Phase::Aborting { error } => Step::Finish(Err(error)),
        }
    }
}

/// The result of a listing of followers or of followed users: the rows as
/// the store returned them, or its failure as a `StorageFailure`.
pub fn listed<U, E>(rows: Result<Vec<U>, E>) -> (result: Result<Vec<U>, LedgerError<E>>)
    ensures
        result == (match rows {
            Ok(found) => Ok::<Vec<U>, LedgerError<E>>(found),
            Err(e) => Err(LedgerError::StorageFailure(e)),
        }),
{
    match rows {
        Ok(found) => Ok(found),
        Err(e) => Err(LedgerError::StorageFailure(e)),
    }
}

} // verus!
