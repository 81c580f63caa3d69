//! Several connections at once: the ledger's operations against one store,
//! with their commands interleaved in any order.
//!
//! Each client drives one operation over its own connection. The store lets
//! a transaction see what is committed and its own work; an insert of an
//! edge that another open transaction has inserted waits until that
//! transaction is over. Nothing here runs: the laws say what every
//! interleaving leaves behind.

use crate::ledger::{
    Counter, CounterKey, EdgeKey, LedgerError, LedgerOp, Phase, Step, StoreCommand, Transaction,
};
use crate::store::{
    lemma_effect_of_operation, lemma_operation_keeps_consistency, lemma_whole_work_is_the_operation,
    max_commands, respond, unfailing, Pending, Session, Store,
};
use vstd::prelude::*;

verus! {

/// What a client asks for, and what the store will do about it: the
/// operation, the row that the store makes of the edge, and the command, by
/// its number, at which the store fails.
pub struct Request<R, E> {
    pub op: LedgerOp,
    pub row: R,
    pub faults: spec_fn(nat) -> Option<E>,
}

/// A client in the middle of its operation.
pub struct Client<R, E> {
    pub request: Request<R, E>,
    /// What the operation asks for next, or its result.
    pub step: Step<R, E>,
    /// The work of the transaction open on the client's connection.
    pub pending: Option<Pending>,
    /// The number of commands sent so far.
    pub sent: nat,
}

/// The store and its clients.
pub struct World<R, E> {
    /// What is committed.
    pub durable: Store,
    pub clients: Seq<Client<R, E>>,
    /// The clients whose transactions were committed, in the order of their
    /// commits.
    pub log: Seq<int>,
}

impl<R, E> Client<R, E> {
    /// A client that has not sent anything yet.
    pub open spec fn arriving(request: Request<R, E>) -> Client<R, E> {
        Client { request, step: Transaction::begun(request.op), pending: None, sent: 0 }
    }

    /// The client's open transaction has inserted the edge.
    pub open spec fn holds(self, key: EdgeKey) -> bool {
        self.pending matches Some(work) && work.edges.contains(key)
    }

    /// The store has failed the client with this fault.
    pub open spec fn failed_with(self, e: E) -> bool {
        exists|number: nat|
            number < self.sent && #[trigger] (self.request.faults)(number) == Some(e)
    }

    /// The work that the client's transaction has done when it waits for
    /// the reply to the increment at `index`: the edge, and the counters
    /// before `index`.
    pub open spec fn work_before(self, index: int) -> Pending {
        let inserted = Pending::nothing().with_edge(self.request.op.edge_key());
        if index == 0 {
            inserted
        } else {
            inserted.with_raise(self.request.op.counter_keys()[0])
        }
    }
}

impl Store {
    /// The store after the operations have taken effect one after another.
    pub open spec fn applied_each(self, ops: Seq<LedgerOp>) -> Store
        decreases ops.len(),
    {
        if ops.len() == 0 {
            self
        } else {
            self.applied_each(ops.drop_last()).applied(ops.last())
        }
    }
}

impl<R, E> World<R, E> {
    /// The world in which the clients arrive.
    pub open spec fn start(store: Store, requests: Seq<Request<R, E>>) -> World<R, E> {
        World {
            durable: store,
            clients: Seq::new(requests.len(), |i: int| Client::arriving(requests[i])),
            log: Seq::empty(),
        }
    }

    /// Another client's open transaction has inserted the edge.
    pub open spec fn held_by_other(self, who: int, key: EdgeKey) -> bool {
        exists|other: int|
            0 <= other < self.clients.len() && other != who && #[trigger] self.clients[other].holds(
                key,
            )
    }

    /// The client's next command is an insert that has to wait: the store
    /// would carry it out, but another open transaction has inserted the
    /// edge.
    pub open spec fn waits(self, who: int) -> bool {
        let client = self.clients[who];
        &&& client.step matches Step::Run(_, StoreCommand::InsertEdge(key))
        &&& (client.request.faults)(client.sent) is None
        &&& self.held_by_other(who, key)
    }

    /// The world after one client has had its turn: its command went to the
    /// store and the reply to its transaction. Nothing happens where the
    /// client's operation is over, or where its insert has to wait.
    pub open spec fn moved(self, who: int) -> World<R, E> {
        if !(0 <= who < self.clients.len()) {
            self
        } else {
            let client = self.clients[who];
            match client.step {
                Step::Finish(_) => self,
                Step::Run(transaction, command) => {
                    let (session, reply) = respond(
                        Session { durable: self.durable, pending: client.pending },
                        command,
                        (client.request.faults)(client.sent),
                        client.request.row,
                    );
                    if self.waits(who) || !transaction.wf() || !transaction.expects(reply) {
                        self
                    } else {
                        World {
                            durable: session.durable,
                            clients: self.clients.update(
                                who,
                                Client {
                                    request: client.request,
                                    step: transaction.advanced(reply),
                                    pending: session.pending,
                                    sent: client.sent + 1,
                                },
                            ),
                            log: if command is Commit && reply is Done {
                                self.log.push(who)
                            } else {
                                self.log
                            },
                        }
                    }
                },
            }
        }
    }

    /// The world after the clients have had their turns in the order of the
    /// schedule.
    pub open spec fn after(self, schedule: Seq<int>) -> World<R, E>
        decreases schedule.len(),
    {
        if schedule.len() == 0 {
            self
        } else {
            self.after(schedule.drop_last()).moved(schedule.last())
        }
    }

    /// The clients are those of the requests.
    pub open spec fn serves(self, requests: Seq<Request<R, E>>) -> bool {
        &&& self.clients.len() == requests.len()
        &&& forall|who: int|
            0 <= who < self.clients.len() ==> (#[trigger] self.clients[who]).request
                == requests[who]
    }

    /// The commands that the first `count` clients can still send.
    pub open spec fn left(self, count: int) -> int
        decreases count,
    {
        if count <= 0 {
            0
        } else {
            self.left(count - 1) + max_commands() - self.clients[count - 1].sent
        }
    }

    /// Every client's operation is over.
    pub open spec fn quiet(self) -> bool {
        forall|who: int|
            0 <= who < self.clients.len() ==> (#[trigger] self.clients[who]).step is Finish
    }

    /// The operation of a client.
    pub open spec fn op_of(self, who: int) -> LedgerOp {
        self.clients[who].request.op
    }

    /// The operations that were committed, in the order of their commits.
    pub open spec fn committed(self) -> Seq<LedgerOp> {
        Seq::new(self.log.len(), |at: int| self.op_of(self.log[at]))
    }

    /// The client's transaction was committed.
    pub open spec fn has_committed(self, who: int) -> bool {
        exists|at: int| 0 <= at < self.log.len() && #[trigger] self.log[at] == who
    }

    /// A client stands where its operation says, and its result says what
    /// happened.
    pub open spec fn client_inv(self, who: int) -> bool {
        let client = self.clients[who];
        let op = client.request.op;
        let key = op.edge_key();
        &&& client.sent <= max_commands()
        &&& match client.step {
            Step::Finish(result) => {
                &&& client.pending is None
                &&& match result {
                    Ok(row) => row == client.request.row && self.has_committed(who),
                    Err(LedgerError::InvalidRelationship) => !op.admissible(),
                    Err(LedgerError::DuplicateEdge) => self.durable.edges.contains(key),
                    Err(LedgerError::StorageFailure(e)) => client.failed_with(e),
                }
                &&& result is Err ==> !self.has_committed(who)
            },
            Step::Run(transaction, command) => {
                &&& transaction.op == op
                &&& transaction.wf()
                &&& op.admissible()
                &&& !self.has_committed(who)
                &&& match transaction.phase {
                    Phase::Opening => command == StoreCommand::Begin && client.pending is None
                        && client.sent == 0,
                    Phase::Inserting => command == StoreCommand::InsertEdge(key) && client.pending
                        == Some(Pending::nothing()) && client.sent == 1,
                    Phase::Counting { row, index } => {
                        &&& row == client.request.row
                        &&& command == StoreCommand::Increment(op.counter_keys()[index as int])
                        &&& client.pending == Some(client.work_before(index as int))
                        &&& !self.durable.edges.contains(key)
                        &&& client.sent == 2 + index
                    },
                    Phase::Committing { row } => {
                        &&& row == client.request.row
                        &&& command == StoreCommand::Commit
                        &&& client.pending == Some(Pending::of(op))
                        &&& !self.durable.edges.contains(key)
                        &&& client.sent <= 4
                    },
                    Phase::Aborting { error } => {
                        &&& command == StoreCommand::Rollback
                        &&& client.pending is Some
                        &&& client.sent <= 5
                        &&& match error {
                            LedgerError::InvalidRelationship => false,
                            LedgerError::DuplicateEdge => self.durable.edges.contains(key),
                            LedgerError::StorageFailure(e) => client.failed_with(e),
                        }
                    },
                }
            },
        }
    }

    /// What holds of the world at every moment.
    pub open spec fn inv(self, base: Store) -> bool {
        // every client stands where its operation says
        &&& forall|who: int| 0 <= who < self.clients.len() ==> #[trigger] self.client_inv(who)
        // an edge is held by one open transaction at most, the one whose
        // operation inserts it
        &&& forall|one: int, other: int, key: EdgeKey|
            0 <= one < self.clients.len() && 0 <= other < self.clients.len() && one != other
                && #[trigger] self.clients[one].holds(key)
                ==> !#[trigger] self.clients[other].holds(key)
        &&& forall|who: int, key: EdgeKey|
            0 <= who < self.clients.len() && #[trigger] self.clients[who].holds(key) ==> key
                == self.op_of(who).edge_key()
        // the log names clients, each once, whose edges were new and differ
        &&& forall|at: int|
            0 <= at < self.log.len() ==> 0 <= #[trigger] self.log[at] < self.clients.len()
        &&& forall|one: int, other: int|
            0 <= one < other < self.log.len() ==> {
                &&& #[trigger] self.log[one] != #[trigger] self.log[other]
                &&& self.op_of(self.log[one]).edge_key() != self.op_of(self.log[other]).edge_key()
            }
        &&& forall|at: int|
            0 <= at < self.log.len() ==> !base.edges.contains(
                self.op_of(#[trigger] self.log[at]).edge_key(),
            ) && self.op_of(self.log[at]).admissible()
        // what is committed is what was there, changed by whole operations
        &&& self.durable == base.applied_each(self.committed())
        &&& forall|key: EdgeKey|
            self.durable.edges.contains(key) <==> base.edges.contains(key) || exists|at: int|
                0 <= at < self.log.len() && self.op_of(#[trigger] self.log[at]).edge_key() == key
        &&& base.consistent() ==> self.durable.consistent()
    }
}

/// A turn that commits nothing keeps what holds of the world.
proof fn lemma_quiet_turn<R, E>(world: World<R, E>, base: Store, who: int)
    requires
        world.inv(base),
        world.moved(who).durable == world.durable,
        world.moved(who).log == world.log,
    ensures
        world.moved(who).inv(base),
{
    let next = world.moved(who);
    if next != world {
        assert(world.client_inv(who));
        assert(next.committed() =~= world.committed());
        assert forall|other: int| 0 <= other < next.clients.len() implies #[trigger]
            next.client_inv(other) by {
            if other != who {
                assert(world.client_inv(other));
            }
        }
        // an insert that went through did not have to wait: nobody else
        // holds the edge
        assert forall|one: int, other: int, key: EdgeKey|
            0 <= one < next.clients.len() && 0 <= other < next.clients.len() && one != other
                && #[trigger] next.clients[one].holds(key) implies !#[trigger]
            next.clients[other].holds(key) by {
            if next.clients[other].holds(key) && !world.clients[who].holds(key) {
                if one == who {
                    assert(world.clients[other].holds(key));
                } else if other == who {
                    assert(world.clients[one].holds(key));
                }
            }
        }
    }
}

/// A turn in which a transaction is committed keeps what holds of the
/// world.
proof fn lemma_commit_turn<R, E>(world: World<R, E>, base: Store, who: int)
    requires
        world.inv(base),
        0 <= who < world.clients.len(),
        world.clients[who].step matches Step::Run(_, StoreCommand::Commit),
        (world.clients[who].request.faults)(world.clients[who].sent) is None,
    ensures
        world.moved(who).inv(base),
{
    let next = world.moved(who);
    let op = world.op_of(who);
    let key = op.edge_key();
    assert(world.client_inv(who));
    lemma_whole_work_is_the_operation(world.durable, op);
    // the log grows by this client, and by nobody else
    assert forall|other: int| 0 <= other < next.clients.len() && other != who implies
        next.has_committed(other) == world.has_committed(other) by {
        if world.has_committed(other) {
            let at = choose|at: int| 0 <= at < world.log.len() && #[trigger] world.log[at] == other;
            assert(next.log[at] == other);
        }
    }
    // the edge was held by this client alone, so that the others' edges
    // are as new as they were
    assert(world.clients[who].holds(key));
    assert forall|other: int| 0 <= other < next.clients.len() implies #[trigger]
        next.client_inv(other) by {
        if other != who {
            assert(world.client_inv(other));
            let theirs = world.op_of(other).edge_key();
            if let Step::Run(transaction, _) = world.clients[other].step {
                if transaction.phase is Counting || transaction.phase is Committing {
                    assert(world.clients[other].holds(theirs));
                    assert(theirs != key);
                }
            }
        } else {
            assert(next.log[world.log.len() as int] == who);
        }
    }
    // what was committed before, and then this operation
    assert(next.committed().drop_last() =~= world.committed());
    assert(next.durable == base.applied_each(next.committed()));
    assert forall|held: EdgeKey|
        next.durable.edges.contains(held) <==> base.edges.contains(held) || exists|at: int|
            0 <= at < next.log.len() && next.op_of(#[trigger] next.log[at]).edge_key() == held by {
        if next.durable.edges.contains(held) && !base.edges.contains(held) && held != key {
            let at = choose|at: int|
                0 <= at < world.log.len() && world.op_of(#[trigger] world.log[at]).edge_key()
                    == held;
            assert(next.op_of(next.log[at]).edge_key() == held);
        }
        if exists|at: int|
            0 <= at < next.log.len() && next.op_of(#[trigger] next.log[at]).edge_key() == held {
            let at = choose|at: int|
                0 <= at < next.log.len() && next.op_of(#[trigger] next.log[at]).edge_key() == held;
            if at < world.log.len() {
                assert(world.op_of(world.log[at]).edge_key() == held);
            }
        }
    }
    if base.consistent() {
        lemma_operation_keeps_consistency(op, world.durable);
    }
}

/// What holds of the world still holds after any client's turn.
pub proof fn lemma_turn_keeps_invariant<R, E>(world: World<R, E>, base: Store, who: int)
    requires
        world.inv(base),
    ensures
        world.moved(who).inv(base),
{
    if 0 <= who < world.clients.len() {
        let client = world.clients[who];
        assert(world.client_inv(who));
        match client.step {
            Step::Finish(_) => {},
            Step::Run(_, command) => {
                if command is Commit && (client.request.faults)(client.sent) is None {
                    lemma_commit_turn(world, base, who);
                } else {
                    lemma_quiet_turn(world, base, who);
                }
            },
        }
    }
}

/// What holds of the world at every moment: whatever the clients ask for,
/// whichever commands fail and however the turns are taken.
pub proof fn lemma_always<R, E>(store: Store, requests: Seq<Request<R, E>>, schedule: Seq<int>)
    ensures
        World::start(store, requests).after(schedule).inv(store),
        World::start(store, requests).after(schedule).serves(requests),
    decreases schedule.len(),
{
    if schedule.len() > 0 {
        lemma_always(store, requests, schedule.drop_last());
        lemma_turn_keeps_invariant(
            World::start(store, requests).after(schedule.drop_last()),
            store,
            schedule.last(),
        );
    }
}

/// Serial equivalence. At every moment of every interleaving, what is
/// committed is what was there at the start, changed by whole operations
/// one after another: one for each transaction that was committed, in the
/// order of the commits. Each of them was admissible and inserted an edge
/// that was new, and a client's result is a success exactly where its
/// transaction was committed.
pub proof fn lemma_serial_equivalence<R, E>(
    store: Store,
    requests: Seq<Request<R, E>>,
    schedule: Seq<int>,
)
    ensures
        ({
            let world = World::start(store, requests).after(schedule);
            &&& world.durable == store.applied_each(world.committed())
            &&& forall|who: int|
                0 <= who < requests.len() && #[trigger] world.has_committed(who) ==> {
                    &&& requests[who].op.admissible()
                    &&& !store.edges.contains(requests[who].op.edge_key())
                    &&& world.durable.edges.contains(requests[who].op.edge_key())
                }
            &&& forall|who: int|
                0 <= who < requests.len() ==> ((#[trigger] world.clients[who]).step matches
                Step::Finish(result) ==> (result is Ok <==> world.has_committed(who)))
        }),
{
    lemma_always(store, requests, schedule);
    let world = World::start(store, requests).after(schedule);
    assert forall|who: int| 0 <= who < requests.len() implies ((#[trigger]
        world.clients[who]).step matches Step::Finish(result) ==> (result is Ok
        <==> world.has_committed(who))) by {
        assert(world.client_inv(who));
    }
}

/// At every moment of every interleaving, every counter equals the number
/// of edges that count toward it, if it did at the start.
pub proof fn lemma_always_consistent<R, E>(
    store: Store,
    requests: Seq<Request<R, E>>,
    schedule: Seq<int>,
)
    requires
        store.consistent(),
    ensures
        World::start(store, requests).after(schedule).durable.consistent(),
{
    lemma_always(store, requests, schedule);
}

/// A client's result says what happened: a success is the store's row for
/// a transaction that was committed; `InvalidRelationship` is a
/// self-follow; `DuplicateEdge` is an edge that is committed; and a
/// `StorageFailure` is a fault of the store, handed on as it came.
pub proof fn lemma_results_are_true<R, E>(
    store: Store,
    requests: Seq<Request<R, E>>,
    schedule: Seq<int>,
    who: int,
)
    requires
        0 <= who < requests.len(),
    ensures
        ({
            let world = World::start(store, requests).after(schedule);
            let request = requests[who];
            world.clients[who].step matches Step::Finish(result) ==> match result {
                Ok(row) => row == request.row && world.has_committed(who),
                Err(LedgerError::InvalidRelationship) => !request.op.admissible(),
                Err(LedgerError::DuplicateEdge) => world.durable.edges.contains(
                    request.op.edge_key(),
                ),
                Err(LedgerError::StorageFailure(e)) => exists|number: nat|
                    number < max_commands() && #[trigger] (request.faults)(number) == Some(e),
            }
        }),
{
    lemma_always(store, requests, schedule);
    let world = World::start(store, requests).after(schedule);
    assert(world.client_inv(who));
}

/// No client sends more than `max_commands` commands.
pub proof fn lemma_commands_are_bounded<R, E>(
    store: Store,
    requests: Seq<Request<R, E>>,
    schedule: Seq<int>,
    who: int,
)
    requires
        0 <= who < requests.len(),
    ensures
        World::start(store, requests).after(schedule).clients[who].sent <= max_commands(),
{
    lemma_always(store, requests, schedule);
    assert(World::start(store, requests).after(schedule).client_inv(who));
}

/// A client whose operation is not over makes it advance on its turn,
/// unless its insert has to wait: the store's reply is always one that the
/// transaction takes.
pub proof fn lemma_turn_advances<R, E>(
    store: Store,
    requests: Seq<Request<R, E>>,
    schedule: Seq<int>,
    who: int,
)
    requires
        0 <= who < requests.len(),
        !(World::start(store, requests).after(schedule).clients[who].step is Finish),
        !World::start(store, requests).after(schedule).waits(who),
    ensures
        ({
            let world = World::start(store, requests).after(schedule);
            world.moved(who).clients[who].sent == world.clients[who].sent + 1
        }),
{
    lemma_always(store, requests, schedule);
    assert(World::start(store, requests).after(schedule).client_inv(who));
}

/// No deadlock. While some operation is not over, some client does not
/// wait: an insert waits only for a transaction that is itself past its
/// insert, and that one waits for nobody.
pub proof fn lemma_someone_can_move<R, E>(
    store: Store,
    requests: Seq<Request<R, E>>,
    schedule: Seq<int>,
)
    requires
        !World::start(store, requests).after(schedule).quiet(),
    ensures
        ({
            let world = World::start(store, requests).after(schedule);
            exists|who: int|
                0 <= who < world.clients.len() && !((#[trigger] world.clients[who]).step is Finish)
                    && !world.waits(who)
        }),
{
    lemma_always(store, requests, schedule);
    let world = World::start(store, requests).after(schedule);
    let stuck = choose|who: int|
        0 <= who < world.clients.len() && !((#[trigger] world.clients[who]).step is Finish);
    if world.waits(stuck) {
        let key = world.clients[stuck].step->Run_1->InsertEdge_0;
        let holder = choose|other: int|
            0 <= other < world.clients.len() && other != stuck && #[trigger]
            world.clients[other].holds(key);
        assert(world.client_inv(holder));
        assert(!(world.clients[holder].step is Finish) && !world.waits(holder));
    }
}

/// A turn that advances a client leaves one command less to send.
proof fn lemma_turn_uses_a_command<R, E>(world: World<R, E>, who: int, count: int)
    requires
        0 <= who < world.clients.len(),
        0 <= count <= world.clients.len(),
        world.moved(who).clients[who].sent == world.clients[who].sent + 1,
    ensures
        world.moved(who).left(count) == world.left(count) - (if who < count {
            1int
        } else {
            0int
        }),
    decreases count,
{
    if count > 0 {
        lemma_turn_uses_a_command(world, who, count - 1);
    }
}

/// Clients that keep to their bound have commands left, not owed.
proof fn lemma_left_is_not_negative<R, E>(world: World<R, E>, count: int)
    requires
        0 <= count <= world.clients.len(),
        forall|who: int| 0 <= who < world.clients.len() ==> #[trigger] world.client_inv(who),
    ensures
        world.left(count) >= 0,
    decreases count,
{
    if count > 0 {
        lemma_left_is_not_negative(world, count - 1);
        assert(world.client_inv(count - 1));
    }
}

/// Every operation can come to an end. From every moment of every
/// interleaving there are turns after which every client's operation is
/// over: while one is not, a client that does not wait takes the next turn.
pub proof fn lemma_can_finish<R, E>(
    store: Store,
    requests: Seq<Request<R, E>>,
    schedule: Seq<int>,
) -> (rest: Seq<int>)
    ensures
        World::start(store, requests).after(schedule + rest).quiet(),
    decreases World::start(store, requests).after(schedule).left(requests.len() as int),
{
    lemma_always(store, requests, schedule);
    let world = World::start(store, requests).after(schedule);
    if world.quiet() {
        assert(schedule + Seq::<int>::empty() =~= schedule);
        Seq::empty()
    } else {
        lemma_someone_can_move(store, requests, schedule);
        let who = choose|who: int|
            0 <= who < world.clients.len() && !((#[trigger] world.clients[who]).step is Finish)
                && !world.waits(who);
        lemma_turn_advances(store, requests, schedule, who);
        let longer = schedule.push(who);
        assert(longer.drop_last() =~= schedule);
        assert(World::start(store, requests).after(longer) == world.moved(who));
        lemma_always(store, requests, longer);
        lemma_turn_uses_a_command(world, who, requests.len() as int);
        lemma_left_is_not_negative(world.moved(who), requests.len() as int);
        let rest = lemma_can_finish(store, requests, longer);
        assert(schedule + (seq![who] + rest) =~= longer + rest);
        seq![who] + rest
    }
}

/// With two clients, what is committed is what was there, changed by the
/// operations of those whose transactions were committed, in the order of
/// their commits.
proof fn lemma_two_clients<R, E>(store: Store, requests: Seq<Request<R, E>>, schedule: Seq<int>)
    requires
        requests.len() == 2,
    ensures
        ({
            let world = World::start(store, requests).after(schedule);
            let first = requests[0].op;
            let second = requests[1].op;
            world.durable == (if world.has_committed(0) && world.has_committed(1) {
                if world.log[0] == 0 {
                    store.applied(first).applied(second)
                } else {
                    store.applied(second).applied(first)
                }
            } else if world.has_committed(0) {
                store.applied(first)
            } else if world.has_committed(1) {
                store.applied(second)
            } else {
                store
            })
        }),
{
    lemma_always(store, requests, schedule);
    reveal_with_fuel(Store::applied_each, 3);
}

/// Two users like the same post at the same time, against a store that
/// does not fail and that had neither like. However their commands
/// interleave, once both operations are over both have succeeded, and what
/// is committed has two distinct edges more and a like counter that is
/// higher by exactly two.
pub proof fn lemma_concurrent_likes<R, E>(
    post_id: u128,
    one: u128,
    other: u128,
    store: Store,
    requests: Seq<Request<R, E>>,
    schedule: Seq<int>,
)
    requires
        one != other,
        requests.len() == 2,
        requests[0].op == (LedgerOp::AddLike { post_id, user_id: one }),
        requests[1].op == (LedgerOp::AddLike { post_id, user_id: other }),
        unfailing(requests[0].faults),
        unfailing(requests[1].faults),
        !store.edges.contains(requests[0].op.edge_key()),
        !store.edges.contains(requests[1].op.edge_key()),
        store.counters.dom().contains(CounterKey { owner: post_id, counter: Counter::Likes }),
        World::start(store, requests).after(schedule).quiet(),
    ensures
        ({
            let world = World::start(store, requests).after(schedule);
            let likes = CounterKey { owner: post_id, counter: Counter::Likes };
            &&& world.clients[0].step == Step::<R, E>::Finish(Ok(requests[0].row))
            &&& world.clients[1].step == Step::<R, E>::Finish(Ok(requests[1].row))
            &&& requests[0].op.edge_key() != requests[1].op.edge_key()
            &&& world.durable.edges == store.edges.insert(requests[0].op.edge_key()).insert(
                requests[1].op.edge_key(),
            )
            &&& world.durable.counters == store.counters.insert(likes, store.counters[likes] + 2)
        }),
{
    lemma_always(store, requests, schedule);
    lemma_two_clients(store, requests, schedule);
    let world = World::start(store, requests).after(schedule);
    // neither can have failed or met a duplicate, so both were committed
    assert(world.client_inv(0));
    assert(world.client_inv(1));
}

/// The same operation by two clients at the same time, against a store that
/// does not fail and that did not have the edge. However their commands
/// interleave, once both operations are over exactly one has succeeded and
/// the other was refused as `DuplicateEdge`, and what is committed is one
/// edge more and one increment of each counter.
pub proof fn lemma_concurrent_same_operation<R, E>(
    op: LedgerOp,
    store: Store,
    requests: Seq<Request<R, E>>,
    schedule: Seq<int>,
)
    requires
        op.admissible(),
        requests.len() == 2,
        requests[0].op == op,
        requests[1].op == op,
        unfailing(requests[0].faults),
        unfailing(requests[1].faults),
        !store.edges.contains(op.edge_key()),
        World::start(store, requests).after(schedule).quiet(),
    ensures
        ({
            let world = World::start(store, requests).after(schedule);
            let duplicate = Step::<R, E>::Finish(Err(LedgerError::DuplicateEdge));
            let one = Step::<R, E>::Finish(Ok(requests[0].row));
            let other = Step::<R, E>::Finish(Ok(requests[1].row));
            &&& world.durable == store.applied(op)
            &&& (world.clients[0].step == one && world.clients[1].step == duplicate) || (
            world.clients[0].step == duplicate && world.clients[1].step == other)
        }),
{
    lemma_always(store, requests, schedule);
    lemma_two_clients(store, requests, schedule);
    let world = World::start(store, requests).after(schedule);
    assert(world.client_inv(0));
    assert(world.client_inv(1));
    // the edges of two committed transactions differ, so not both were
    if world.has_committed(0) && world.has_committed(1) {
        let a = choose|at: int| 0 <= at < world.log.len() && #[trigger] world.log[at] == 0;
        let b = choose|at: int| 0 <= at < world.log.len() && #[trigger] world.log[at] == 1;
        assert(a < b || b < a);
    }
}

/// A follow is seen as a whole. At every moment of its operation,
/// whichever commands fail, what is committed has both counters raised or
/// neither: both from the moment of the commit on, which is what a success
/// reports.
pub proof fn lemma_follow_is_seen_whole<R, E>(
    follower_id: u128,
    following_id: u128,
    store: Store,
    requests: Seq<Request<R, E>>,
    schedule: Seq<int>,
)
    requires
        requests.len() == 1,
        requests[0].op == (LedgerOp::AddFollow { follower_id, following_id }),
        store.counters.dom().contains(
            CounterKey { owner: follower_id, counter: Counter::Following },
        ),
        store.counters.dom().contains(
            CounterKey { owner: following_id, counter: Counter::Followers },
        ),
    ensures
        ({
            let world = World::start(store, requests).after(schedule);
            let following = CounterKey { owner: follower_id, counter: Counter::Following };
            let followers = CounterKey { owner: following_id, counter: Counter::Followers };
            let moved: int = if world.has_committed(0) {
                1
            } else {
                0
            };
            &&& world.durable.counters[following] == store.counters[following] + moved
            &&& world.durable.counters[followers] == store.counters[followers] + moved
            &&& world.clients[0].step matches Step::Finish(result) ==> (result is Ok <==> moved
                == 1)
        }),
{
    lemma_always(store, requests, schedule);
    let world = World::start(store, requests).after(schedule);
    let op = requests[0].op;
    assert(world.client_inv(0));
    if world.log.len() >= 2 {
        assert(world.log[0] != world.log[1]);
    }
    if world.log.len() == 1 {
        assert(world.durable == store.applied(op)) by {
            reveal_with_fuel(Store::applied_each, 2);
        }
        lemma_effect_of_operation(op, store);
    }
}

} // verus!
