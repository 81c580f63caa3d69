use social_graph::ledger::{
    Counter, CounterKey, EdgeKey, LedgerError, LedgerOp, Relation, Step, StoreCommand, StoreReply,
    Transaction,
};
use std::collections::{HashMap, HashSet};

type Reply = StoreReply<u64, String>;

// The work of one open transaction: the edges it inserted and the counters
// it raised.
#[derive(Default)]
struct Work {
    edges: HashSet<EdgeKey>,
    raised: Vec<CounterKey>,
}

// A store with several connections. A transaction sees what is committed
// and its own work; an insert of an edge that another open transaction has
// inserted waits.
#[derive(Default)]
struct SharedStore {
    edges: HashSet<EdgeKey>,
    counters: HashMap<CounterKey, i64>,
    open: HashMap<usize, Work>,
    rows: u64,
}

// One client: its operation in progress, and the number of the command at
// which its connection fails.
struct Client {
    step: Step<u64, String>,
    sent: usize,
    fail_at: Option<usize>,
}

fn arrive(op: LedgerOp, fail_at: Option<usize>) -> Client {
    Client { step: Transaction::begin(op), sent: 0, fail_at }
}

// The store's reply to a command on a connection, or `None` where the
// command has to wait.
fn answer(store: &mut SharedStore, who: usize, command: StoreCommand, fails: bool) -> Option<Reply> {
    if fails {
        if command == StoreCommand::Rollback {
            store.open.remove(&who);
        }
        return Some(StoreReply::Failed(format!("fault on connection {who}")));
    }
    match command {
        StoreCommand::Begin => {
            store.open.insert(who, Work::default());
            Some(StoreReply::Done)
        }
        StoreCommand::InsertEdge(key) => {
            if store.open.iter().any(|(other, work)| *other != who && work.edges.contains(&key)) {
                return None;
            }
            let work = store.open.get_mut(&who).unwrap();
            if store.edges.contains(&key) || work.edges.contains(&key) {
                Some(StoreReply::UniqueViolation)
            } else {
                work.edges.insert(key);
                store.rows += 1;
                Some(StoreReply::Inserted(store.rows))
            }
        }
        StoreCommand::Increment(key) => {
            store.open.get_mut(&who).unwrap().raised.push(key);
            Some(StoreReply::Done)
        }
        StoreCommand::Commit => {
            let work = store.open.remove(&who).unwrap();
            store.edges.extend(work.edges);
            for key in work.raised {
                if let Some(counter) = store.counters.get_mut(&key) {
                    *counter += 1;
                }
            }
            Some(StoreReply::Done)
        }
        StoreCommand::Rollback => {
            store.open.remove(&who);
            Some(StoreReply::Done)
        }
    }
}

// One turn of a client. Tells whether the client moved.
fn turn(store: &mut SharedStore, clients: &mut [Client], who: usize) -> bool {
    let client = &mut clients[who];
    let command = match &client.step {
        Step::Finish(_) => return false,
        Step::Run(_, command) => *command,
    };
    let fails = client.fail_at == Some(client.sent);
    let reply = match answer(store, who, command, fails) {
        None => return false,
        Some(reply) => reply,
    };
    let step = std::mem::replace(&mut client.step, Step::Finish(Err(LedgerError::DuplicateEdge)));
    let transaction = match step {
        Step::Run(transaction, _) => transaction,
        Step::Finish(_) => unreachable!(),
    };
    assert!(transaction.accepts(&reply));
    client.step = transaction.advance(reply);
    client.sent += 1;
    true
}

fn quiet(clients: &[Client]) -> bool {
    clients.iter().all(|client| matches!(client.step, Step::Finish(_)))
}

fn tally(store: &SharedStore, key: CounterKey) -> i64 {
    store
        .edges
        .iter()
        .filter(|edge| match key.counter {
            Counter::Likes => edge.relation == Relation::Like && edge.target == key.owner,
            Counter::Shares => edge.relation == Relation::Share && edge.target == key.owner,
            Counter::Followers => edge.relation == Relation::Follow && edge.target == key.owner,
            Counter::Following => edge.relation == Relation::Follow && edge.actor == key.owner,
        })
        .count() as i64
}

fn consistent(store: &SharedStore) -> bool {
    store.counters.iter().all(|(key, count)| *count == tally(store, *key))
}

const POST: u128 = 100;
const ANN: u128 = 1;
const BOB: u128 = 2;

fn fresh() -> SharedStore {
    let mut store = SharedStore::default();
    store.counters.insert(CounterKey { owner: POST, counter: Counter::Likes }, 0);
    store.counters.insert(CounterKey { owner: POST, counter: Counter::Shares }, 0);
    for user in [ANN, BOB] {
        store.counters.insert(CounterKey { owner: user, counter: Counter::Followers }, 0);
        store.counters.insert(CounterKey { owner: user, counter: Counter::Following }, 0);
    }
    store
}

// Runs two clients under every schedule of the given length, each followed
// by turns in a row until both are over, and hands each final state on.
// After every single turn what is committed is checked to be consistent.
fn under_every_schedule(
    ops: [LedgerOp; 2],
    faults: [Option<usize>; 2],
    length: u32,
    check: impl Fn(&SharedStore, &[Client]),
) {
    for schedule in 0..(1u32 << length) {
        let mut store = fresh();
        let mut clients = vec![arrive(ops[0], faults[0]), arrive(ops[1], faults[1])];
        for at in 0..length {
            turn(&mut store, &mut clients, ((schedule >> at) & 1) as usize);
            assert!(consistent(&store));
        }
        let mut rounds = 0;
        while !quiet(&clients) {
            let moved = turn(&mut store, &mut clients, 0) | turn(&mut store, &mut clients, 1);
            assert!(moved, "no client can move");
            assert!(consistent(&store));
            rounds += 1;
            assert!(rounds <= 12);
        }
        assert!(store.open.is_empty());
        assert!(clients.iter().all(|client| client.sent <= 6));
        check(&store, &clients);
    }
}

#[test]
fn concurrent_likes_by_two_users_count_twice() {
    let ops = [
        LedgerOp::AddLike { post_id: POST, user_id: ANN },
        LedgerOp::AddLike { post_id: POST, user_id: BOB },
    ];
    under_every_schedule(ops, [None, None], 10, |store, clients| {
        assert!(matches!(clients[0].step, Step::Finish(Ok(_))));
        assert!(matches!(clients[1].step, Step::Finish(Ok(_))));
        assert_eq!(store.counters[&CounterKey { owner: POST, counter: Counter::Likes }], 2);
        assert_eq!(store.edges.len(), 2);
    });
}

#[test]
fn concurrent_likes_by_one_user_count_once() {
    let like = LedgerOp::AddLike { post_id: POST, user_id: ANN };
    under_every_schedule([like, like], [None, None], 10, |store, clients| {
        let succeeded =
            clients.iter().filter(|client| matches!(client.step, Step::Finish(Ok(_)))).count();
        let duplicates = clients
            .iter()
            .filter(|client| matches!(client.step, Step::Finish(Err(LedgerError::DuplicateEdge))))
            .count();
        assert_eq!((succeeded, duplicates), (1, 1));
        assert_eq!(store.counters[&CounterKey { owner: POST, counter: Counter::Likes }], 1);
        assert_eq!(store.edges.len(), 1);
    });
}

#[test]
fn concurrent_follows_in_both_directions_succeed() {
    let ops = [
        LedgerOp::AddFollow { follower_id: ANN, following_id: BOB },
        LedgerOp::AddFollow { follower_id: BOB, following_id: ANN },
    ];
    under_every_schedule(ops, [None, None], 12, |store, clients| {
        assert!(clients.iter().all(|client| matches!(client.step, Step::Finish(Ok(_)))));
        for user in [ANN, BOB] {
            assert_eq!(store.counters[&CounterKey { owner: user, counter: Counter::Followers }], 1);
            assert_eq!(store.counters[&CounterKey { owner: user, counter: Counter::Following }], 1);
        }
    });
}

#[test]
fn follow_is_seen_whole_at_every_moment() {
    let following = CounterKey { owner: ANN, counter: Counter::Following };
    let followers = CounterKey { owner: BOB, counter: Counter::Followers };
    for fail_at in [None, Some(0), Some(1), Some(2), Some(3), Some(4)] {
        let mut store = fresh();
        let follow = LedgerOp::AddFollow { follower_id: ANN, following_id: BOB };
        let mut clients = vec![arrive(follow, fail_at)];
        loop {
            assert_eq!(store.counters[&following], store.counters[&followers]);
            if !turn(&mut store, &mut clients, 0) {
                break;
            }
        }
        let succeeded = matches!(clients[0].step, Step::Finish(Ok(_)));
        assert_eq!(succeeded, fail_at.is_none());
        assert_eq!(store.counters[&following], if succeeded { 1 } else { 0 });
        assert_eq!(store.counters[&followers], if succeeded { 1 } else { 0 });
    }
}

#[test]
fn when_one_of_two_fails_the_other_counts() {
    let like = LedgerOp::AddLike { post_id: POST, user_id: ANN };
    for fail_at in 0..4 {
        under_every_schedule([like, like], [Some(fail_at), None], 10, |store, clients| {
            // the first never commits: its connection fails, unless the
            // second was served before and the edge is a duplicate
            assert!(matches!(
                clients[0].step,
                Step::Finish(Err(LedgerError::StorageFailure(_) | LedgerError::DuplicateEdge))
            ));
            assert!(matches!(clients[1].step, Step::Finish(Ok(_))));
            assert_eq!(store.counters[&CounterKey { owner: POST, counter: Counter::Likes }], 1);
            assert_eq!(store.edges.len(), 1);
        });
    }
}

#[test]
fn whatever_fails_counters_follow_the_edges() {
    let ops = [
        LedgerOp::AddLike { post_id: POST, user_id: ANN },
        LedgerOp::AddShare { post_id: POST, user_id: ANN },
    ];
    for first in [None, Some(0), Some(2), Some(3)] {
        for second in [None, Some(1), Some(3)] {
            under_every_schedule(ops, [first, second], 8, |store, clients| {
                let likes = store.counters[&CounterKey { owner: POST, counter: Counter::Likes }];
                let shares = store.counters[&CounterKey { owner: POST, counter: Counter::Shares }];
                assert_eq!(likes == 1, matches!(clients[0].step, Step::Finish(Ok(_))));
                assert_eq!(shares == 1, matches!(clients[1].step, Step::Finish(Ok(_))));
                assert_eq!(likes + shares, store.edges.len() as i64);
            });
        }
    }
}

#[test]
fn insert_waits_for_the_transaction_that_holds_the_edge() {
    let like = LedgerOp::AddLike { post_id: POST, user_id: ANN };
    let mut store = fresh();
    let mut clients = vec![arrive(like, None), arrive(like, None)];
    assert!(turn(&mut store, &mut clients, 0));
    assert!(turn(&mut store, &mut clients, 0));
    assert!(turn(&mut store, &mut clients, 1));
    assert!(!turn(&mut store, &mut clients, 1));
    assert!(!turn(&mut store, &mut clients, 1));
    assert!(turn(&mut store, &mut clients, 0));
    assert!(!turn(&mut store, &mut clients, 1));
    assert!(turn(&mut store, &mut clients, 0));
    assert!(matches!(clients[0].step, Step::Finish(Ok(1))));
    assert!(turn(&mut store, &mut clients, 1));
    assert!(matches!(clients[1].step, Step::Run(_, StoreCommand::Rollback)));
    assert!(turn(&mut store, &mut clients, 1));
    assert!(matches!(clients[1].step, Step::Finish(Err(LedgerError::DuplicateEdge))));
}

#[test]
fn insert_goes_on_when_the_holder_rolls_back() {
    let like = LedgerOp::AddLike { post_id: POST, user_id: ANN };
    let mut store = fresh();
    let mut clients = vec![arrive(like, Some(2)), arrive(like, None)];
    assert!(turn(&mut store, &mut clients, 0));
    assert!(turn(&mut store, &mut clients, 0));
    assert!(turn(&mut store, &mut clients, 1));
    assert!(!turn(&mut store, &mut clients, 1));
    assert!(turn(&mut store, &mut clients, 0));
    assert!(matches!(clients[0].step, Step::Run(_, StoreCommand::Rollback)));
    assert!(!turn(&mut store, &mut clients, 1));
    assert!(turn(&mut store, &mut clients, 0));
    assert!(matches!(clients[0].step, Step::Finish(Err(LedgerError::StorageFailure(_)))));
    while turn(&mut store, &mut clients, 1) {}
    assert!(matches!(clients[1].step, Step::Finish(Ok(_))));
    assert_eq!(store.counters[&CounterKey { owner: POST, counter: Counter::Likes }], 1);
}
