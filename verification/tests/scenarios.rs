use std::future::Future;
use std::sync::atomic::{AtomicUsize, Ordering};
use std::sync::Arc;
use std::task::{Context, Poll};

use dispatch_pool::command::{BatchResult, Cmd, Direction, Get, Outcome, Seek};
use dispatch_pool::error::Error;
use dispatch_pool::pool::{answered, enqueued, Pool, Submission};
use dispatch_pool::topology::Config;
use dispatch_pool::worker::{Phase, Task, Worker};
use futures::executor::block_on;

/// A storage map in memory that counts how often it is asked.
struct Store {
    entries: Vec<(Vec<u8>, Vec<u8>)>,
    asked: AtomicUsize,
}

/// The keys an iterator has yet to yield, next one first.
type Cursor = Vec<Vec<u8>>;

type TestPool = Pool<Store, Cursor>;
type Queue = async_channel::Receiver<Cmd<Store, Cursor>>;

fn key(text: &str) -> Vec<u8> {
    text.as_bytes().to_vec()
}

fn keys(texts: &[&str]) -> Vec<Vec<u8>> {
    texts.iter().map(|t| key(t)).collect()
}

fn found(text: &str) -> Outcome {
    Outcome::Found(key(text))
}

impl Store {
    fn new(pairs: &[(&str, &str)]) -> Arc<Store> {
        let mut entries: Vec<(Vec<u8>, Vec<u8>)> =
            pairs.iter().map(|(k, v)| (key(k), key(v))).collect();
        entries.sort();
        Arc::new(Store { entries, asked: AtomicUsize::new(0) })
    }

    fn asked(&self) -> usize {
        self.asked.load(Ordering::SeqCst)
    }

    fn find(&self, key: &[u8]) -> Outcome {
        match self.entries.iter().find(|(k, _)| k.as_slice() == key) {
            Some((_, value)) => Outcome::Found(value.clone()),
            None => Outcome::NotFound,
        }
    }

    fn get(&self, key: &[u8]) -> Outcome {
        self.asked.fetch_add(1, Ordering::SeqCst);
        self.find(key)
    }

    fn get_batch(&self, keys: &[Vec<u8>]) -> Vec<Outcome> {
        self.asked.fetch_add(1, Ordering::SeqCst);
        keys.iter().map(|k| self.find(k)).collect()
    }

    fn seek(&self, dir: Direction, from: Option<&[u8]>) -> Cursor {
        self.asked.fetch_add(1, Ordering::SeqCst);
        let mut all: Vec<Vec<u8>> = self.entries.iter().map(|(k, _)| k.clone()).collect();
        match dir {
            Direction::Forward => {
                all.retain(|k| from.map_or(true, |f| k.as_slice() >= f));
            },
            Direction::Reverse => {
                all.retain(|k| from.map_or(true, |f| k.as_slice() <= f));
                all.reverse();
            },
        }
        all
    }
}

fn pool(workers: usize, queue_mult: usize) -> (TestPool, Vec<(Worker, Queue)>) {
    let (pool, recv) =
        TestPool::new(&Config { cores: 0, workers, group_width: 0, queue_mult });
    let mut spawned = pool.spawn_until(recv, pool.workers);
    for (worker, _) in spawned.iter_mut() {
        pool.worker_init(worker);
    }
    (pool, spawned)
}

/// What a worker thread does with one command; `false` once the queue is
/// closed and drained.
fn serve(worker: &mut Worker, queue: &Queue) -> bool {
    let cmd = match worker.worker_wait(queue) {
        Some(cmd) => cmd,
        None => return false,
    };
    assert!(cmd.check());
    match worker.worker_handle(cmd) {
        None => {},
        Some(Task::Point { map, key, reply }) => {
            let outcome = map.get(&key);
            worker.worker_reply(reply, BatchResult::single(outcome));
        },
        Some(Task::Batch { map, keys, reply }) => {
            let outcomes = map.get_batch(&keys);
            worker.worker_reply(reply, BatchResult::collect(outcomes));
        },
        Some(Task::Seek { map, state: _, dir, from, reply }) => {
            let state = map.seek(dir, from.as_deref());
            worker.worker_reply(reply, state);
        },
    }
    assert_eq!(worker.phase, Phase::Ready);
    true
}

fn submit_get(pool: &TestPool, map: &Arc<Store>, wanted: &[&str]) -> Result<
    futures::channel::oneshot::Receiver<BatchResult>,
    Error,
> {
    let cmd = Get::new(map.clone(), keys(wanted));
    assert!(cmd.check_keys());
    let Submission { queue, cmd, reply } = pool.execute_get(cmd, None);
    enqueued(block_on(pool.queues[queue].send(cmd)))?;
    Ok(reply)
}

fn outcomes(reply: futures::channel::oneshot::Receiver<BatchResult>) -> Result<Vec<Outcome>, Error> {
    answered(block_on(reply)).map(BatchResult::into_outcomes)
}

#[test]
fn batch_lookup_over_two_workers_and_one_queue_of_four() {
    let (pool, mut workers) = pool(2, 2);
    assert_eq!(pool.workers, 2);
    assert_eq!(pool.queues.len(), 1);
    assert_eq!(pool.queues[0].capacity(), Some(4));
    let map = Store::new(&[("a", "1"), ("b", "2")]);
    let reply = submit_get(&pool, &map, &["a", "b", "c"]).unwrap();
    let (worker, queue) = &mut workers[1];
    assert!(serve(worker, queue));
    assert_eq!(outcomes(reply), Ok(vec![found("1"), found("2"), Outcome::NotFound]));
    assert_eq!(map.asked(), 1);
}

#[test]
fn point_lookup_reports_found_and_not_found() {
    let (pool, mut workers) = pool(1, 4);
    let map = Store::new(&[("a", "1"), ("b", "2")]);
    let hit = submit_get(&pool, &map, &["b"]).unwrap();
    let miss = submit_get(&pool, &map, &["z"]).unwrap();
    let (worker, queue) = &mut workers[0];
    assert!(serve(worker, queue));
    assert!(serve(worker, queue));
    assert_eq!(outcomes(hit), Ok(vec![found("2")]));
    assert_eq!(outcomes(miss), Ok(vec![Outcome::NotFound]));
}

#[test]
fn outcomes_come_back_in_the_order_of_the_keys() {
    let (pool, mut workers) = pool(1, 8);
    let map = Store::new(&[("a", "1"), ("b", "2"), ("c", "3"), ("d", "4")]);
    let (worker, queue) = &mut workers[0];
    for wanted in [
        vec!["d", "a", "c", "b"],
        vec!["b", "b", "x", "a"],
        vec!["x", "y"],
        vec!["c"],
        vec!["a", "b", "c", "d", "a", "b", "c", "d"],
    ] {
        let reply = submit_get(&pool, &map, &wanted).unwrap();
        assert!(serve(worker, queue));
        let got = outcomes(reply).unwrap();
        assert_eq!(got.len(), wanted.len());
        for (outcome, wanted_key) in got.iter().zip(wanted.iter()) {
            assert_eq!(*outcome, map.find(wanted_key.as_bytes()));
        }
    }
}

#[test]
fn forward_seek_starts_at_the_first_key_and_reverse_at_the_last() {
    let (pool, mut workers) = pool(1, 4);
    let map = Store::new(&[("a", "1"), ("b", "2"), ("c", "3")]);
    let (worker, queue) = &mut workers[0];
    for (dir, first) in [(Direction::Forward, "a"), (Direction::Reverse, "c")] {
        let cmd = Seek::new(map.clone(), Vec::new(), dir, None);
        let Submission { queue: at, cmd, reply } = pool.execute_iter(cmd, Some(0));
        assert!(enqueued(block_on(pool.queues[at].send(cmd))).is_ok());
        assert!(serve(worker, queue));
        let state = answered(block_on(reply)).unwrap();
        assert_eq!(state.first(), Some(&key(first)));
        assert_eq!(state.len(), 3);
    }
}

#[test]
fn seek_from_a_start_key_goes_on_from_there() {
    let (pool, mut workers) = pool(1, 4);
    let map = Store::new(&[("a", "1"), ("b", "2"), ("c", "3")]);
    let (worker, queue) = &mut workers[0];
    for (dir, want) in [(Direction::Forward, vec!["b", "c"]), (Direction::Reverse, vec!["b", "a"])] {
        let cmd = Seek::new(map.clone(), Vec::new(), dir, Some(key("b")));
        let Submission { queue: at, cmd, reply } = pool.execute_iter(cmd, None);
        assert!(enqueued(block_on(pool.queues[at].send(cmd))).is_ok());
        assert!(serve(worker, queue));
        assert_eq!(answered(block_on(reply)), Ok(keys(&want)));
    }
}

#[test]
fn a_full_queue_holds_the_caller_back_until_a_slot_is_free() {
    let (pool, mut workers) = pool(1, 2);
    assert_eq!(pool.capacities, vec![2]);
    let map = Store::new(&[("a", "1")]);
    let first = submit_get(&pool, &map, &["a"]).unwrap();
    let second = submit_get(&pool, &map, &["a"]).unwrap();
    assert!(pool.queues[0].is_full());

    let Submission { queue: at, cmd, reply: third } =
        pool.execute_get(Get::new(map.clone(), keys(&["a"])), None);
    let mut sending = Box::pin(pool.queues[at].send(cmd));
    let waker = futures::task::noop_waker();
    let mut cx = Context::from_waker(&waker);
    assert!(sending.as_mut().poll(&mut cx).is_pending());
    assert!(sending.as_mut().poll(&mut cx).is_pending());
    assert_eq!(pool.queues[0].len(), 2);

    let (worker, queue) = &mut workers[0];
    assert!(serve(worker, queue));
    match sending.as_mut().poll(&mut cx) {
        Poll::Ready(sent) => assert_eq!(enqueued(sent), Ok(())),
        Poll::Pending => panic!("a slot was free"),
    }
    assert!(serve(worker, queue));
    assert!(serve(worker, queue));
    assert_eq!(outcomes(first), Ok(vec![found("1")]));
    assert_eq!(outcomes(second), Ok(vec![found("1")]));
    assert_eq!(outcomes(third), Ok(vec![found("1")]));
    assert_eq!(map.asked(), 3);
}

#[test]
fn a_caller_that_gives_up_before_the_worker_costs_no_storage_access() {
    let (pool, mut workers) = pool(1, 4);
    let map = Store::new(&[("a", "1"), ("b", "2")]);
    let gone_point = submit_get(&pool, &map, &["a"]).unwrap();
    let gone_batch = submit_get(&pool, &map, &["a", "b"]).unwrap();
    let kept = submit_get(&pool, &map, &["b"]).unwrap();
    drop(gone_point);
    drop(gone_batch);
    let (worker, queue) = &mut workers[0];
    assert!(serve(worker, queue));
    assert!(serve(worker, queue));
    assert_eq!(map.asked(), 0);
    assert!(serve(worker, queue));
    assert_eq!(map.asked(), 1);
    assert_eq!(outcomes(kept), Ok(vec![found("2")]));
}

#[test]
fn a_seek_whose_caller_has_gone_costs_no_storage_access() {
    let (pool, mut workers) = pool(1, 4);
    let map = Store::new(&[("a", "1")]);
    let cmd = Seek::new(map.clone(), Vec::new(), Direction::Forward, None);
    let Submission { queue: at, cmd, reply } = pool.execute_iter(cmd, None);
    assert!(enqueued(block_on(pool.queues[at].send(cmd))).is_ok());
    drop(reply);
    let (worker, queue) = &mut workers[0];
    assert!(serve(worker, queue));
    assert_eq!(map.asked(), 0);
}

#[test]
fn submitting_after_close_is_refused_every_time() {
    let (pool, mut workers) = pool(2, 2);
    let map = Store::new(&[("a", "1")]);
    let before = submit_get(&pool, &map, &["a"]).unwrap();
    assert_eq!(pool.close(), 1);
    assert_eq!(pool.close(), 0);
    for _ in 0..5 {
        assert_eq!(submit_get(&pool, &map, &["a"]).err(), Some(Error::Closed));
        let cmd = Seek::new(map.clone(), Vec::new(), Direction::Forward, None);
        let Submission { queue: at, cmd, reply: _ } = pool.execute_iter(cmd, None);
        assert_eq!(enqueued(block_on(pool.queues[at].send(cmd))), Err(Error::Closed));
    }
    // what was accepted before the close is still answered
    let (worker, queue) = &mut workers[0];
    assert!(serve(worker, queue));
    assert_eq!(outcomes(before), Ok(vec![found("1")]));
    // then every worker finds its queue drained and terminates
    for (worker, queue) in workers.iter_mut() {
        assert!(!serve(worker, queue));
        assert_eq!(worker.phase, Phase::Terminated);
    }
    assert!(pool.is_drained());
    assert_eq!(map.asked(), 1);
}

#[test]
fn a_reply_channel_dropped_by_the_worker_is_reported_as_lost() {
    let (pool, workers) = pool(1, 4);
    let map = Store::new(&[("a", "1")]);
    let reply = submit_get(&pool, &map, &["a"]).unwrap();
    let cmd = workers[0].1.try_recv().unwrap();
    drop(cmd);
    assert_eq!(outcomes(reply), Err(Error::Lost));
}

#[test]
fn enqueued_and_answered_pass_on_what_happened() {
    assert_eq!(enqueued::<u8>(Ok(())), Ok(()));
    assert_eq!(enqueued(Err(async_channel::SendError(3u8))), Err(Error::Closed));
    assert_eq!(answered(Ok(9u8)), Ok(9u8));
    assert_eq!(answered::<u8>(Err(futures::channel::oneshot::Canceled)), Err(Error::Lost));
}

#[test]
fn more_commands_than_slots_from_many_callers_are_all_answered() {
    let runtime = tokio::runtime::Builder::new_multi_thread().worker_threads(2).build().unwrap();
    let (pool, workers) = pool(2, 1);
    assert_eq!(pool.capacities, vec![2]);
    let pool = Arc::new(pool);
    let map = Store::new(&[("a", "1"), ("b", "2")]);
    let callers: usize = 64;
    let all = runtime.block_on(async {
        let mut threads = Vec::new();
        for (mut worker, queue) in workers {
            threads.push(tokio::task::spawn_blocking(move || {
                while serve(&mut worker, &queue) {}
                worker.phase
            }));
        }
        let mut tasks = Vec::new();
        for n in 0..callers {
            let pool = pool.clone();
            let map = map.clone();
            tasks.push(tokio::spawn(async move {
                let wanted = if n % 2 == 0 { vec!["a", "b", "c"] } else { vec!["b"] };
                let Submission { queue, cmd, reply } =
                    pool.execute_get(Get::new(map, keys(&wanted)), Some(n));
                enqueued(pool.queues[queue].send(cmd).await)?;
                answered(reply.await).map(BatchResult::into_outcomes)
            }));
        }
        let mut all = Vec::new();
        for task in tasks {
            all.push(task.await.unwrap());
        }
        pool.close();
        for thread in threads {
            assert_eq!(thread.await.unwrap(), Phase::Terminated);
        }
        all
    });
    assert_eq!(all.len(), callers);
    for (n, got) in all.into_iter().enumerate() {
        let want = if n % 2 == 0 {
            vec![found("1"), found("2"), Outcome::NotFound]
        } else {
            vec![found("2")]
        };
        assert_eq!(got, Ok(want));
    }
    assert_eq!(map.asked(), callers);
    assert!(pool.is_drained());
}
