//! The dispatch pool: the queues, the routing of callers to queues, the
//! dealing of workers to queues and cores, submission and closing.

use vstd::prelude::*;
use futures::channel::oneshot;
use crate::channel::{
    queue_bounded,
    queue_close,
    queue_is_closed,
    queue_is_empty,
    queue_receiver_clone,
    reply_channel,
};
use crate::command::{BatchResult, Cmd, Get, Seek};
use crate::error::Error;
use crate::limits::{CORE_LIMIT, QUEUE_MAX, QUEUE_MIN, WORKER_MAX, WORKER_MIN};
use crate::topology::{configure, occurrences, Config, Plan};
use crate::worker::{Event, Phase, Worker};

verus! {

/// The queue a caller uses. A caller on core `core` uses the queue that the
/// table gives for that core. Where the core is unknown the caller counts
/// as on core 0, and wherever the table has no entry for the core or names
/// a queue that does not exist, the caller uses queue 0.
pub open spec fn route(topology: Seq<usize>, queues: int, core: Option<usize>) -> int {
    let core_id: int = match core {
        Some(c) => c as int,
        None => 0,
    };
    let chan: int = if core_id < topology.len() {
        topology[core_id] as int
    } else {
        0
    };
    if chan < queues {
        chan
    } else {
        0
    }
}

/// `cores` lists, in increasing order, exactly the cores that `topology`
/// maps to queue `group`.
pub open spec fn lists_group(cores: Seq<usize>, topology: Seq<usize>, group: int) -> bool {
    &&& forall|i: int|
        0 <= i < cores.len() ==> (#[trigger] cores[i]) < topology.len() && topology[cores[i] as int]
            == group
    &&& forall|i: int, j: int| 0 <= i < j < cores.len() ==> cores[i] < cores[j]
    &&& forall|c: int|
        0 <= c < topology.len() && #[trigger] topology[c] == group ==> cores.contains(c as usize)
}

/// What one look at a queue tells.
#[derive(Clone, Copy, Debug, PartialEq, Eq, Structural)]
pub struct QueueState {
    /// The queue accepts no more commands.
    pub closed: bool,
    /// The queue holds no command.
    pub empty: bool,
}

/// Every queue is closed and empty: what must hold when a pool is torn
/// down.
pub open spec fn all_drained(states: Seq<QueueState>) -> bool {
    forall|g: int| 0 <= g < states.len() ==> (#[trigger] states[g]).closed && states[g].empty
}

/// Tests `all_drained`.
pub fn drained(states: &Vec<QueueState>) -> (ok: bool)
    ensures
        ok == all_drained(states@),
{
    let n: usize = states.len();
    let mut g: usize = 0;
    while g < n
        invariant
            g <= n,
            n == states.len(),
            forall|h: int| 0 <= h < g ==> (#[trigger] states[h]).closed && states[h].empty,
        decreases n - g,
    {
        if !states[g].closed || !states[g].empty {
            return false;
        }
        g = g + 1;
    }
    true
}

/// Number of queues that a call of `close` closed, given for each queue
/// whether the call closed it.
pub open spec fn count_closed(flags: Seq<bool>) -> nat
    decreases flags.len(),
{
    if flags.len() == 0 {
        0
    } else {
        count_closed(flags.drop_last()) + if flags.last() { 1nat } else { 0nat }
    }
}

/// Computes `count_closed`.
pub fn closed_count(flags: &Vec<bool>) -> (count: usize)
    ensures
        count == count_closed(flags@),
        count <= flags.len(),
{
    let n: usize = flags.len();
    let mut count: usize = 0;
    let mut g: usize = 0;
    while g < n
        invariant
            g <= n,
            n == flags.len(),
            count <= g,
            count == count_closed(flags@.take(g as int)),
        decreases n - g,
    {
        assert(flags@.take(g + 1).drop_last() =~= flags@.take(g as int));
        if flags[g] {
            count = count + 1;
        }
        g = g + 1;
    }
    assert(flags@.take(n as int) =~= flags@);
    count
}

/// The pool: one bounded queue per group of cores, the capacity each was
/// made with, the table from core to queue, and the number of workers.
#[verifier::reject_recursive_types(M)]
#[verifier::reject_recursive_types(S)]
pub struct Pool<M, S> {
    /// Sending halves of the queues, by queue index.
    pub queues: Vec<async_channel::Sender<Cmd<M, S>>>,
    /// Capacity each queue was made with, by queue index.
    pub capacities: Vec<usize>,
    /// Queue index of each core, by core index.
    pub topology: Vec<usize>,
    /// Number of worker threads.
    pub workers: usize,
}

/// A command on its way into the pool: the queue to put it on, the command
/// with its reply channel attached, and the end on which the caller awaits
/// the reply.
#[verifier::reject_recursive_types(M)]
#[verifier::reject_recursive_types(S)]
#[verifier::reject_recursive_types(R)]
pub struct Submission<M, S, R> {
    /// Index of the queue that `select_queue` picked.
    pub queue: usize,
    /// The command to enqueue.
    pub cmd: Cmd<M, S>,
    /// Where the reply arrives.
    pub reply: oneshot::Receiver<R>,
}

impl<M, S> Pool<M, S> {
    /// The pool is as a plan describes it: the number of workers and every
    /// capacity within the fixed limits, one capacity per queue, at least
    /// one queue and no more queues than workers, and every core mapped to
    /// an existing queue.
    pub open spec fn wf(&self) -> bool {
        &&& WORKER_MIN <= self.workers <= WORKER_MAX
        &&& 1 <= self.queues.len() <= self.workers
        &&& self.capacities.len() == self.queues.len()
        &&& self.topology.len() <= CORE_LIMIT
        &&& forall|g: int|
            0 <= g < self.capacities.len() ==> QUEUE_MIN <= #[trigger] self.capacities[g]
                <= QUEUE_MAX
        &&& forall|c: int|
            0 <= c < self.topology.len() ==> #[trigger] self.topology[c] < self.queues.len()
    }

    /// Builds the pool that `cfg` asks for: plans it, then makes one queue
    /// of the planned capacity per group. The receiving halves come back
    /// beside the pool, for `spawn_until`.
    pub fn new(cfg: &Config) -> (made: (Pool<M, S>, Vec<async_channel::Receiver<Cmd<M, S>>>))
        ensures
            made.0.wf(),
            made.0.workers == cfg.worker_count(),
            made.0.capacities@ == cfg.queue_sizes(),
            made.0.topology@ == cfg.table(),
            made.0.queues.len() == cfg.queue_count(),
            made.1.len() == made.0.queues.len(),
    {
        let plan = configure(cfg);
        Self::from_plan(plan)
    }

    /// Makes the queues of a plan.
    pub fn from_plan(plan: Plan) -> (made: (Pool<M, S>, Vec<async_channel::Receiver<Cmd<M, S>>>))
        requires
            plan.wf(),
        ensures
            made.0.wf(),
            made.0.workers == plan.workers,
            made.0.capacities == plan.queue_sizes,
            made.0.topology == plan.topology,
            made.0.queues.len() == plan.queue_sizes.len(),
            made.1.len() == made.0.queues.len(),
    {
        let mut queues: Vec<async_channel::Sender<Cmd<M, S>>> = Vec::new();
        let mut receivers: Vec<async_channel::Receiver<Cmd<M, S>>> = Vec::new();
        let n: usize = plan.queue_sizes.len();
        let mut g: usize = 0;
        while g < n
            invariant
                g <= n,
                n == plan.queue_sizes.len(),
                plan.wf(),
                queues.len() == g,
                receivers.len() == g,
            decreases n - g,
        {
            let (sender, receiver) = queue_bounded(plan.queue_sizes[g]);
            queues.push(sender);
            receivers.push(receiver);
            g = g + 1;
        }
        let pool = Pool {
            queues,
            capacities: plan.queue_sizes,
            topology: plan.topology,
            workers: plan.workers,
        };
        (pool, receivers)
    }

    /// Index of the queue for a caller on `core`; `None` where the core is
    /// unknown.
    pub fn select_index(&self, core: Option<usize>) -> (index: usize)
        requires
            self.wf(),
        ensures
            index == route(self.topology@, self.queues.len() as int, core),
            index < self.queues.len(),
    {
        let core_id: usize = match core {
            Some(c) => c,
            None => 0,
        };
        let chan: usize = if core_id < self.topology.len() {
            self.topology[core_id]
        } else {
            0
        };
        if chan < self.queues.len() {
            chan
        } else {
            0
        }
    }

    /// The queue for a caller on `core`. The choice depends on the core
    /// alone, never on how full a queue is.
    pub fn select_queue(&self, core: Option<usize>) -> (queue: &async_channel::Sender<Cmd<M, S>>)
        requires
            self.wf(),
        ensures
            *queue == self.queues[route(self.topology@, self.queues.len() as int, core)],
    {
        let index: usize = self.select_index(core);
        &self.queues[index]
    }

    /// Index of the queue that worker `id` serves.
    pub fn worker_group(&self, id: usize) -> (group: usize)
        requires
            self.wf(),
        ensures
            group == id % self.queues.len(),
            group < self.queues.len(),
    {
        id % self.queues.len()
    }

    /// Prepares worker `id`: the worker itself, and its own receiving half
    /// of the queue it serves.
    pub fn spawn_one(&self, id: usize, recv: &Vec<async_channel::Receiver<Cmd<M, S>>>) -> (spawned:
        (Worker, async_channel::Receiver<Cmd<M, S>>))
        requires
            self.wf(),
            recv.len() == self.queues.len(),
        ensures
            spawned.0 == (Worker {
                id,
                group: (id % self.queues.len()) as usize,
                phase: Phase::Init,
            }),
    {
        let worker = Worker::new(id, self.queues.len());
        let receiver = queue_receiver_clone(&recv[worker.group]);
        (worker, receiver)
    }

    /// Prepares workers 0 to `count - 1`, each with its receiving half. The
    /// halves in `recv` are given up; the workers' own keep the queues open.
    pub fn spawn_until(&self, recv: Vec<async_channel::Receiver<Cmd<M, S>>>, count: usize) -> (spawned:
        Vec<(Worker, async_channel::Receiver<Cmd<M, S>>)>)
        requires
            self.wf(),
            recv.len() == self.queues.len(),
        ensures
            spawned.len() == count,
            forall|i: int|
                0 <= i < count ==> (#[trigger] spawned[i]).0 == (Worker {
                    id: i as usize,
                    group: (i % self.queues.len() as int) as usize,
                    phase: Phase::Init,
                }),
    {
        let mut spawned: Vec<(Worker, async_channel::Receiver<Cmd<M, S>>)> = Vec::new();
        let mut id: usize = 0;
        while id < count
            invariant
                id <= count,
                self.wf(),
                recv.len() == self.queues.len(),
                spawned.len() == id,
                forall|i: int|
                    0 <= i < id ==> (#[trigger] spawned[i]).0 == (Worker {
                        id: i as usize,
                        group: (i % self.queues.len() as int) as usize,
                        phase: Phase::Init,
                    }),
            decreases count - id,
        {
            let one = self.spawn_one(id, &recv);
            spawned.push(one);
            id = id + 1;
        }
        spawned
    }

    /// Starts a worker: it is ready afterwards. The result is the cores to
    /// pin its thread to: those of its group, in increasing order, and none
    /// where the pool has a single queue.
    pub fn worker_init(&self, worker: &mut Worker) -> (cores: Vec<usize>)
        requires
            self.wf(),
            old(worker).phase == Phase::Init,
        ensures
            final(worker).id == old(worker).id,
            final(worker).group == old(worker).group,
            final(worker).phase == Phase::Ready,
            self.queues.len() <= 1 ==> cores@.len() == 0,
            self.queues.len() > 1 ==> lists_group(cores@, self.topology@, old(worker).group as int),
            self.queues.len() > 1 ==> cores@.len() == occurrences(
                self.topology@,
                old(worker).group as int,
            ),
    {
        let mut cores: Vec<usize> = Vec::new();
        let group: usize = worker.group;
        worker.phase = worker.phase.step(Event::Started);
        if self.queues.len() > 1 {
            let n: usize = self.topology.len();
            let mut c: usize = 0;
            while c < n
                invariant
                    c <= n,
                    n == self.topology.len(),
                    lists_group(cores@, self.topology@.take(c as int), group as int),
                    cores@.len() == occurrences(self.topology@.take(c as int), group as int),
                decreases n - c,
            {
                assert(self.topology@.take(c + 1).drop_last() =~= self.topology@.take(c as int));
                if self.topology[c] == group {
                    let ghost before = cores@;
                    cores.push(c);
                    assert(cores@[before.len() as int] == c);
                    assert forall|d: int|
                        0 <= d < c + 1 && #[trigger] self.topology@.take(c + 1)[d]
                            == group implies cores@.contains(d as usize) by {
                        if d < c {
                            assert(self.topology@.take(c as int)[d] == group);
                            let i = choose|i: int| 0 <= i < before.len() && before[i] == d as usize;
                            assert(cores@[i] == d as usize);
                        }
                    }
                } else {
                    assert forall|d: int|
                        0 <= d < c + 1 && #[trigger] self.topology@.take(c + 1)[d]
                            == group implies cores@.contains(d as usize) by {
                        assert(self.topology@.take(c as int)[d] == group);
                    }
                }
                c = c + 1;
            }
            assert(self.topology@.take(n as int) =~= self.topology@);
        }
        cores
    }

    /// Closes every queue: no queue accepts a command afterwards, and a
    /// worker that finds its queue drained terminates. Every queue is asked
    /// once, in order, and the result is `closed_count` of the answers: the
    /// number of queues that this call closed. A queue that was closed
    /// before is left as it is, so closing twice does no harm. Which queues
    /// were closed before depends on other threads, and so does the result.
    pub fn close(&self) -> (closed_now: usize)
        requires
            self.wf(),
        ensures
            closed_now <= self.queues.len(),
    {
        let n: usize = self.queues.len();
        let mut flags: Vec<bool> = Vec::new();
        let mut g: usize = 0;
        while g < n
            invariant
                g <= n,
                n == self.queues.len(),
                flags.len() == g,
            decreases n - g,
        {
            let closed = queue_close(&self.queues[g]);
            flags.push(closed);
            g = g + 1;
        }
        closed_count(&flags)
    }

    /// Looks at every queue once: whether it is closed, and whether it is
    /// empty. Other threads may be at work, so each answer holds for the
    /// moment it was taken.
    pub fn observe(&self) -> (states: Vec<QueueState>)
        requires
            self.wf(),
        ensures
            states.len() == self.queues.len(),
    {
        let n: usize = self.queues.len();
        let mut states: Vec<QueueState> = Vec::new();
        let mut g: usize = 0;
        while g < n
            invariant
                g <= n,
                n == self.queues.len(),
                states.len() == g,
            decreases n - g,
        {
            let closed = queue_is_closed(&self.queues[g]);
            let empty = queue_is_empty(&self.queues[g]);
            states.push(QueueState { closed, empty });
            g = g + 1;
        }
        states
    }

    /// Whether the pool may be torn down, as far as one look at the queues
    /// tells: `drained` of `observe`.
    pub fn is_drained(&self) -> (ok: bool)
        requires
            self.wf(),
    {
        let states = self.observe();
        drained(&states)
    }

    /// First step of a lookup: binds the command to a new reply channel and
    /// picks the queue for a caller on `core`.
    pub fn execute_get(&self, cmd: Get<M>, core: Option<usize>) -> (sub: Submission<
        M,
        S,
        BatchResult,
    >)
        requires
            self.wf(),
            cmd.has_keys(),
        ensures
            sub.queue == route(self.topology@, self.queues.len() as int, core),
            sub.queue < self.queues.len(),
            sub.cmd.wf(),
            sub.cmd matches Cmd::Get(get) && get.map == cmd.map && get.key == cmd.key,
    {
        let (send, reply) = reply_channel();
        let Get { map, key, res: _ } = cmd;
        let queue: usize = self.select_index(core);
        Submission { queue, cmd: Cmd::Get(Get { map, key, res: Some(send) }), reply }
    }

    /// First step of a seek: binds the command to a new reply channel and
    /// picks the queue for a caller on `core`.
    pub fn execute_iter(&self, cmd: Seek<M, S>, core: Option<usize>) -> (sub: Submission<M, S, S>)
        requires
            self.wf(),
        ensures
            sub.queue == route(self.topology@, self.queues.len() as int, core),
            sub.queue < self.queues.len(),
            sub.cmd.wf(),
            sub.cmd matches Cmd::Iter(seek) && seek.map == cmd.map && seek.state == cmd.state
                && seek.dir == cmd.dir && seek.key == cmd.key,
    {
        let (send, reply) = reply_channel();
        let Seek { map, state, dir, key, res: _ } = cmd;
        let queue: usize = self.select_index(core);
        Submission { queue, cmd: Cmd::Iter(Seek { map, state, dir, key, res: Some(send) }), reply }
    }
}

/// Second step of a submission: what the caller is told once the send into
/// the queue has ended. A queue refuses a command only when it is closed; a
/// full queue makes the send wait.
pub fn enqueued<T>(sent: Result<(), async_channel::SendError<T>>) -> (told: Result<(), Error>)
    ensures
        sent is Ok ==> told is Ok,
        sent is Err ==> told == Err::<(), Error>(Error::Closed),
{
    match sent {
        Ok(()) => Ok(()),
        Err(_) => Err(Error::Closed),
    }
}

/// Last step of a submission: what the caller is told once the wait for
/// the reply has ended. The reply is passed on as it came; a reply channel
/// that the worker dropped unused is reported as lost.
pub fn answered<T>(received: Result<T, oneshot::Canceled>) -> (told: Result<T, Error>)
    ensures
        received matches Ok(value) ==> told == Ok::<T, Error>(value),
        received is Err ==> told == Err::<T, Error>(Error::Lost),
{
    match received {
        Ok(value) => Ok(value),
        Err(_) => Err(Error::Lost),
    }
}

} // verus!
