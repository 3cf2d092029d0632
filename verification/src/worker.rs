//! The worker: the life of a worker thread as a state machine, and what it
//! does with one command.
//!
//! A worker starts, then waits for a command, handles it, and waits again,
//! until its queue is closed and drained. Handling has two halves with the
//! blocking storage call between them: `worker_handle` decides from the
//! command what is to be asked of the storage engine, if anything, and
//! `worker_reply` sends back what the engine answered.

use std::sync::Arc;
use vstd::prelude::*;
use futures::channel::oneshot;
use crate::channel::{queue_recv_blocking, reply_is_canceled, reply_send};
use crate::command::{BatchResult, Cmd, Direction, Get, Outcome, Seek};

verus! {

/// Where a worker is in its life.
#[derive(Clone, Copy, Debug, PartialEq, Eq, Structural)]
pub enum Phase {
    /// Created, not yet pinned to its cores.
    Init,
    /// Waiting for a command.
    Ready,
    /// Handling a command.
    Busy,
    /// Its queue is closed and drained; the thread exits.
    Terminated,
}

/// What moves a worker from one phase to the next.
#[derive(Clone, Copy, Debug, PartialEq, Eq, Structural)]
pub enum Event {
    /// The worker was pinned to its cores.
    Started,
    /// A command arrived.
    Received,
    /// The queue was found closed and empty.
    Drained,
    /// The command was answered or skipped.
    Handled,
}

impl Phase {
    /// The phase after `event`. An event that the phase does not expect
    /// changes nothing; in particular nothing leaves `Terminated`.
    pub open spec fn after(self, event: Event) -> Phase {
        match (self, event) {
            (Phase::Init, Event::Started) => Phase::Ready,
            (Phase::Ready, Event::Received) => Phase::Busy,
            (Phase::Ready, Event::Drained) => Phase::Terminated,
            (Phase::Busy, Event::Handled) => Phase::Ready,
            _ => self,
        }
    }

    /// Moves to the phase after `event`.
    pub fn step(self, event: Event) -> (next: Phase)
        ensures
            next == self.after(event),
    {
        match (self, event) {
            (Phase::Init, Event::Started) => Phase::Ready,
            (Phase::Ready, Event::Received) => Phase::Busy,
            (Phase::Ready, Event::Drained) => Phase::Terminated,
            (Phase::Busy, Event::Handled) => Phase::Ready,
            _ => self,
        }
    }

    /// Whether the worker counts as busy: it is handling a command.
    pub fn is_busy(self) -> (busy: bool)
        ensures
            busy == (self == Phase::Busy),
    {
        match self {
            Phase::Busy => true,
            _ => false,
        }
    }
}

/// What a worker asks of the storage engine for one command. The reply
/// channel travels with the request, to be used once the engine answered.
#[verifier::reject_recursive_types(S)]
#[allow(inconsistent_fields)]
pub enum Task<M, S> {
    /// Look up one key.
    Point { map: Arc<M>, key: Vec<u8>, reply: oneshot::Sender<BatchResult> },
    /// Look up several keys with the engine's batch lookup.
    Batch { map: Arc<M>, keys: Vec<Vec<u8>>, reply: oneshot::Sender<BatchResult> },
    /// Initialise an iterator state in a direction, from a start key if
    /// there is one.
    Seek {
        map: Arc<M>,
        state: S,
        dir: Direction,
        from: Option<Vec<u8>>,
        reply: oneshot::Sender<S>,
    },
}

impl<M, S> Task<M, S> {
    /// `self` is the request that command `cmd` stands for: a point lookup
    /// for a single key, a batch lookup of the same keys in the same order
    /// for several, a seek with the same direction, start key and state;
    /// each on the command's map and with the command's reply channel.
    pub open spec fn serves(self, cmd: Cmd<M, S>) -> bool {
        match cmd {
            Cmd::Get(g) => {
                if g.key@.len() == 1 {
                    &&& self matches Task::Point { map, key, reply }
                    &&& map == g.map
                    &&& key == g.key@[0]
                    &&& g.res == Some(reply)
                } else {
                    &&& self matches Task::Batch { map, keys, reply }
                    &&& map == g.map
                    &&& keys@ == g.key@
                    &&& g.res == Some(reply)
                }
            },
            Cmd::Iter(s) => {
                &&& self matches Task::Seek { map, state, dir, from, reply }
                &&& map == s.map
                &&& state == s.state
                &&& dir == s.dir
                &&& from == s.key
                &&& s.res == Some(reply)
            },
        }
    }
}

/// The storage engine's side of a lookup: one outcome per key of the
/// request, in the order of the keys, each what `lookup` gives for its key.
pub open spec fn answers<M, S>(
    task: Task<M, S>,
    lookup: spec_fn(Vec<u8>) -> Outcome,
    outcomes: Seq<Outcome>,
) -> bool {
    match task {
        Task::Point { key, .. } => outcomes == seq![lookup(key)],
        Task::Batch { keys, .. } => {
            &&& outcomes.len() == keys@.len()
            &&& forall|i: int| 0 <= i < keys@.len() ==> #[trigger] outcomes[i] == lookup(keys@[i])
        },
        Task::Seek { .. } => false,
    }
}

/// A lookup answers key by key: where the storage engine answers a request
/// as `answers` says, the outcomes are as many as the command's keys and
/// the outcome at each position belongs to the key at that position. This
/// holds for one key and for several alike.
pub proof fn lemma_outcomes_follow_keys<M, S>(
    cmd: Get<M>,
    task: Task<M, S>,
    lookup: spec_fn(Vec<u8>) -> Outcome,
    outcomes: Seq<Outcome>,
)
    requires
        cmd.wf(),
        task.serves(Cmd::Get(cmd)),
        answers(task, lookup, outcomes),
    ensures
        outcomes.len() == cmd.key@.len(),
        forall|i: int| 0 <= i < cmd.key@.len() ==> #[trigger] outcomes[i] == lookup(cmd.key@[i]),
{
}

/// Handles a lookup of one key. Where the caller has gone (`canceled`)
/// nothing is asked of the storage engine.
pub fn handle_get<M, S>(cmd: Get<M>, canceled: bool) -> (task: Option<Task<M, S>>)
    requires
        cmd.wf(),
        cmd.key@.len() == 1,
    ensures
        canceled ==> task is None,
        !canceled ==> task is Some && task.unwrap().serves(Cmd::Get(cmd)),
{
    let Get { map, key, res } = cmd;
    let reply = res.unwrap();
    if canceled {
        return None;
    }
    let mut keys = key.into_keys();
    let key = keys.pop().unwrap();
    Some(Task::Point { map, key, reply })
}

/// Handles a lookup of several keys. Where the caller has gone (`canceled`)
/// nothing is asked of the storage engine.
pub fn handle_batch<M, S>(cmd: Get<M>, canceled: bool) -> (task: Option<Task<M, S>>)
    requires
        cmd.wf(),
        cmd.key@.len() > 1,
    ensures
        canceled ==> task is None,
        !canceled ==> task is Some && task.unwrap().serves(Cmd::Get(cmd)),
{
    let Get { map, key, res } = cmd;
    let reply = res.unwrap();
    if canceled {
        return None;
    }
    let keys = key.into_keys();
    Some(Task::Batch { map, keys, reply })
}

/// Handles an iterator seek. Where the caller has gone (`canceled`) nothing
/// is asked of the storage engine.
pub fn handle_iter<M, S>(cmd: Seek<M, S>, canceled: bool) -> (task: Option<Task<M, S>>)
    requires
        cmd.wf(),
    ensures
        canceled ==> task is None,
        !canceled ==> task is Some && task.unwrap().serves(Cmd::Iter(cmd)),
{
    let Seek { map, state, dir, key, res } = cmd;
    let reply = res.unwrap();
    if canceled {
        return None;
    }
    Some(Task::Seek { map, state, dir, from: key, reply })
}

/// Picks the handler for a command: by its kind, and for a lookup by the
/// number of its keys.
pub fn dispatch<M, S>(cmd: Cmd<M, S>, canceled: bool) -> (task: Option<Task<M, S>>)
    requires
        cmd.wf(),
    ensures
        canceled ==> task is None,
        !canceled ==> task is Some && task.unwrap().serves(cmd),
{
    match cmd {
        Cmd::Get(get) => {
            if get.key.len() == 1 {
                handle_get(get, canceled)
            } else {
                handle_batch(get, canceled)
            }
        },
        Cmd::Iter(seek) => handle_iter(seek, canceled),
    }
}

/// One worker thread's share of the pool: its number, the queue it serves
/// and its phase.
#[derive(Clone, Copy, Debug, PartialEq, Eq, Structural)]
pub struct Worker {
    /// Number of the worker, counted from 0 in the order of spawning.
    pub id: usize,
    /// Index of the queue the worker serves.
    pub group: usize,
    /// Where the worker is in its life.
    pub phase: Phase,
}

impl Worker {
    /// Worker `id` of a pool with `queues` queues. Workers are dealt to
    /// queues in turn, so worker `id` serves queue `id % queues`.
    pub fn new(id: usize, queues: usize) -> (worker: Worker)
        requires
            queues > 0,
        ensures
            worker == (Worker { id, group: (id % queues) as usize, phase: Phase::Init }),
    {
        Worker { id, group: id % queues, phase: Phase::Init }
    }

    /// Blocks until a command arrives on the worker's queue or the queue is
    /// closed and drained. With a command the worker is busy; without one
    /// it has terminated.
    pub fn worker_wait<M, S>(&mut self, recv: &async_channel::Receiver<Cmd<M, S>>) -> (cmd: Option<
        Cmd<M, S>,
    >)
        requires
            old(self).phase == Phase::Ready,
        ensures
            final(self).id == old(self).id,
            final(self).group == old(self).group,
            cmd is Some ==> final(self).phase == old(self).phase.after(Event::Received),
            cmd is None ==> final(self).phase == old(self).phase.after(Event::Drained),
    {
        let cmd = queue_recv_blocking(recv);
        let event = if cmd.is_some() { Event::Received } else { Event::Drained };
        self.phase = self.phase.step(event);
        cmd
    }

    /// First half of handling a command. The worker looks once whether the
    /// caller has gone. If so the command is dropped, nothing is asked of
    /// the storage engine, and the worker is ready again. Otherwise the
    /// result is the request that the command stands for, and the worker
    /// stays busy until `worker_reply`.
    pub fn worker_handle<M, S>(&mut self, cmd: Cmd<M, S>) -> (task: Option<Task<M, S>>)
        requires
            old(self).phase == Phase::Busy,
            cmd.wf(),
        ensures
            final(self).id == old(self).id,
            final(self).group == old(self).group,
            task is Some ==> task.unwrap().serves(cmd) && final(self).phase == Phase::Busy,
            task is None ==> final(self).phase == Phase::Ready,
    {
        let canceled = match &cmd {
            Cmd::Get(get) => reply_is_canceled(get.res.as_ref().unwrap()),
            Cmd::Iter(seek) => reply_is_canceled(seek.res.as_ref().unwrap()),
        };
        let task = dispatch(cmd, canceled);
        if task.is_none() {
            self.phase = self.phase.step(Event::Handled);
        }
        task
    }

    /// Second half of handling a command: sends `value` to the caller. The
    /// result tells whether the caller was still there; where it was not,
    /// the value is dropped and nobody is told. Either way the worker is
    /// ready again.
    pub fn worker_reply<T>(&mut self, reply: oneshot::Sender<T>, value: T) -> (sent: bool)
        requires
            old(self).phase == Phase::Busy,
        ensures
            final(self).id == old(self).id,
            final(self).group == old(self).group,
            final(self).phase == Phase::Ready,
    {
        let sent = reply_send(reply, value);
        self.phase = self.phase.step(Event::Handled);
        sent
    }
}

} // verus!
