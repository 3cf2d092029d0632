//! The topology planner: from the number of available cores and the
//! configured sizes to the worker count, the capacity of every queue and the
//! table that maps a core to its queue.

use vstd::prelude::*;
use crate::limits::{clamp, clamped, CORE_LIMIT, QUEUE_MAX, QUEUE_MIN, WORKER_MAX, WORKER_MIN};

verus! {

/// What the planner is given. Every value is accepted; out-of-range ones are
/// clamped.
#[derive(Clone, Copy, Debug, PartialEq, Eq)]
pub struct Config {
    /// Cores available to the process; 0 when CPU affinity is unavailable.
    pub cores: usize,
    /// Requested number of workers; 0 asks for one per available core.
    pub workers: usize,
    /// Cores that share one queue; 0 asks for a single queue.
    pub group_width: usize,
    /// Queue slots per worker that serves the queue.
    pub queue_mult: usize,
}

/// What the planner decides.
#[derive(Clone, Debug, PartialEq, Eq)]
pub struct Plan {
    /// Number of worker threads.
    pub workers: usize,
    /// Capacity of each queue, by queue index.
    pub queue_sizes: Vec<usize>,
    /// Queue index of each core, by core index.
    pub topology: Vec<usize>,
}

/// The smaller of two integers.
pub open spec fn least(a: int, b: int) -> int {
    if a <= b {
        a
    } else {
        b
    }
}

/// `a / b` rounded up, for a positive `b`.
pub open spec fn ceil_div(a: int, b: int) -> int {
    (a + b - 1) / b
}

/// Size of part `g` when `total` items are dealt to `parts` parts as evenly
/// as possible, the first `total % parts` parts getting the extra item.
pub open spec fn share(total: int, parts: int, g: int) -> int {
    total / parts + if g < total % parts { 1int } else { 0int }
}

/// Index of the first item of part `g` when the parts of `share` are laid
/// out one after another.
pub open spec fn block_start(total: int, parts: int, g: int) -> int {
    g * (total / parts) + least(g, total % parts)
}

/// The part that item `c` falls in under that layout.
pub open spec fn block_of(total: int, parts: int, c: int) -> int {
    let base = total / parts;
    let extra = total % parts;
    let big = extra * (base + 1);
    if c < big {
        c / (base + 1)
    } else {
        extra + (c - big) / base
    }
}

/// Number of entries of `t` equal to `g`.
pub open spec fn occurrences(t: Seq<usize>, g: int) -> nat
    decreases t.len(),
{
    if t.len() == 0 {
        0
    } else {
        occurrences(t.drop_last(), g) + if t.last() == g { 1nat } else { 0nat }
    }
}

/// No two of the first `parts` groups differ by more than one entry of `t`.
pub open spec fn balanced(t: Seq<usize>, parts: int) -> bool {
    forall|g: int, h: int|
        #![trigger occurrences(t, g), occurrences(t, h)]
        0 <= g < parts && 0 <= h < parts ==> occurrences(t, g) <= occurrences(t, h) + 1
}

impl Config {
    /// Length of the core-to-queue table.
    pub open spec fn table_len(self) -> int {
        least(self.cores as int, CORE_LIMIT as int)
    }

    /// Number of workers.
    pub open spec fn worker_count(self) -> int {
        clamped(
            if self.workers == 0 { self.cores as int } else { self.workers as int },
            WORKER_MIN as int,
            WORKER_MAX as int,
        )
    }

    /// Number of queues: one per group of `group_width` cores, never more
    /// than there are workers, and one where affinity is unavailable.
    pub open spec fn queue_count(self) -> int {
        if self.table_len() == 0 || self.group_width == 0 {
            1
        } else {
            least(ceil_div(self.table_len(), self.group_width as int), self.worker_count())
        }
    }

    /// Number of workers that serve queue `g`.
    pub open spec fn queue_workers(self, g: int) -> int {
        share(self.worker_count(), self.queue_count(), g)
    }

    /// Capacity of queue `g`.
    pub open spec fn queue_size(self, g: int) -> int {
        clamped(self.queue_workers(g) * self.queue_mult, QUEUE_MIN as int, QUEUE_MAX as int)
    }

    /// Queue of core `c`.
    pub open spec fn core_queue(self, c: int) -> int {
        block_of(self.table_len(), self.queue_count(), c)
    }

    /// The capacities of all queues.
    pub open spec fn queue_sizes(self) -> Seq<usize> {
        Seq::new(self.queue_count() as nat, |g: int| self.queue_size(g) as usize)
    }

    /// The whole core-to-queue table.
    pub open spec fn table(self) -> Seq<usize> {
        Seq::new(self.table_len() as nat, |c: int| self.core_queue(c) as usize)
    }
}

impl Plan {
    /// A plan that a pool can be built from: the worker count and every
    /// capacity within the fixed limits, at least one queue and no more
    /// queues than workers, and every core mapped to an existing queue.
    pub open spec fn wf(self) -> bool {
        &&& WORKER_MIN <= self.workers <= WORKER_MAX
        &&& 1 <= self.queue_sizes.len() <= self.workers
        &&& self.topology.len() <= CORE_LIMIT
        &&& forall|g: int|
            0 <= g < self.queue_sizes.len() ==> QUEUE_MIN <= #[trigger] self.queue_sizes[g]
                <= QUEUE_MAX
        &&& forall|c: int|
            0 <= c < self.topology.len() ==> #[trigger] self.topology[c] < self.queue_sizes.len()
    }
}

/// Division facts about `share`: a part is never negative, two parts differ
/// by at most one item, and no part is empty where there are at least as
/// many items as parts.
pub proof fn lemma_share_bounds(total: int, parts: int, g: int)
    requires
        0 <= total,
        0 < parts,
    ensures
        0 <= total / parts <= share(total, parts, g) <= total / parts + 1,
        parts <= total ==> 1 <= share(total, parts, g),
        0 <= total % parts < parts,
        total == parts * (total / parts) + total % parts,
{
    assert(0 <= total / parts && 0 <= total % parts < parts && total == parts * (total / parts)
        + total % parts && (parts <= total ==> 1 <= total / parts)) by (nonlinear_arith)
        requires
            0 <= total,
            0 < parts,
    ;
}

/// A part spans from its start to the start of the next part.
pub proof fn lemma_block_width(total: int, parts: int, g: int)
    requires
        0 <= total,
        0 < parts,
        0 <= g,
    ensures
        block_start(total, parts, g + 1) == block_start(total, parts, g) + share(total, parts, g),
        0 <= block_start(total, parts, g),
{
    let base = total / parts;
    lemma_share_bounds(total, parts, g);
    assert((g + 1) * base == g * base + base && 0 <= g * base) by (nonlinear_arith)
        requires
            0 <= g,
            0 <= base,
    ;
}

/// Parts are laid out in order: a later part starts no earlier.
pub proof fn lemma_block_start_ordered(total: int, parts: int, g: int, h: int)
    requires
        0 <= total,
        0 < parts,
        0 <= g <= h,
    ensures
        block_start(total, parts, g) <= block_start(total, parts, h),
{
    let base = total / parts;
    lemma_share_bounds(total, parts, g);
    assert(g * base <= h * base) by (nonlinear_arith)
        requires
            0 <= g <= h,
            0 <= base,
    ;
}

/// The parts cover the items exactly: the part after the last starts at
/// `total`.
pub proof fn lemma_block_end(total: int, parts: int)
    requires
        0 <= total,
        0 < parts,
    ensures
        block_start(total, parts, parts) == total,
{
    lemma_share_bounds(total, parts, 0);
    assert(parts * (total / parts) == (total / parts) * parts) by (nonlinear_arith);
}

/// An item lies in the part that `block_of` names.
pub proof fn lemma_block_of_within(total: int, parts: int, c: int)
    requires
        0 < parts <= total,
        0 <= c < total,
    ensures
        0 <= block_of(total, parts, c) < parts,
        block_start(total, parts, block_of(total, parts, c)) <= c < block_start(
            total,
            parts,
            block_of(total, parts, c) + 1,
        ),
{
    let base = total / parts;
    let extra = total % parts;
    let big = extra * (base + 1);
    let g = block_of(total, parts, c);
    lemma_share_bounds(total, parts, 0);
    if c < big {
        let d = base + 1;
        assert(0 <= g && g * d <= c < (g + 1) * d && g < extra) by (nonlinear_arith)
            requires
                0 <= c < extra * d,
                0 < d,
                g == c / d,
                0 <= extra,
        ;
        assert(g * d == g * base + g && (g + 1) * d == (g + 1) * base + (g + 1))
            by (nonlinear_arith)
            requires
                d == base + 1,
        ;
    } else {
        let k = (c - big) / base;
        assert(0 <= k && k * base <= c - big < (k + 1) * base) by (nonlinear_arith)
            requires
                0 <= c - big,
                0 < base,
                k == (c - big) / base,
        ;
        assert(big == extra * base + extra && (extra + k) * base == extra * base + k * base && (
        extra + k + 1) * base == extra * base + (k + 1) * base) by (nonlinear_arith)
            requires
                big == extra * (base + 1),
        ;
        assert(extra + k < parts) by (nonlinear_arith)
            requires
                (extra + k) * base + extra <= c,
                c < parts * base + extra,
                0 < base,
        ;
    }
}

/// An item lies in no other part than the one `block_of` names.
pub proof fn lemma_block_of_unique(total: int, parts: int, c: int, g: int)
    requires
        0 < parts <= total,
        0 <= c < total,
        0 <= g < parts,
    ensures
        block_of(total, parts, c) == g <==> block_start(total, parts, g) <= c < block_start(
            total,
            parts,
            g + 1,
        ),
{
    let at = block_of(total, parts, c);
    lemma_block_of_within(total, parts, c);
    if at < g {
        lemma_block_start_ordered(total, parts, at + 1, g);
    } else if g < at {
        lemma_block_start_ordered(total, parts, g + 1, at);
    }
}

/// Among the first `k` items, those of part `g` are the ones from the
/// part's start on, up to the part's size.
pub proof fn lemma_block_occurrences(total: int, parts: int, k: int, g: int)
    requires
        0 < parts <= total <= usize::MAX,
        0 <= k <= total,
        0 <= g < parts,
    ensures
        occurrences(
            Seq::new(total as nat, |c: int| block_of(total, parts, c) as usize).take(k),
            g,
        ) == clamped(k - block_start(total, parts, g), 0, share(total, parts, g)),
    decreases k,
{
    let t = Seq::new(total as nat, |c: int| block_of(total, parts, c) as usize);
    lemma_block_width(total, parts, g);
    lemma_share_bounds(total, parts, g);
    if k > 0 {
        lemma_block_occurrences(total, parts, k - 1, g);
        lemma_block_of_within(total, parts, k - 1);
        lemma_block_of_unique(total, parts, k - 1, g);
        assert(t.take(k).drop_last() =~= t.take(k - 1));
        assert(t.take(k).last() == block_of(total, parts, k - 1) as usize);
    }
}

/// Dealing `total` items to `parts` parts in blocks gives part `g` exactly
/// `share(total, parts, g)` items.
pub proof fn lemma_blocks_hold_shares(total: int, parts: int, g: int)
    requires
        0 < parts <= total <= usize::MAX,
        0 <= g < parts,
    ensures
        occurrences(Seq::new(total as nat, |c: int| block_of(total, parts, c) as usize), g)
            == share(total, parts, g),
{
    let t = Seq::new(total as nat, |c: int| block_of(total, parts, c) as usize);
    lemma_block_occurrences(total, parts, total, g);
    assert(t.take(total) =~= t);
    lemma_block_width(total, parts, g);
    lemma_block_start_ordered(total, parts, g + 1, parts);
    lemma_block_end(total, parts);
}

/// The queue of each worker when `workers` workers are dealt to `queues`
/// queues in turn.
pub open spec fn worker_groups(workers: int, queues: int) -> Seq<usize> {
    Seq::new(workers as nat, |id: int| (id % queues) as usize)
}

/// Dealing `total` workers to `parts` queues in turn gives queue `g` exactly
/// `share(total, parts, g)` workers.
pub proof fn lemma_turns_hold_shares(total: int, parts: int, g: int)
    requires
        0 <= total,
        0 < parts <= usize::MAX,
        0 <= g < parts,
    ensures
        occurrences(worker_groups(total, parts), g) == share(total, parts, g),
    decreases total,
{
    if total == 0 {
        assert(0int / parts == 0 && 0int % parts == 0) by (nonlinear_arith)
            requires
                0 < parts,
        ;
    } else {
        let k = total - 1;
        lemma_turns_hold_shares(k, parts, g);
        lemma_share_bounds(k, parts, g);
        let d = k / parts;
        let r = k % parts;
        assert(((d + 1) * parts == d * parts + parts) && d * parts == parts * d)
            by (nonlinear_arith);
        if r == parts - 1 {
            vstd::arithmetic::div_mod::lemma_fundamental_div_mod_converse(total, parts, d + 1, 0);
        } else {
            vstd::arithmetic::div_mod::lemma_fundamental_div_mod_converse(total, parts, d, r + 1);
        }
        assert(worker_groups(total, parts).drop_last() =~= worker_groups(k, parts));
        assert(worker_groups(total, parts).last() == r as usize);
    }
}

/// Every table `Config::table` describes is balanced, and every queue is
/// served by at least one worker.
pub proof fn lemma_plan_is_fair(cfg: Config)
    ensures
        1 <= cfg.queue_count() <= cfg.worker_count(),
        cfg.table_len() > 0 ==> cfg.queue_count() <= cfg.table_len(),
        balanced(cfg.table(), cfg.queue_count()),
        forall|g: int| 0 <= g < cfg.queue_count() ==> 1 <= #[trigger] cfg.queue_workers(g),
        forall|g: int|
            0 <= g < cfg.queue_count() && cfg.table_len() > 0 ==> #[trigger] occurrences(
                cfg.table(),
                g,
            ) == share(cfg.table_len(), cfg.queue_count(), g),
{
    let n = cfg.table_len();
    let q = cfg.queue_count();
    let w = cfg.worker_count();
    if n > 0 && cfg.group_width > 0 {
        let width = cfg.group_width as int;
        assert(1 <= ceil_div(n, width) <= n) by (nonlinear_arith)
            requires
                0 < n,
                0 < width,
        ;
    }
    assert forall|g: int| 0 <= g < q implies 1 <= #[trigger] cfg.queue_workers(g) by {
        lemma_share_bounds(w, q, g);
    }
    if n > 0 {
        assert forall|g: int| 0 <= g < q implies #[trigger] occurrences(cfg.table(), g) == share(
            n,
            q,
            g,
        ) by {
            lemma_blocks_hold_shares(n, q, g);
            assert(cfg.table() =~= Seq::new(n as nat, |c: int| block_of(n, q, c) as usize));
        }
        assert forall|g: int, h: int|
            #![trigger occurrences(cfg.table(), g), occurrences(cfg.table(), h)]
            0 <= g < q && 0 <= h < q implies occurrences(cfg.table(), g) <= occurrences(
            cfg.table(),
            h,
        ) + 1 by {
            lemma_share_bounds(n, q, g);
            lemma_share_bounds(n, q, h);
        }
    } else {
        assert(cfg.table() =~= Seq::empty());
    }
}

/// The planner. The worker count is the requested one, or the number of
/// cores where none is requested, clamped to the fixed limits. There is one
/// queue per `group_width` cores but never more queues than workers, and a
/// single queue where affinity is unavailable. Workers are dealt to queues
/// as evenly as possible, and a queue holds `queue_mult` slots per worker,
/// clamped to the fixed limits. Cores are dealt to queues in blocks of
/// neighbours, as evenly as possible.
pub fn configure(cfg: &Config) -> (plan: Plan)
    ensures
        plan.workers == cfg.worker_count(),
        plan.queue_sizes@ == cfg.queue_sizes(),
        plan.topology@ == cfg.table(),
        plan.wf(),
        balanced(plan.topology@, plan.queue_sizes.len() as int),
{
    let cores: usize = if cfg.cores < CORE_LIMIT { cfg.cores } else { CORE_LIMIT };
    let wanted: usize = if cfg.workers == 0 { cfg.cores } else { cfg.workers };
    let workers: usize = clamp(wanted, WORKER_MIN, WORKER_MAX);
    let queues: usize = if cores == 0 || cfg.group_width == 0 {
        1
    } else {
        let groups: usize = (cores - 1) / cfg.group_width + 1;
        assert(groups == ceil_div(cores as int, cfg.group_width as int)) by (nonlinear_arith)
            requires
                groups == (cores - 1) / (cfg.group_width as int) + 1,
                0 < cores,
                0 < cfg.group_width,
        ;
        if groups < workers { groups } else { workers }
    };
    proof {
        lemma_plan_is_fair(*cfg);
        lemma_share_bounds(workers as int, queues as int, 0);
        lemma_share_bounds(cores as int, queues as int, 0);
    }
    let mut queue_sizes: Vec<usize> = Vec::new();
    let mut g: usize = 0;
    while g < queues
        invariant
            g <= queues,
            queues == cfg.queue_count(),
            workers == cfg.worker_count(),
            1 <= queues <= workers <= WORKER_MAX,
            queue_sizes.len() == g,
            forall|i: int| 0 <= i < g ==> #[trigger] queue_sizes[i] == cfg.queue_size(i),
        decreases queues - g,
    {
        let per: usize = workers / queues + if g < workers % queues { 1usize } else { 0usize };
        proof {
            lemma_share_bounds(workers as int, queues as int, g as int);
        }
        let size: usize = if cfg.queue_mult >= QUEUE_MAX {
            assert(per * cfg.queue_mult >= QUEUE_MAX) by (nonlinear_arith)
                requires
                    1 <= per,
                    cfg.queue_mult >= QUEUE_MAX,
            ;
            QUEUE_MAX
        } else {
            assert(per * cfg.queue_mult <= 1025 * 2048) by (nonlinear_arith)
                requires
                    per <= 1025,
                    cfg.queue_mult < 2048,
            ;
            clamp(per * cfg.queue_mult, QUEUE_MIN, QUEUE_MAX)
        };
        queue_sizes.push(size);
        g = g + 1;
    }
    let mut topology: Vec<usize> = Vec::new();
    if cores > 0 {
        let base: usize = cores / queues;
        let extra: usize = cores % queues;
        assert(extra * (base + 1) <= cores && 1 <= base) by (nonlinear_arith)
            requires
                cores == queues * base + extra,
                0 <= extra < queues,
                queues <= cores,
                0 <= base,
        ;
        let big: usize = extra * (base + 1);
        let mut c: usize = 0;
        while c < cores
            invariant
                c <= cores,
                cores == cfg.table_len(),
                queues == cfg.queue_count(),
                0 < queues <= cores <= CORE_LIMIT,
                base == cores / queues,
                extra == cores % queues,
                big == extra * (base + 1),
                1 <= base,
                topology.len() == c,
                forall|i: int| 0 <= i < c ==> #[trigger] topology[i] == cfg.core_queue(i),
                forall|i: int| 0 <= i < c ==> #[trigger] topology[i] < queues,
            decreases cores - c,
        {
            proof {
                lemma_block_of_within(cores as int, queues as int, c as int);
            }
            let at: usize = if c < big {
                c / (base + 1)
            } else {
                extra + (c - big) / base
            };
            topology.push(at);
            c = c + 1;
        }
    }
    assert(queue_sizes@ =~= cfg.queue_sizes());
    assert(topology@ =~= cfg.table());
    Plan { workers, queue_sizes, topology }
}

} // verus!
