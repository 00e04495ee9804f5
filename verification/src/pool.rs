//! Accounting of the blocking task pool, its configurations, and the
//! latency-driven concurrency limit.
use vstd::prelude::*;

verus! {

/// `num_cpus::get`: the number of CPUs this process may use. The crate
/// documents that it is at least one; the value depends on the machine.
#[verifier::external_body]
fn cpu_count() -> (n: usize)
    ensures
        n >= 1,
{
    num_cpus::get()
}

/// `a * b`, or `usize::MAX` where that does not fit.
pub open spec fn sat_mul(a: usize, b: usize) -> usize {
    if a * b > usize::MAX { usize::MAX } else { (a * b) as usize }
}

fn saturating_times(a: usize, b: usize) -> (r: usize)
    ensures
        r == sat_mul(a, b),
{
    match a.checked_mul(b) {
        Some(x) => x,
        None => usize::MAX,
    }
}

/// How the blocking pool is set up.
#[derive(Clone, Debug)]
pub struct BlockingPoolConfig {
    /// Number of threads; zero leaves the runtime's default.
    pub pool_size: usize,
    pub thread_name_prefix: String,
    pub stack_size: usize,
    pub task_timeout_secs: u64,
    pub max_queue_depth: usize,
}

impl Default for BlockingPoolConfig {
    fn default() -> (c: Self)
        ensures
            c.pool_size == 0,
            c.thread_name_prefix@ == "blocking-"@,
            c.stack_size == 2 * 1024 * 1024,
            c.task_timeout_secs == 60,
            c.max_queue_depth == 1000,
    {
        BlockingPoolConfig {
            pool_size: 0,
            thread_name_prefix: "blocking-".to_string(),
            stack_size: 2 * 1024 * 1024,
            task_timeout_secs: 60,
            max_queue_depth: 1000,
        }
    }
}

impl BlockingPoolConfig {
    /// This is the CPU-bound configuration for `cpus` processors: two
    /// threads and ten queued tasks per processor.
    pub open spec fn is_cpu_intensive_for(&self, cpus: usize) -> bool {
        &&& self.pool_size == sat_mul(cpus, 2)
        &&& self.thread_name_prefix@ == "cpu-intensive-"@
        &&& self.stack_size == 4 * 1024 * 1024
        &&& self.task_timeout_secs == 30
        &&& self.max_queue_depth == sat_mul(cpus, 10)
    }

    /// This is the I/O-bound configuration for `cpus` processors: four
    /// threads and twenty queued tasks per processor.
    pub open spec fn is_io_intensive_for(&self, cpus: usize) -> bool {
        &&& self.pool_size == sat_mul(cpus, 4)
        &&& self.thread_name_prefix@ == "io-intensive-"@
        &&& self.stack_size == 2 * 1024 * 1024
        &&& self.task_timeout_secs == 300
        &&& self.max_queue_depth == sat_mul(cpus, 20)
    }

    pub fn cpu_intensive_for(cpus: usize) -> (c: Self)
        ensures
            c.is_cpu_intensive_for(cpus),
    {
        BlockingPoolConfig {
            pool_size: saturating_times(cpus, 2),
            thread_name_prefix: "cpu-intensive-".to_string(),
            stack_size: 4 * 1024 * 1024,
            task_timeout_secs: 30,
            max_queue_depth: saturating_times(cpus, 10),
        }
    }

    pub fn io_intensive_for(cpus: usize) -> (c: Self)
        ensures
            c.is_io_intensive_for(cpus),
    {
        BlockingPoolConfig {
            pool_size: saturating_times(cpus, 4),
            thread_name_prefix: "io-intensive-".to_string(),
            stack_size: 2 * 1024 * 1024,
            task_timeout_secs: 300,
            max_queue_depth: saturating_times(cpus, 20),
        }
    }

    /// The CPU-bound configuration for this machine.
    pub fn for_cpu_intensive() -> (c: Self)
        ensures
            exists|n: usize| n >= 1 && c.is_cpu_intensive_for(n),
    {
        let n = cpu_count();
        Self::cpu_intensive_for(n)
    }

    /// The I/O-bound configuration for this machine.
    pub fn for_io_intensive() -> (c: Self)
        ensures
            exists|n: usize| n >= 1 && c.is_io_intensive_for(n),
    {
        let n = cpu_count();
        Self::io_intensive_for(n)
    }
}


/// Counters of the tasks a pool has run.
#[derive(Debug)]
pub struct TaskStats {
    pub total_tasks: usize,
    pub completed_tasks: usize,
    pub cancelled_tasks: usize,
    pub timeout_tasks: usize,
    pub failed_tasks: usize,
    pub total_execution_time_ms: usize,
}

impl Default for TaskStats {
    fn default() -> (s: Self)
        ensures
            s.total_tasks == 0,
            s.completed_tasks == 0,
            s.cancelled_tasks == 0,
            s.timeout_tasks == 0,
            s.failed_tasks == 0,
            s.total_execution_time_ms == 0,
    {
        TaskStats {
            total_tasks: 0,
            completed_tasks: 0,
            cancelled_tasks: 0,
            timeout_tasks: 0,
            failed_tasks: 0,
            total_execution_time_ms: 0,
        }
    }
}

impl TaskStats {
    /// A task finished after `duration_ms` milliseconds. The counters wrap
    /// around as atomic counters do.
    pub fn record_completion(&mut self, duration_ms: u64)
        ensures
            final(self).completed_tasks == old(self).completed_tasks.wrapping_add(1),
            final(self).total_execution_time_ms == old(self).total_execution_time_ms.wrapping_add(
                duration_ms as usize,
            ),
            final(self).total_tasks == old(self).total_tasks,
            final(self).cancelled_tasks == old(self).cancelled_tasks,
            final(self).timeout_tasks == old(self).timeout_tasks,
            final(self).failed_tasks == old(self).failed_tasks,
    {
        self.completed_tasks = self.completed_tasks.wrapping_add(1);
        self.total_execution_time_ms = self.total_execution_time_ms.wrapping_add(
            duration_ms as usize,
        );
    }

    pub fn record_cancellation(&mut self)
        ensures
            final(self).cancelled_tasks == old(self).cancelled_tasks.wrapping_add(1),
            final(self).total_tasks == old(self).total_tasks,
            final(self).completed_tasks == old(self).completed_tasks,
            final(self).timeout_tasks == old(self).timeout_tasks,
            final(self).failed_tasks == old(self).failed_tasks,
            final(self).total_execution_time_ms == old(self).total_execution_time_ms,
    {
        self.cancelled_tasks = self.cancelled_tasks.wrapping_add(1);
    }

    pub fn record_timeout(&mut self)
        ensures
            final(self).timeout_tasks == old(self).timeout_tasks.wrapping_add(1),
            final(self).total_tasks == old(self).total_tasks,
            final(self).completed_tasks == old(self).completed_tasks,
            final(self).cancelled_tasks == old(self).cancelled_tasks,
            final(self).failed_tasks == old(self).failed_tasks,
            final(self).total_execution_time_ms == old(self).total_execution_time_ms,
    {
        self.timeout_tasks = self.timeout_tasks.wrapping_add(1);
    }

    pub fn record_failure(&mut self)
        ensures
            final(self).failed_tasks == old(self).failed_tasks.wrapping_add(1),
            final(self).total_tasks == old(self).total_tasks,
            final(self).completed_tasks == old(self).completed_tasks,
            final(self).cancelled_tasks == old(self).cancelled_tasks,
            final(self).timeout_tasks == old(self).timeout_tasks,
            final(self).total_execution_time_ms == old(self).total_execution_time_ms,
    {
        self.failed_tasks = self.failed_tasks.wrapping_add(1);
    }
}

/// The counters of a blocking pool.
pub struct PoolView {
    pub pool_size: usize,
    pub total: usize,
    pub queued: usize,
    pub active: usize,
    pub completed: usize,
    pub cancelled: usize,
    pub timeouts: usize,
    pub failures: usize,
    /// Milliseconds spent in finished tasks, wrapping as an atomic counter does.
    pub exec_time_ms: usize,
}

impl PoolView {
    /// Every task handed to the pool is queued, running, done or cancelled.
    pub open spec fn balanced(self) -> bool {
        self.total == self.queued + self.active + self.completed + self.cancelled
    }
}

/// Runs blocking work and keeps count of it: the caller reports each step of
/// a task (handed in, started, finished) and the pool keeps the books.
pub struct BlockingPool {
    config: BlockingPoolConfig,
    stats: TaskStats,
    active_tasks: usize,
    queue_depth: usize,
}

impl View for BlockingPool {
    type V = PoolView;

    closed spec fn view(&self) -> PoolView {
        PoolView {
            pool_size: self.config.pool_size,
            total: self.stats.total_tasks,
            queued: self.queue_depth,
            active: self.active_tasks,
            completed: self.stats.completed_tasks,
            cancelled: self.stats.cancelled_tasks,
            timeouts: self.stats.timeout_tasks,
            failures: self.stats.failed_tasks,
            exec_time_ms: self.stats.total_execution_time_ms,
        }
    }
}

/// Whether `active` running tasks are more than 80% of a pool of `pool_size`
/// threads; a pool of size zero counts as 512 threads.
pub open spec fn high_load(active: nat, pool_size: nat) -> bool {
    if pool_size > 0 { 5 * active > 4 * pool_size } else { 5 * active > 4 * 512 }
}

impl BlockingPool {
    pub fn new(config: BlockingPoolConfig) -> (p: Self)
        ensures
            p@ == (PoolView {
                pool_size: config.pool_size,
                total: 0,
                queued: 0,
                active: 0,
                completed: 0,
                cancelled: 0,
                timeouts: 0,
                failures: 0,
                exec_time_ms: 0,
            }),
            p@.balanced(),
            p.config() == config,
    {
        BlockingPool { config, stats: TaskStats::default(), active_tasks: 0, queue_depth: 0 }
    }

    pub closed spec fn config(&self) -> BlockingPoolConfig {
        self.config
    }

    /// The counters of the tasks run so far.
    pub fn get_stats(&self) -> (s: &TaskStats)
        ensures
            s.total_tasks == self@.total,
            s.completed_tasks == self@.completed,
            s.cancelled_tasks == self@.cancelled,
            s.timeout_tasks == self@.timeouts,
            s.failed_tasks == self@.failures,
            s.total_execution_time_ms == self@.exec_time_ms,
    {
        &self.stats
    }

    pub fn active_task_count(&self) -> (n: usize)
        ensures
            n == self@.active,
    {
        self.active_tasks
    }

    /// The number of threads the pool was configured with.
    pub fn pool_size(&self) -> (n: usize)
        ensures
            n == self@.pool_size,
    {
        self.config.pool_size
    }

    pub fn queue_depth(&self) -> (n: usize)
        ensures
            n == self@.queued,
    {
        self.queue_depth
    }

    /// More than 80% of the threads are busy.
    pub fn is_under_high_load(&self) -> (r: bool)
        ensures
            r == high_load(self@.active as nat, self@.pool_size as nat),
    {
        let active = self.active_tasks as u128;
        let size = self.config.pool_size as u128;
        if size > 0 {
            5 * active > 4 * size
        } else {
            5 * active > 4 * 512
        }
    }

    /// A task was handed to the pool; it waits in the queue.
    pub fn task_submitted(&mut self)
        requires
            old(self)@.balanced(),
            old(self)@.total < usize::MAX,
        ensures
            final(self)@ == (PoolView {
                total: (old(self)@.total + 1) as usize,
                queued: (old(self)@.queued + 1) as usize,
                ..old(self)@
            }),
            final(self)@.balanced(),
    {
        self.stats.total_tasks = self.stats.total_tasks + 1;
        self.queue_depth = self.queue_depth + 1;
    }

    /// A thread took a queued task. A task whose token was cancelled is
    /// counted as cancelled and is not run; the result says whether to run it.
    pub fn task_started(&mut self, cancelled: bool) -> (run: bool)
        requires
            old(self)@.balanced(),
            old(self)@.queued > 0,
        ensures
            run == !cancelled,
            final(self)@.balanced(),
            final(self)@ == if cancelled {
                PoolView {
                    queued: (old(self)@.queued - 1) as usize,
                    cancelled: (old(self)@.cancelled + 1) as usize,
                    ..old(self)@
                }
            } else {
                PoolView {
                    queued: (old(self)@.queued - 1) as usize,
                    active: (old(self)@.active + 1) as usize,
                    ..old(self)@
                }
            },
    {
        self.queue_depth = self.queue_depth - 1;
        if cancelled {
            self.stats.record_cancellation();
            false
        } else {
            self.active_tasks = self.active_tasks + 1;
            true
        }
    }

    /// A running task returned after `duration_ms` milliseconds.
    pub fn task_finished(&mut self, duration_ms: u64)
        requires
            old(self)@.balanced(),
            old(self)@.active > 0,
        ensures
            final(self)@.balanced(),
            final(self)@ == (PoolView {
                active: (old(self)@.active - 1) as usize,
                completed: (old(self)@.completed + 1) as usize,
                exec_time_ms: old(self)@.exec_time_ms.wrapping_add(duration_ms as usize),
                ..old(self)@
            }),
    {
        self.stats.record_completion(duration_ms);
        self.active_tasks = self.active_tasks - 1;
    }

    /// Waiting for a task's result timed out.
    pub fn task_timed_out(&mut self)
        ensures
            final(self)@ == (PoolView {
                timeouts: old(self)@.timeouts.wrapping_add(1),
                ..old(self)@
            }),
    {
        self.stats.record_timeout();
    }

    /// A task's thread could not be joined.
    pub fn task_failed(&mut self)
        ensures
            final(self)@ == (PoolView {
                failures: old(self)@.failures.wrapping_add(1),
                ..old(self)@
            }),
    {
        self.stats.record_failure();
    }
}

impl Default for BlockingPool {
    fn default() -> (p: Self)
        ensures
            p@.total == 0 && p@.queued == 0 && p@.active == 0 && p@.completed == 0
                && p@.cancelled == 0 && p@.pool_size == 0 && p@.timeouts == 0 && p@.failures == 0
                && p@.exec_time_ms == 0,
    {
        BlockingPool::new(BlockingPoolConfig::default())
    }
}

/// A task handed to a pool that was balanced, then started and finished (or
/// cancelled), leaves the pool balanced with one more task accounted for and
/// the queue and running counts as they were.
pub proof fn law_task_round_trip(p0: PoolView, cancelled: bool)
    requires
        p0.balanced(),
        p0.total < usize::MAX,
    ensures
        ({
            let p1 = PoolView { total: (p0.total + 1) as usize, queued: (p0.queued + 1) as usize, ..p0 };
            let p2 = if cancelled {
                PoolView { queued: (p1.queued - 1) as usize, cancelled: (p1.cancelled + 1) as usize, ..p1 }
            } else {
                PoolView { queued: (p1.queued - 1) as usize, active: (p1.active + 1) as usize, ..p1 }
            };
            let p3 = if cancelled {
                p2
            } else {
                PoolView { active: (p2.active - 1) as usize, completed: (p2.completed + 1) as usize, ..p2 }
            };
            &&& p3.balanced()
            &&& p3.total == p0.total + 1
            &&& p3.queued == p0.queued
            &&& p3.active == p0.active
            &&& p3.completed + p3.cancelled == p0.completed + p0.cancelled + 1
        }),
{
}

/// How many requests may run at once, and how long a request waits.
#[derive(Clone, Debug)]
pub struct SemaphoreConfig {
    pub max_concurrent: usize,
    pub acquire_timeout_secs: u64,
    pub fair: bool,
}

impl SemaphoreConfig {
    /// The default for `cpus` processors: two requests per processor, thirty
    /// seconds of waiting, fair order.
    pub fn default_for(cpus: usize) -> (c: Self)
        ensures
            c.max_concurrent == sat_mul(cpus, 2),
            c.acquire_timeout_secs == 30,
            c.fair,
    {
        SemaphoreConfig { max_concurrent: saturating_times(cpus, 2), acquire_timeout_secs: 30, fair: true }
    }
}

impl Default for SemaphoreConfig {
    /// The default for this machine's processors.
    fn default() -> (c: Self)
        ensures
            exists|n: usize| n >= 1 && c.max_concurrent == sat_mul(n, 2),
            c.acquire_timeout_secs == 30,
            c.fair,
    {
        SemaphoreConfig::default_for(cpu_count())
    }
}

/// The counters of a backpressure controller.
pub struct PermitView {
    pub max_concurrent: usize,
    pub in_use: usize,
    pub waiting: usize,
    pub rejected: u64,
}

/// Bounds how many requests run at once: a request takes one of
/// `max_concurrent` permits and gives it back when done; one that waited
/// past its timeout is counted as rejected.
pub struct BackpressureController {
    config: SemaphoreConfig,
    in_use: usize,
    waiting: usize,
    rejected: u64,
}

impl View for BackpressureController {
    type V = PermitView;

    closed spec fn view(&self) -> PermitView {
        PermitView {
            max_concurrent: self.config.max_concurrent,
            in_use: self.in_use,
            waiting: self.waiting,
            rejected: self.rejected,
        }
    }
}

impl BackpressureController {
    #[verifier::type_invariant]
    closed spec fn permits_within_limit(&self) -> bool {
        self.in_use <= self.config.max_concurrent
    }

    /// The configuration the controller was made with.
    pub closed spec fn config_spec(&self) -> SemaphoreConfig {
        self.config
    }

    pub fn new(config: SemaphoreConfig) -> (c: Self)
        ensures
            c@ == (PermitView { max_concurrent: config.max_concurrent, in_use: 0, waiting: 0, rejected: 0 }),
            c.config_spec() == config,
    {
        BackpressureController { config, in_use: 0, waiting: 0, rejected: 0 }
    }

    /// A controller for `max_concurrent` requests, with the default timeout.
    pub fn default_with_concurrency(max_concurrent: usize) -> (c: Self)
        ensures
            c@ == (PermitView { max_concurrent, in_use: 0, waiting: 0, rejected: 0 }),
            c.config_spec().acquire_timeout_secs == 30,
            c.config_spec().fair,
    {
        let d = SemaphoreConfig::default();
        BackpressureController::new(SemaphoreConfig { max_concurrent, ..d })
    }

    /// How long a request waits for a permit.
    pub fn acquire_timeout_secs(&self) -> (s: u64)
        ensures
            s == self.config_spec().acquire_timeout_secs,
    {
        self.config.acquire_timeout_secs
    }

    /// Takes a permit when one is free, without waiting; says whether it did.
    pub fn try_acquire(&mut self) -> (granted: bool)
        ensures
            granted == (old(self)@.in_use < old(self)@.max_concurrent),
            final(self)@ == (PermitView {
                in_use: if granted { (old(self)@.in_use + 1) as usize } else { old(self)@.in_use },
                ..old(self)@
            }),
    {
        proof {
            use_type_invariant(&*self);
        }
        if self.in_use < self.config.max_concurrent {
            self.in_use = self.in_use + 1;
            true
        } else {
            false
        }
    }

    /// Gives a permit back.
    pub fn release(&mut self)
        requires
            old(self)@.in_use > 0,
        ensures
            final(self)@ == (PermitView { in_use: (old(self)@.in_use - 1) as usize, ..old(self)@ }),
    {
        proof {
            use_type_invariant(&*self);
        }
        self.in_use = self.in_use - 1;
    }

    /// A request starts waiting for a permit.
    pub fn begin_wait(&mut self)
        requires
            old(self)@.waiting < usize::MAX,
        ensures
            final(self)@ == (PermitView { waiting: (old(self)@.waiting + 1) as usize, ..old(self)@ }),
    {
        proof {
            use_type_invariant(&*self);
        }
        self.waiting = self.waiting + 1;
    }

    /// A request stopped waiting: with a permit, or because its time ran out,
    /// which counts it as rejected.
    pub fn end_wait(&mut self, timed_out: bool)
        requires
            old(self)@.waiting > 0,
            timed_out ==> old(self)@.rejected < u64::MAX,
        ensures
            final(self)@ == (PermitView {
                waiting: (old(self)@.waiting - 1) as usize,
                rejected: if timed_out { (old(self)@.rejected + 1) as u64 } else { old(self)@.rejected },
                ..old(self)@
            }),
    {
        proof {
            use_type_invariant(&*self);
        }
        if timed_out {
            self.rejected = self.rejected + 1;
        }
        self.waiting = self.waiting - 1;
    }

    /// Permits free now.
    pub fn available_permits(&self) -> (n: usize)
        ensures
            n == self@.max_concurrent - self@.in_use,
    {
        proof {
            use_type_invariant(self);
        }
        self.config.max_concurrent - self.in_use
    }

    /// Permits out now.
    pub fn permits_in_use(&self) -> (n: usize)
        ensures
            n == self@.in_use,
    {
        self.in_use
    }

    pub fn waiting_count(&self) -> (n: usize)
        ensures
            n == self@.waiting,
    {
        self.waiting
    }

    pub fn rejected_count(&self) -> (n: u64)
        ensures
            n == self@.rejected,
    {
        self.rejected
    }

    /// Every permit is taken.
    pub fn is_under_load(&self) -> (r: bool)
        ensures
            r == (self@.in_use == self@.max_concurrent),
    {
        self.in_use == self.config.max_concurrent
    }
}

/// A permit taken and given back leaves the controller's counters as they
/// were, and while it is out one permit fewer is free.
pub proof fn law_permit_round_trip(before: PermitView, taken: PermitView, after: PermitView)
    requires
        before.in_use < before.max_concurrent,
        taken == (PermitView { in_use: (before.in_use + 1) as usize, ..before }),
        after == (PermitView { in_use: (taken.in_use - 1) as usize, ..taken }),
    ensures
        after == before,
        taken.max_concurrent - taken.in_use == before.max_concurrent - before.in_use - 1,
{
}

/// Settings of the concurrency-safe services.
#[derive(Clone, Debug)]
pub struct ConcurrencySafetyConfig {
    pub cas_max_concurrent_writes: usize,
    pub search_pool_config: BlockingPoolConfig,
    pub backpressure_concurrent: usize,
    pub search_timeout_ms: u64,
}

impl ConcurrencySafetyConfig {
    /// The default for `cpus` processors.
    pub fn default_for(cpus: usize) -> (c: Self)
        ensures
            c.cas_max_concurrent_writes == sat_mul(cpus, 4),
            c.search_pool_config.is_cpu_intensive_for(cpus),
            c.backpressure_concurrent == sat_mul(cpus, 2),
            c.search_timeout_ms == 200,
    {
        ConcurrencySafetyConfig {
            cas_max_concurrent_writes: saturating_times(cpus, 4),
            search_pool_config: BlockingPoolConfig::cpu_intensive_for(cpus),
            backpressure_concurrent: saturating_times(cpus, 2),
            search_timeout_ms: 200,
        }
    }
}

impl Default for ConcurrencySafetyConfig {
    /// The default for this machine; the processor count is read twice, as
    /// the pool configuration reads it on its own.
    fn default() -> (c: Self)
        ensures
            exists|n: usize| n >= 1 && c.cas_max_concurrent_writes == sat_mul(n, 4)
                && c.backpressure_concurrent == sat_mul(n, 2),
            exists|n: usize| n >= 1 && c.search_pool_config.is_cpu_intensive_for(n),
            c.search_timeout_ms == 200,
    {
        let n = cpu_count();
        let pool_config = BlockingPoolConfig::for_cpu_intensive();
        let ghost w = choose|m: usize| m >= 1 && pool_config.is_cpu_intensive_for(m);
        let c = ConcurrencySafetyConfig {
            cas_max_concurrent_writes: saturating_times(n, 4),
            search_pool_config: pool_config,
            backpressure_concurrent: saturating_times(n, 2),
            search_timeout_ms: 200,
        };
        assert(c.search_pool_config.is_cpu_intensive_for(w));
        c
    }
}

/// Sum of a sequence of latencies.
pub open spec fn total_latency(s: Seq<u64>) -> nat
    decreases s.len(),
{
    if s.len() == 0 { 0 } else { total_latency(s.drop_last()) + s.last() as nat }
}

/// The recent latencies after one more sample: the oldest leaves once the
/// window is over its size.
pub open spec fn window_after(w: Seq<u64>, sample: u64, cap: nat) -> Seq<u64> {
    let v = w.push(sample);
    if v.len() > cap { v.drop_first() } else { v }
}

/// The concurrency limit after the window changed: with ten samples or more,
/// an average above the threshold lowers it by one (not below the minimum),
/// an average under half the threshold raises it by one (not above the
/// maximum).
pub open spec fn limit_after(current: usize, min: usize, max: usize, threshold: u64, w: Seq<u64>) -> usize {
    if w.len() >= 10 {
        let avg = total_latency(w) / w.len();
        if avg > threshold && current > min {
            (current - 1) as usize
        } else if avg < threshold / 2 && current < max {
            (current + 1) as usize
        } else {
            current
        }
    } else {
        current
    }
}

/// A concurrency limit that follows the latencies of recent requests.
pub struct AdaptiveBackpressure {
    current_limit: usize,
    min_limit: usize,
    max_limit: usize,
    latency_threshold_nanos: u64,
    recent_latencies: Vec<u64>,
    max_latency_samples: usize,
}

impl AdaptiveBackpressure {
    pub closed spec fn limit(&self) -> usize {
        self.current_limit
    }

    pub closed spec fn min(&self) -> usize {
        self.min_limit
    }

    pub closed spec fn max(&self) -> usize {
        self.max_limit
    }

    pub closed spec fn threshold(&self) -> u64 {
        self.latency_threshold_nanos
    }

    /// The latencies kept, oldest first, in nanoseconds.
    pub closed spec fn window(&self) -> Seq<u64> {
        self.recent_latencies@
    }

    pub closed spec fn window_size(&self) -> nat {
        self.max_latency_samples as nat
    }

    pub fn new(initial_limit: usize, min_limit: usize, max_limit: usize, latency_threshold_nanos: u64)
        -> (a: Self)
        ensures
            a.limit() == initial_limit,
            a.min() == min_limit,
            a.max() == max_limit,
            a.threshold() == latency_threshold_nanos,
            a.window() == Seq::<u64>::empty(),
            a.window_size() == 100,
    {
        AdaptiveBackpressure {
            current_limit: initial_limit,
            min_limit,
            max_limit,
            latency_threshold_nanos,
            recent_latencies: Vec::new(),
            max_latency_samples: 100,
        }
    }

    pub fn current_limit(&self) -> (n: usize)
        ensures
            n == self.limit(),
    {
        self.current_limit
    }

    /// Records a request's latency, in nanoseconds, and adjusts the limit.
    pub fn record_latency(&mut self, latency_nanos: u64)
        ensures
            final(self).window() == window_after(
                old(self).window(),
                latency_nanos,
                old(self).window_size(),
            ),
            final(self).limit() == limit_after(
                old(self).limit(),
                old(self).min(),
                old(self).max(),
                old(self).threshold(),
                final(self).window(),
            ),
            final(self).min() == old(self).min(),
            final(self).max() == old(self).max(),
            final(self).threshold() == old(self).threshold(),
            final(self).window_size() == old(self).window_size(),
    {
        self.recent_latencies.push(latency_nanos);
        if self.recent_latencies.len() > self.max_latency_samples {
            self.recent_latencies.remove(0);
        }
        let n = self.recent_latencies.len();
        if n >= 10 {
            let sum = sum_latencies(&self.recent_latencies);
            let avg = sum / (n as u128);
            let threshold = self.latency_threshold_nanos as u128;
            if avg > threshold && self.current_limit > self.min_limit {
                self.current_limit = self.current_limit - 1;
            } else if avg < threshold / 2 && self.current_limit < self.max_limit {
                self.current_limit = self.current_limit + 1;
            }
        }
    }
}

fn sum_latencies(v: &Vec<u64>) -> (s: u128)
    ensures
        s == total_latency(v@),
{
    let mut s: u128 = 0;
    let mut i: usize = 0;
    while i < v.len()
        invariant
            i <= v.len(),
            s == total_latency(v@.take(i as int)),
            s <= i * (u64::MAX as int),
        decreases v.len() - i,
    {
        assert(v@.take((i + 1) as int).drop_last() =~= v@.take(i as int));
        proof {
            assert((i + 1) * (u64::MAX as int) < u128::MAX) by (nonlinear_arith)
                requires
                    i < usize::MAX,
                    usize::MAX <= u64::MAX,
            ;
            assert(i * (u64::MAX as int) + (u64::MAX as int) == (i + 1) * (u64::MAX as int))
                by (nonlinear_arith);
        }
        s = s + v[i] as u128;
        i = i + 1;
    }
    assert(v@.take(v.len() as int) =~= v@);
    s
}

/// One recorded latency moves the limit by at most one, and a limit within
/// its bounds stays within them.
pub proof fn law_limit_moves_by_one_within_bounds(
    current: usize,
    min: usize,
    max: usize,
    threshold: u64,
    w: Seq<u64>,
)
    ensures
        ({
            let l = limit_after(current, min, max, threshold, w);
            &&& current - 1 <= l <= current + 1
            &&& min <= current <= max ==> min <= l <= max
            &&& l < current ==> l >= min
            &&& l > current ==> l <= max
        }),
{
}

/// The window always holds the newest sample: after recording `sample` in a
/// window of at most `cap` samples (`cap` at least one), the window ends with
/// `sample`, holds the most recent `min(len + 1, cap)` samples in order, and
/// only the oldest sample ever leaves.
pub proof fn law_window_keeps_the_newest_samples(w: Seq<u64>, sample: u64, cap: nat)
    requires
        1 <= cap,
        w.len() <= cap,
    ensures
        ({
            let r = window_after(w, sample, cap);
            let all = w.push(sample);
            &&& r.len() == if w.len() + 1 <= cap { w.len() + 1 } else { cap }
            &&& r.last() == sample
            &&& forall|i: int| 0 <= i < r.len() ==> #[trigger] r[i] == all[all.len() - r.len() + i]
        }),
{
}

} // verus!
