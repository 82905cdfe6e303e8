//! Resource sizing: worker-pool bounds derived from the machine's CPU
//! count, per-thread bookkeeping, and the disk I/O settings.

use vstd::prelude::*;
use std::collections::HashMap;

verus! {

/// Relies on `num_cpus::get`: the number of logical CPUs available to
/// this process, at least one by its documentation.
#[verifier::external_body]
pub(crate) fn cpu_count() -> (r: usize)
    ensures
        r >= 1,
{
    num_cpus::get()
}

/// The sizing rule of both worker pools: twice the CPU count, clamped
/// into `[lo, hi]`.
pub open spec fn spec_pool_size(cores: int, lo: int, hi: int) -> int {
    let doubled = if cores <= 0x0800 {
        2 * cores
    } else {
        0x1000
    };
    if doubled > hi {
        hi
    } else if doubled < lo {
        lo
    } else {
        doubled
    }
}

/// Applies the sizing rule to a measured CPU count.
pub fn pool_size_from(cores: usize, lo: usize, hi: usize) -> (r: usize)
    requires
        0 < lo <= hi,
        hi <= 0x1000,
    ensures
        r as int == spec_pool_size(cores as int, lo as int, hi as int),
        lo <= r <= hi,
{
    let doubled = if cores <= 0x0800 {
        cores * 2
    } else {
        0x1000
    };
    if doubled > hi {
        hi
    } else if doubled < lo {
        lo
    } else {
        doubled
    }
}

/// Sizes a pool from the machine's CPU count.
fn sized_pool(lo: usize, hi: usize) -> (r: usize)
    requires
        0 < lo <= hi,
        hi <= 0x1000,
    ensures
        lo <= r <= hi,
{
    let cores = cpu_count();
    pool_size_from(cores, lo, hi)
}

/// Bookkeeping for one worker thread.
#[derive(Debug, Clone, Copy)]
pub struct ThreadStats {
    /// How many tasks the thread has finished.
    pub tasks_completed: usize,
    /// Total milliseconds the thread has spent on tasks.
    pub total_time_ms: u64,
}

/// The worker-pool bookkeeper: how many threads may run, how many are
/// busy, and what each one has done so far.
pub struct SmartThreadPool {
    active_threads: usize,
    max_threads: usize,
    thread_stats: HashMap<usize, ThreadStats>,
}

impl SmartThreadPool {
    /// An idle pool bounded by the given thread count.
    pub fn new(max_threads: usize) -> (r: Self)
        ensures
            r.spec_max_threads() == max_threads,
            r.spec_active_threads() == 0,
    {
        SmartThreadPool {
            active_threads: 0,
            max_threads,
            thread_stats: HashMap::new(),
        }
    }

    /// The pool's thread bound.
    pub closed spec fn spec_max_threads(&self) -> usize {
        self.max_threads
    }

    /// How many threads are busy.
    pub closed spec fn spec_active_threads(&self) -> usize {
        self.active_threads
    }

    /// Re-derives the thread bound from the CPU count: twice the cores,
    /// clamped between two and eight, so the bound never drops under two.
    pub fn adjust_thread_count(&mut self)
        ensures
            2 <= final(self).spec_max_threads() <= 8,
            final(self).spec_active_threads() == old(self).spec_active_threads(),
    {
        let cores = cpu_count();
        self.set_thread_bound_from(cores);
    }

    /// Applies the sizing rule to a measured CPU count.
    pub fn set_thread_bound_from(&mut self, cores: usize)
        requires
            cores >= 1,
        ensures
            final(self).spec_max_threads() as int == spec_pool_size(cores as int, 2, 8),
            2 <= final(self).spec_max_threads() <= 8,
            final(self).spec_active_threads() == old(self).spec_active_threads(),
    {
        let optimal = pool_size_from(cores, 2, 8);
        if self.max_threads != optimal {
            self.max_threads = optimal;
        }
    }

    /// The pool's current thread bound.
    pub fn get_max_threads(&self) -> (r: usize)
        ensures
            r == self.spec_max_threads(),
    {
        self.max_threads
    }

    /// How many threads are busy right now.
    pub fn get_active_threads(&self) -> (r: usize)
        ensures
            r == self.spec_active_threads(),
    {
        self.active_threads
    }

    /// Marks one thread as busy and opens its bookkeeping entry.
    pub fn thread_start(&mut self, thread_id: usize)
        requires
            old(self).spec_active_threads() < usize::MAX,
        ensures
            final(self).spec_active_threads() == old(self).spec_active_threads() + 1,
            final(self).spec_max_threads() == old(self).spec_max_threads(),
    {
        self.active_threads = self.active_threads + 1;
        if !self.thread_stats.contains_key(&thread_id) {
            self.thread_stats.insert(
                thread_id,
                ThreadStats { tasks_completed: 0, total_time_ms: 0 },
            );
        }
    }

    /// Marks one thread as idle again and books the task it finished.
    pub fn thread_finish(&mut self, thread_id: usize, task_duration_ms: u64)
        requires
            old(self).spec_active_threads() >= 1,
        ensures
            final(self).spec_active_threads() == old(self).spec_active_threads() - 1,
            final(self).spec_max_threads() == old(self).spec_max_threads(),
    {
        self.active_threads = self.active_threads - 1;
        match self.thread_stats.get(&thread_id) {
            Some(st) => {
                let completed = if st.tasks_completed < usize::MAX {
                    st.tasks_completed + 1
                } else {
                    usize::MAX
                };
                let total = if st.total_time_ms <= u64::MAX - task_duration_ms {
                    st.total_time_ms + task_duration_ms
                } else {
                    u64::MAX
                };
                self.thread_stats.insert(
                    thread_id,
                    ThreadStats { tasks_completed: completed, total_time_ms: total },
                );
            },
            None => {},
        }
    }
}

/// Fixed disk I/O settings: buffer sizes and the concurrent-operation
/// bound.
pub struct DiskIOOptimizer {
    write_buffer_size: usize,
    read_buffer_size: usize,
    concurrent_io_ops: usize,
}

impl DiskIOOptimizer {
    /// The default settings: 64-KiB buffers, four concurrent operations.
    pub fn new() -> (r: Self)
        ensures
            r.spec_write_buffer_size() == 65536,
            r.spec_read_buffer_size() == 65536,
            r.spec_concurrent_io_ops() == 4,
    {
        DiskIOOptimizer {
            write_buffer_size: 65536,
            read_buffer_size: 65536,
            concurrent_io_ops: 4,
        }
    }

    /// The write buffer size.
    pub closed spec fn spec_write_buffer_size(&self) -> usize {
        self.write_buffer_size
    }

    /// The read buffer size.
    pub closed spec fn spec_read_buffer_size(&self) -> usize {
        self.read_buffer_size
    }

    /// The concurrent-operation bound.
    pub closed spec fn spec_concurrent_io_ops(&self) -> usize {
        self.concurrent_io_ops
    }

    /// Hands out the write buffer size.
    pub fn get_write_buffer_size(&self) -> (r: usize)
        ensures
            r == self.spec_write_buffer_size(),
    {
        self.write_buffer_size
    }

    /// Hands out the read buffer size.
    pub fn get_read_buffer_size(&self) -> (r: usize)
        ensures
            r == self.spec_read_buffer_size(),
    {
        self.read_buffer_size
    }

    /// Hands out the concurrent-operation bound.
    pub fn get_concurrent_io_ops(&self) -> (r: usize)
        ensures
            r == self.spec_concurrent_io_ops(),
    {
        self.concurrent_io_ops
    }
}

impl Default for DiskIOOptimizer {
    /// Same as [`DiskIOOptimizer::new`].
    fn default() -> (r: Self)
        ensures
            r.spec_write_buffer_size() == 65536,
            r.spec_read_buffer_size() == 65536,
            r.spec_concurrent_io_ops() == 4,
    {
        DiskIOOptimizer::new()
    }
}

/// The batch-wide resource manager: the worker-pool bookkeeper and the
/// disk settings.
pub struct GlobalResourceManager {
    thread_pool: SmartThreadPool,
    disk_optimizer: DiskIOOptimizer,
}

impl GlobalResourceManager {
    /// The pool's thread bound.
    pub closed spec fn spec_pool_max_threads(&self) -> usize {
        self.thread_pool.spec_max_threads()
    }

    /// How many pool threads are busy.
    pub closed spec fn spec_pool_active_threads(&self) -> usize {
        self.thread_pool.spec_active_threads()
    }

    /// A manager whose pool is sized from the CPU count: twice the
    /// cores, clamped between two and eight for I/O-heavy batches.
    pub fn new() -> (r: Self)
        ensures
            2 <= r.spec_pool_max_threads() <= 8,
            r.spec_pool_active_threads() == 0,
    {
        let initial = sized_pool(2, 8);
        GlobalResourceManager {
            thread_pool: SmartThreadPool::new(initial),
            disk_optimizer: DiskIOOptimizer::new(),
        }
    }

    /// Borrows the worker-pool bookkeeper for reading.
    pub fn get_thread_pool(&self) -> (r: &SmartThreadPool)
        ensures
            r.spec_max_threads() == self.spec_pool_max_threads(),
            r.spec_active_threads() == self.spec_pool_active_threads(),
    {
        &self.thread_pool
    }

    /// Re-derives the pool's thread bound from the CPU count.
    pub fn adjust_thread_count(&mut self)
        ensures
            1 <= final(self).spec_pool_max_threads() <= 8,
            final(self).spec_pool_active_threads() == old(self).spec_pool_active_threads(),
    {
        self.thread_pool.adjust_thread_count();
    }
}

impl Default for GlobalResourceManager {
    /// Same as [`GlobalResourceManager::new`].
    fn default() -> (r: Self)
        ensures
            2 <= r.spec_pool_max_threads() <= 8,
            r.spec_pool_active_threads() == 0,
    {
        GlobalResourceManager::new()
    }
}

/// The worker count for a CPU-heavy segment pool: twice the cores,
/// clamped between two and twelve.
pub fn calculate_optimal_threads() -> (r: usize)
    ensures
        2 <= r <= 12,
{
    sized_pool(2, 12)
}

/// The worker count for an I/O-heavy task pool: twice the cores,
/// clamped between two and eight.
pub fn task_pool_size() -> (r: usize)
    ensures
        2 <= r <= 8,
{
    sized_pool(2, 8)
}

/// The inner pool's size for one task: half its segment count, clamped
/// between two and eight.
pub fn segment_pool_size(segment_count: usize) -> (r: usize)
    ensures
        r as int == ({
            let half = segment_count as int / 2;
            if half > 8 {
                8int
            } else if half < 2 {
                2int
            } else {
                half
            }
        }),
{
    let half = segment_count / 2;
    if half > 8 {
        8
    } else if half < 2 {
        2
    } else {
        half
    }
}

} // verus!
