//! Disk I/O sampling for the supervised process tree.
//!
//! Each cycle discovers the descendants of the root process, sums their
//! cumulative read/write byte counters, and emits the per-cycle delta,
//! clamped to zero whenever a cumulative total decreases (counter reset or
//! pid reuse).  The caller drives the once-a-second cycle and forwards each
//! sample to the aggregation side.

use vstd::prelude::*;
use vstd::seq_lib::group_seq_properties;

verus! {

/// One emitted disk I/O measurement: bytes read and written since the
/// previous cycle, never negative.
#[derive(Clone, Copy, Debug, PartialEq, Eq, Structural)]
pub struct DiskSample {
    /// Bytes read since the previous cycle.
    pub read_delta: u64,
    /// Bytes written since the previous cycle.
    pub write_delta: u64,
}

/// Delta between two cumulative counter readings, clamped to zero when the
/// counter decreased.
pub open spec fn clamped_delta(prev: u64, current: u64) -> u64 {
    if current >= prev {
        (current - prev) as u64
    } else {
        0u64
    }
}

/// The deltas emitted for a sequence of cumulative totals, starting from a
/// previous total of zero.
pub open spec fn deltas_of(totals: Seq<u64>) -> Seq<u64>
    decreases totals.len(),
{
    if totals.len() == 0 {
        Seq::empty()
    } else {
        let prev = if totals.len() == 1 { 0u64 } else { totals[totals.len() - 2] };
        deltas_of(totals.drop_last()).push(clamped_delta(prev, totals.last()))
    }
}

/// Tracks the previous cycle's cumulative totals and turns new totals into
/// clamped per-cycle deltas.
pub struct DiskSampler {
    /// Cumulative read bytes seen in the previous cycle.
    pub prev_read: u64,
    /// Cumulative write bytes seen in the previous cycle.
    pub prev_write: u64,
}

impl DiskSampler {
    /// A sampler that has seen no bytes yet.
    pub fn new() -> (s: DiskSampler)
        ensures
            s.prev_read == 0,
            s.prev_write == 0,
    {
        DiskSampler { prev_read: 0, prev_write: 0 }
    }

    /// Record one cycle's cumulative totals and emit the clamped deltas
    /// against the previous cycle.
    pub fn observe(&mut self, total_read: u64, total_write: u64) -> (s: DiskSample)
        ensures
            s.read_delta == clamped_delta(old(self).prev_read, total_read),
            s.write_delta == clamped_delta(old(self).prev_write, total_write),
            final(self).prev_read == total_read,
            final(self).prev_write == total_write,
    {
        let read_delta = total_read.saturating_sub(self.prev_read);
        let write_delta = total_write.saturating_sub(self.prev_write);
        self.prev_read = total_read;
        self.prev_write = total_write;
        DiskSample { read_delta, write_delta }
    }

    /// Run one full sampling cycle against the live process table: discover
    /// the descendants of `root`, sum their cumulative counters, and emit
    /// the clamped deltas.  The totals themselves depend on the machine; the
    /// emitted sample is exactly the clamped difference between the new
    /// totals now stored and the previous ones.
    pub fn sample_cycle(&mut self, root: u32) -> (s: DiskSample)
        ensures
            s.read_delta == clamped_delta(old(self).prev_read, final(self).prev_read),
            s.write_delta == clamped_delta(old(self).prev_write, final(self).prev_write),
    {
        let pids = get_child_pids(root);
        let (total_read, total_write) = total_io_bytes(&pids);
        self.observe(total_read, total_write)
    }
}

/// The task pids that the given `(pid, parent pid)` links report as
/// children of `parent`, in order.
pub open spec fn children_of_spec(links: Seq<(u32, u32)>, parent: u32) -> Seq<u32>
    decreases links.len(),
{
    if links.len() == 0 {
        Seq::empty()
    } else {
        let rest = children_of_spec(links.drop_last(), parent);
        if links.last().1 == parent {
            rest.push(links.last().0)
        } else {
            rest
        }
    }
}

/// Select from the reported task links exactly the pids whose parent is
/// `parent`, in the order the links came.
pub fn children_of(links: &Vec<(u32, u32)>, parent: u32) -> (children: Vec<u32>)
    ensures
        children@ == children_of_spec(links@, parent),
{
    let mut children: Vec<u32> = Vec::new();
    let mut i: usize = 0;
    while i < links.len()
        invariant
            i <= links@.len(),
            children@ == children_of_spec(links@.take(i as int), parent),
        decreases links@.len() - i,
    {
        let (task_pid, task_ppid) = links[i];
        proof {
            assert(links@.take(i + 1).drop_last() =~= links@.take(i as int));
            assert(links@.take(i + 1).last() == links@[i as int]);
        }
        if task_ppid == parent {
            children.push(task_pid);
        }
        i = i + 1;
    }
    proof {
        assert(links@.take(links@.len() as int) =~= links@);
    }
    children
}

/// Every pid the filter selects is backed by a link naming that parent.
proof fn lemma_children_linked(links: Seq<(u32, u32)>, parent: u32, child: u32)
    requires
        children_of_spec(links, parent).contains(child),
    ensures
        links.contains((child, parent)),
    decreases links.len(),
{
    broadcast use group_seq_properties;

    if links.len() > 0 {
        let rest = children_of_spec(links.drop_last(), parent);
        if links.last().1 == parent && child == links.last().0 {
            assert(links[links.len() - 1] == (child, parent));
        } else {
            assert(rest.contains(child));
            lemma_children_linked(links.drop_last(), parent, child);
            let j = choose|j: int|
                0 <= j < links.drop_last().len() && links.drop_last()[j] == (child, parent);
            assert(links[j] == (child, parent));
        }
    }
}

/// Whether `child` is the child end of one of the links, with a parent end
/// that was itself discovered.
pub open spec fn parent_linked(pids: Seq<u32>, links: Seq<(u32, u32)>, child: u32) -> bool {
    exists|j: int|
        0 <= j < links.len() && (#[trigger] links[j]).0 == child && pids.contains(links[j].1)
}

/// Every discovered pid other than the root entered through a reported
/// parent link whose parent end was itself discovered.
pub open spec fn all_parent_linked(pids: Seq<u32>, links: Seq<(u32, u32)>) -> bool {
    forall|k: int| 1 <= k < pids.len() ==> parent_linked(pids, links, #[trigger] pids[k])
}

/// The root process id followed by every descendant discovered through
/// parent-pid linkage, each listed once.  A process that disappears while
/// the walk is in progress is skipped.  Which descendants exist depends on
/// the live process table, so the contract promises the shape; that every
/// non-root entry came in through a parent link the wrapper reported, from
/// a pid already discovered, is carried as a machine-checked loop
/// invariant over the links seen (`all_parent_linked`), since the links
/// themselves cannot be named after the call.
pub fn get_child_pids(pid: u32) -> (pids: Vec<u32>)
    ensures
        pids@.len() >= 1,
        pids@[0] == pid,
        pids@.no_duplicates(),
{
    broadcast use group_seq_properties;

    let mut pids: Vec<u32> = Vec::new();
    pids.push(pid);
    let mut to_check: Vec<u32> = Vec::new();
    to_check.push(pid);
    let ghost mut links_seen: Seq<(u32, u32)> = Seq::empty();

    loop
        invariant
            pids@.len() >= 1,
            pids@[0] == pid,
            pids@.no_duplicates(),
            pids@.len() <= 0x1_0000_0000,
            forall|i: int| 0 <= i < to_check@.len() ==> pids@.contains(#[trigger] to_check@[i]),
            all_parent_linked(pids@, links_seen),
        decreases 0x1_0000_0000 - pids@.len(), to_check@.len(),
    {
        let current_pid = match to_check.pop() {
            Some(p) => p,
            None => { break; },
        };
        let ghost outer_pids = pids@.len() as int;
        let ghost outer_check = to_check@.len() as int;
        let links = task_parent_links(current_pid);
        proof {
            broadcast use group_seq_properties;

            let pre_seen = links_seen;
            links_seen = links_seen + links@;
            assert forall|k: int| 1 <= k < pids@.len() implies parent_linked(
                pids@,
                links_seen,
                pids@[k],
            ) by {
                assert(parent_linked(pids@, pre_seen, pids@[k]));
                let j = choose|j: int|
                    0 <= j < pre_seen.len() && (#[trigger] pre_seen[j]).0 == pids@[k]
                        && pids@.contains(pre_seen[j].1);
                assert(links_seen[j] == pre_seen[j]);
            }
            assert forall|i: int| 0 <= i < links@.len() implies links_seen.contains(
                #[trigger] links@[i],
            ) by {
                assert(links_seen[pre_seen.len() + i] == links@[i]);
            }
        }
        let candidates = children_of(&links, current_pid);
        let mut k: usize = 0;
        while k < candidates.len()
            invariant
                pids@.len() >= 1,
                pids@[0] == pid,
                pids@.no_duplicates(),
                pids@.len() <= 0x1_0000_0000,
                pids@.len() - outer_pids == to_check@.len() - outer_check,
                pids@.len() >= outer_pids,
                candidates@ == children_of_spec(links@, current_pid),
                pids@.contains(current_pid),
                forall|i: int| 0 <= i < links@.len() ==> links_seen.contains(#[trigger] links@[i]),
                forall|i: int| 0 <= i < to_check@.len() ==> pids@.contains(#[trigger] to_check@[i]),
                all_parent_linked(pids@, links_seen),
            decreases candidates@.len() - k,
        {
            let task_pid = candidates[k];
            if !contains_pid(&pids, task_pid) {
                let ghost pre_pids = pids@;
                let ghost pre_check = to_check@;
                pids.push(task_pid);
                to_check.push(task_pid);
                proof {
                    broadcast use group_seq_properties;

                    assert(pids@ == pre_pids.push(task_pid));
                    assert(to_check@ == pre_check.push(task_pid));
                    lemma_distinct_u32_len(pids@);
                    assert(candidates@.contains(task_pid)) by {
                        assert(candidates@[k as int] == task_pid);
                    }
                    lemma_children_linked(links@, current_pid, task_pid);
                    let i = choose|i: int|
                        0 <= i < links@.len() && links@[i] == (task_pid, current_pid);
                    assert(links_seen.contains(links@[i]));
                    let j = choose|j: int|
                        0 <= j < links_seen.len() && links_seen[j] == (task_pid, current_pid);
                    assert(pre_pids.push(task_pid).contains(current_pid)) by {
                        assert(pre_pids.contains(current_pid));
                    }
                    assert forall|i2: int| 0 <= i2 < to_check@.len() implies pids@.contains(
                        #[trigger] to_check@[i2],
                    ) by {
                        if i2 < pre_check.len() {
                            assert(pre_pids.contains(pre_check[i2]));
                            assert(pre_pids.push(task_pid).contains(pre_check[i2]));
                        } else {
                            assert(to_check@[i2] == task_pid);
                            assert(pre_pids.push(task_pid).contains(task_pid));
                        }
                    }
                    assert forall|m: int| 1 <= m < pids@.len() implies parent_linked(
                        pids@,
                        links_seen,
                        pids@[m],
                    ) by {
                        if m < pre_pids.len() {
                            assert(parent_linked(pre_pids, links_seen, pre_pids[m]));
                            let w = choose|w: int|
                                0 <= w < links_seen.len() && (#[trigger] links_seen[w]).0
                                    == pre_pids[m] && pre_pids.contains(links_seen[w].1);
                            assert(pre_pids.push(task_pid).contains(links_seen[w].1));
                            assert(links_seen[w].0 == pids@[m]);
                        } else {
                            assert(pids@[m] == task_pid);
                            assert(links_seen[j].0 == task_pid);
                            assert(pids@.contains(current_pid));
                        }
                    }
                }
            }
            k = k + 1;
        }
    }

    pids
}

/// A sequence of pairwise distinct 32-bit values cannot be longer than the
/// number of 32-bit values.
proof fn lemma_distinct_u32_len(s: Seq<u32>)
    requires
        s.no_duplicates(),
    ensures
        s.len() <= 0x1_0000_0000,
{
    let f = |x: u32| x as int;
    assert(vstd::relations::injective(f));
    s.lemma_no_duplicates_injective(f);
    let t = s.map_values(f);
    t.unique_seq_to_set();
    let range = vstd::set_lib::set_int_range(0, 0x1_0000_0000);
    assert forall|x: int| t.to_set().contains(x) implies range.contains(x) by {
        let i = choose|i: int| 0 <= i < t.len() && t[i] == x;
        assert(t[i] == s[i] as int);
    }
    vstd::set_lib::lemma_int_range(0, 0x1_0000_0000);
    vstd::set_lib::lemma_len_subset(t.to_set(), range);
}

/// Whether the vector holds the given pid.
fn contains_pid(pids: &Vec<u32>, pid: u32) -> (found: bool)
    ensures
        found == pids@.contains(pid),
{
    let mut i: usize = 0;
    while i < pids.len()
        invariant
            i <= pids@.len(),
            forall|j: int| 0 <= j < i ==> pids@[j] != pid,
        decreases pids@.len() - i,
    {
        if pids[i] == pid {
            return true;
        }
        i = i + 1;
    }
    false
}

/// Saturating add on u64, at the spec level.
pub open spec fn sat_add_u64(a: u64, b: u64) -> u64 {
    if a + b <= u64::MAX {
        (a + b) as u64
    } else {
        u64::MAX
    }
}

/// The read counters of the pairs summed left to right, each addition
/// saturating at the maximum.
pub open spec fn sum_reads_saturating(counters: Seq<(u64, u64)>) -> u64
    decreases counters.len(),
{
    if counters.len() == 0 {
        0u64
    } else {
        sat_add_u64(sum_reads_saturating(counters.drop_last()), counters.last().0)
    }
}

/// The write counters of the pairs summed left to right, each addition
/// saturating at the maximum.
pub open spec fn sum_writes_saturating(counters: Seq<(u64, u64)>) -> u64
    decreases counters.len(),
{
    if counters.len() == 0 {
        0u64
    } else {
        sat_add_u64(sum_writes_saturating(counters.drop_last()), counters.last().1)
    }
}

/// Sum a list of cumulative `(read, write)` counter pairs, each addition
/// saturating at the maximum.
pub fn sum_io_pairs(counters: &Vec<(u64, u64)>) -> (totals: (u64, u64))
    ensures
        totals.0 == sum_reads_saturating(counters@),
        totals.1 == sum_writes_saturating(counters@),
{
    let mut total_read: u64 = 0;
    let mut total_write: u64 = 0;
    let mut i: usize = 0;
    while i < counters.len()
        invariant
            i <= counters@.len(),
            total_read == sum_reads_saturating(counters@.take(i as int)),
            total_write == sum_writes_saturating(counters@.take(i as int)),
        decreases counters@.len() - i,
    {
        let (read_bytes, write_bytes) = counters[i];
        proof {
            assert(counters@.take(i + 1).drop_last() =~= counters@.take(i as int));
            assert(counters@.take(i + 1).last() == counters@[i as int]);
        }
        total_read = total_read.saturating_add(read_bytes);
        total_write = total_write.saturating_add(write_bytes);
        i = i + 1;
    }
    proof {
        assert(counters@.take(counters@.len() as int) =~= counters@);
    }
    (total_read, total_write)
}

/// The cumulative counter pairs of the given processes, one per process
/// whose counters could be read; which those are depends on the live
/// process table, so nothing is promised of the contents.
fn collect_io_counters(pids: &Vec<u32>) -> (counters: Vec<(u64, u64)>)
{
    let mut counters: Vec<(u64, u64)> = Vec::new();
    let mut i: usize = 0;
    while i < pids.len()
        invariant true,
        decreases pids@.len() - i,
    {
        if let Some(pair) = process_io_bytes(pids[i]) {
            counters.push(pair);
        }
        i = i + 1;
    }
    counters
}

/// Sum of the cumulative read and write byte counters of the given
/// processes, each addition saturating at the maximum; a process that
/// cannot be read contributes nothing.  The counters come from the live
/// process table, so the totals cannot be pinned here; the summation
/// itself is `sum_io_pairs`, whose contract is exact over the collected
/// pairs.
pub fn total_io_bytes(pids: &Vec<u32>) -> (totals: (u64, u64))
{
    let counters = collect_io_counters(pids);
    sum_io_pairs(&counters)
}

/// Relies on procfs: `Process::new` opens the process, `Process::tasks`
/// enumerates its task directory, and `Task::stat` reads the task's pid and
/// parent pid.  The result holds one `(pid, ppid)` pair per readable task;
/// what those are depends on the live process table, so nothing is promised
/// of the contents.
#[verifier::external_body]
fn task_parent_links(pid: u32) -> (links: Vec<(u32, u32)>)
{
    let mut links = Vec::new();
    if let Ok(process) = procfs::process::Process::new(pid as i32) {
        if let Ok(tasks) = process.tasks() {
            for task in tasks.flatten() {
                if let Ok(stat) = task.stat() {
                    links.push((stat.pid as u32, stat.ppid as u32));
                }
            }
        }
    }
    links
}

/// Relies on procfs: `Process::new` opens the process and `Process::io`
/// reads its cumulative `read_bytes` and `write_bytes` counters.  `None`
/// when the process or its counters cannot be read.  The values depend on
/// the live process table, so nothing is promised of them.
#[verifier::external_body]
fn process_io_bytes(pid: u32) -> (io: Option<(u64, u64)>)
{
    let process = procfs::process::Process::new(pid as i32).ok()?;
    let io = process.io().ok()?;
    Some((io.read_bytes, io.write_bytes))
}

/// Every delta emitted for a sequence of cumulative totals is non-negative,
/// and equals the exact difference whenever the totals did not decrease.
pub proof fn lemma_deltas_nonnegative(totals: Seq<u64>)
    ensures
        deltas_of(totals).len() == totals.len(),
        forall|i: int| 0 <= i < totals.len() ==> #[trigger] deltas_of(totals)[i] >= 0,
        forall|i: int| 1 <= i < totals.len() && totals[i - 1] <= totals[i]
            ==> #[trigger] deltas_of(totals)[i] == totals[i] - totals[i - 1],
    decreases totals.len(),
{
    if totals.len() > 0 {
        lemma_deltas_nonnegative(totals.drop_last());
        assert forall|i: int| 0 <= i < totals.len() implies #[trigger] deltas_of(totals)[i] >= 0 by {
            if i < totals.len() - 1 {
                assert(deltas_of(totals)[i] == deltas_of(totals.drop_last())[i]);
            }
        }
        assert forall|i: int| 1 <= i < totals.len() && totals[i - 1] <= totals[i]
            implies #[trigger] deltas_of(totals)[i] == totals[i] - totals[i - 1] by {
            if i < totals.len() - 1 {
                assert(deltas_of(totals)[i] == deltas_of(totals.drop_last())[i]);
                assert(totals.drop_last()[i - 1] == totals[i - 1]);
            }
        }
    }
}

} // verus!
