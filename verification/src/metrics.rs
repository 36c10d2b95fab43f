//! The metric values served by the API: CPU, memory and process data as
//! captured by the provider at one instant, and the response bodies built
//! from them.

use vstd::prelude::*;
use vstd::seq_lib::group_to_multiset_ensures;

verus! {

/// Usage and frequency of one CPU, or of the whole machine.
///
/// Usage is a fixed-point value in hundredths of a percent (0 to 10000 for
/// one core), so that the data stays in plain integers.
#[derive(Clone, Copy, PartialEq, Eq, Structural, Debug)]
pub struct GlobalCpuInfo {
    /// CPU usage, in hundredths of a percent.
    pub usage: u32,
    /// CPU frequency in MHz.
    pub frequency: u64,
}

/// One named CPU core together with its usage numbers.
#[derive(Debug)]
pub struct CpuInfo {
    /// The core's name.
    pub name: String,
    /// Usage and frequency of this core.
    pub inner: GlobalCpuInfo,
}

impl Clone for CpuInfo {
    fn clone(&self) -> (r: Self)
        ensures
            r == *self,
    {
        CpuInfo { name: self.name.clone(), inner: self.inner }
    }
}

/// Response from getting the CPU usage metrics.
#[derive(Debug)]
pub struct GetCpuResponse {
    /// Usage of the machine as a whole.
    pub global: GlobalCpuInfo,
    /// Usage of each core.
    pub cpus: Vec<CpuInfo>,
}

/// Response from getting the memory usage metrics.
#[derive(Clone, Copy, PartialEq, Eq, Structural, Debug)]
pub struct GetMemoryResponse {
    /// Total memory in kilobytes.
    pub total: u64,
    /// Used memory in kilobytes.
    pub used: u64,
    /// Free (unallocated) memory in kilobytes.
    pub free: u64,
    /// Available (reusable) memory in kilobytes.
    pub available: u64,
}

/// One process row of the process table.
///
/// CPU usage is a fixed-point value in hundredths of a percent, as in
/// [`GlobalCpuInfo`].
#[derive(Debug)]
pub struct ProcessInfo {
    /// The process id, as text.
    pub pid: String,
    /// The parent process id, if the process has one.
    pub parent_pid: Option<String>,
    /// The process name.
    pub name: String,
    /// CPU usage, in hundredths of a percent.
    pub cpu: u32,
    /// Resident memory in kilobytes.
    pub memory: u64,
    /// Virtual memory in kilobytes.
    pub virtual_memory: u64,
    /// Seconds the process has been running.
    pub run_time: u64,
    /// Path of the executable, if known.
    pub path: Option<String>,
}

impl Clone for ProcessInfo {
    fn clone(&self) -> (r: Self)
        ensures
            r == *self,
    {
        ProcessInfo {
            pid: self.pid.clone(),
            parent_pid: clone_opt_string(&self.parent_pid),
            name: self.name.clone(),
            cpu: self.cpu,
            memory: self.memory,
            virtual_memory: self.virtual_memory,
            run_time: self.run_time,
            path: clone_opt_string(&self.path),
        }
    }
}

fn clone_opt_string(s: &Option<String>) -> (r: Option<String>)
    ensures
        r == *s,
{
    match s {
        Some(inner) => Some(inner.clone()),
        None => None,
    }
}

/// Response from getting the process table, sorted by descending memory use.
#[derive(Debug)]
pub struct GetProcessesResponse {
    /// The process rows, largest resident memory first.
    pub processes: Vec<ProcessInfo>,
}

/// The process rows are ordered by descending resident memory.
pub open spec fn sorted_by_memory_desc(s: Seq<ProcessInfo>) -> bool {
    forall|i: int, j: int| 0 <= i <= j < s.len() ==> #[trigger] s[i].memory >= #[trigger] s[j].memory
}

/// Everything the provider captures at one instant: CPU, memory and the
/// process table. A refresh replaces a whole value of this type at once.
#[derive(Debug)]
pub struct SnapshotData {
    /// Usage of the machine as a whole.
    pub global_cpu: GlobalCpuInfo,
    /// Usage of each core.
    pub cpus: Vec<CpuInfo>,
    /// Total memory in kilobytes.
    pub total_memory: u64,
    /// Used memory in kilobytes.
    pub used_memory: u64,
    /// Free (unallocated) memory in kilobytes.
    pub free_memory: u64,
    /// Available (reusable) memory in kilobytes.
    pub available_memory: u64,
    /// The process table.
    pub processes: Vec<ProcessInfo>,
}

/// Builds the body of the `/cpu` endpoint from a snapshot's data.
pub fn get_cpu(data: &SnapshotData) -> (r: GetCpuResponse)
    ensures
        r.global == data.global_cpu,
        r.cpus@ == data.cpus@,
{
    GetCpuResponse { global: data.global_cpu, cpus: clone_cpus(&data.cpus) }
}

fn clone_cpus(cpus: &Vec<CpuInfo>) -> (r: Vec<CpuInfo>)
    ensures
        r@ == cpus@,
{
    let mut r: Vec<CpuInfo> = Vec::new();
    let mut i: usize = 0;
    while i < cpus.len()
        invariant
            i <= cpus.len(),
            r@ == cpus@.subrange(0, i as int),
        decreases cpus.len() - i,
    {
        r.push(cpus[i].clone());
        proof {
            assert(r@ =~= cpus@.subrange(0, i + 1 as int));
        }
        i = i + 1;
    }
    proof {
        assert(r@ =~= cpus@);
    }
    r
}

/// Builds the body of the `/memory` endpoint from a snapshot's data.
pub fn get_memory(data: &SnapshotData) -> (r: GetMemoryResponse)
    ensures
        r.total == data.total_memory,
        r.used == data.used_memory,
        r.free == data.free_memory,
        r.available == data.available_memory,
{
    GetMemoryResponse {
        total: data.total_memory,
        used: data.used_memory,
        free: data.free_memory,
        available: data.available_memory,
    }
}

/// Builds the body of the `/processes` endpoint from a snapshot's data:
/// the process table, largest resident memory first.
pub fn get_processes(data: &SnapshotData) -> (r: GetProcessesResponse)
    ensures
        sorted_by_memory_desc(r.processes@),
        r.processes@.to_multiset() == data.processes@.to_multiset(),
{
    create_response(&data.processes)
}

/// Copies the process rows and sorts them by descending memory use.
pub fn create_response(processes: &Vec<ProcessInfo>) -> (r: GetProcessesResponse)
    ensures
        sorted_by_memory_desc(r.processes@),
        r.processes@.to_multiset() == processes@.to_multiset(),
{
    let mut rows = clone_processes(processes);
    sort_by_memory_desc(&mut rows);
    GetProcessesResponse { processes: rows }
}

fn clone_processes(processes: &Vec<ProcessInfo>) -> (r: Vec<ProcessInfo>)
    ensures
        r@ == processes@,
{
    let mut r: Vec<ProcessInfo> = Vec::new();
    let mut i: usize = 0;
    while i < processes.len()
        invariant
            i <= processes.len(),
            r@ == processes@.subrange(0, i as int),
        decreases processes.len() - i,
    {
        r.push(processes[i].clone());
        proof {
            assert(r@ =~= processes@.subrange(0, i + 1 as int));
        }
        i = i + 1;
    }
    proof {
        assert(r@ =~= processes@);
    }
    r
}

/// Insertion sort on the process rows, by descending resident memory.
fn sort_by_memory_desc(rows: &mut Vec<ProcessInfo>)
    ensures
        sorted_by_memory_desc(final(rows)@),
        final(rows)@.to_multiset() == old(rows)@.to_multiset(),
{
    broadcast use group_to_multiset_ensures;

    if rows.len() <= 1 {
        return;
    }
    let mut i: usize = 1;
    while i < rows.len()
        invariant
            1 <= i <= rows@.len(),
            rows@.len() == old(rows)@.len(),
            sorted_by_memory_desc(rows@.subrange(0, i as int)),
            rows@.to_multiset() == old(rows)@.to_multiset(),
        decreases rows@.len() - i,
    {
        let ghost prev = rows@;
        let row = rows.remove(i);
        let ghost removed = rows@;
        proof {
            broadcast use group_to_multiset_ensures;

            assert(removed.subrange(0, i as int) =~= prev.subrange(0, i as int));
            assert(prev.remove(i as int).to_multiset() =~= prev.to_multiset().remove(prev[i as int]));
        }
        let pos = insertion_point(rows, i, row.memory);
        rows.insert(pos, row);
        proof {
            broadcast use group_to_multiset_ensures;

            assert(removed.insert(pos as int, row).to_multiset() =~= removed.to_multiset().insert(row));
            assert(prev.to_multiset().count(row) > 0) by {
                assert(prev.contains(row));
            }
            assert(prev.to_multiset().remove(row).insert(row) =~= prev.to_multiset());
            assert(rows@.to_multiset() =~= old(rows)@.to_multiset());
            assert forall|a: int, b: int| 0 <= a <= b < i + 1 implies
                #[trigger] rows@[a].memory >= #[trigger] rows@[b].memory by {
                if b < pos {
                    assert(rows@[a] == removed[a] && rows@[b] == removed[b]);
                } else if pos < a {
                    assert(rows@[a] == removed[a - 1] && rows@[b] == removed[b - 1]);
                } else if a < pos && b == pos {
                    assert(rows@[a] == removed[a]);
                } else if a == pos && pos < b {
                    assert(rows@[b] == removed[b - 1]);
                    assert(pos < i && removed[pos as int].memory < row.memory);
                    assert(removed[pos as int].memory >= removed[b - 1].memory);
                } else if a < pos && pos < b {
                    assert(rows@[a] == removed[a] && rows@[b] == removed[b - 1]);
                    assert(removed[a].memory >= removed[b - 1].memory);
                }
            }
        }
        i = i + 1;
    }
    proof {
        assert(rows@.subrange(0, rows@.len() as int) =~= rows@);
    }
}

/// Finds where a row with the given memory belongs in the sorted prefix
/// `rows[0..limit]`: the first index whose row has strictly less memory.
fn insertion_point(rows: &Vec<ProcessInfo>, limit: usize, memory: u64) -> (r: usize)
    requires
        limit <= rows@.len(),
        sorted_by_memory_desc(rows@.subrange(0, limit as int)),
    ensures
        r <= limit,
        forall|k: int| 0 <= k < r ==> #[trigger] rows@[k].memory >= memory,
        r < limit ==> rows@[r as int].memory < memory,
{
    let mut j: usize = 0;
    while j < limit
        invariant
            j <= limit <= rows@.len(),
            forall|k: int| 0 <= k < j ==> #[trigger] rows@[k].memory >= memory,
        decreases limit - j,
    {
        if rows[j].memory < memory {
            return j;
        }
        j = j + 1;
    }
    j
}

} // verus!
