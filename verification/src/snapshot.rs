//! Turning raw system readings into a snapshot: unit conversions, the
//! five busiest processes, the interface list and the alerts.
use vstd::prelude::*;
use crate::alerts::{alerts_for, check_alerts};
use crate::float::{f32_is_nan, f32_key, f32_key_of, f32_is_nan_bits};
use crate::model::{
    mib, CpuInfo, Load, MemInfo, MemoryShare, NetworkInfo, ProcessInfo, SysWatchError,
    SystemSnapshot,
};

verus! {

/// How many processes a snapshot keeps.
pub const TOP_COUNT: usize = 5;

/// One process as the operating system reports it.
#[derive(Debug, Clone)]
pub struct ProcessReading {
    pub pid: u32,
    pub name: String,
    /// CPU load of the process.
    pub cpu: Load,
    pub memory_bytes: u64,
}

/// Everything read from the operating system for one snapshot.
#[derive(Debug, Clone)]
pub struct SystemReadings {
    /// Global CPU load.
    pub cpu_usage: Load,
    pub core_count: usize,
    pub total_memory_bytes: u64,
    pub used_memory_bytes: u64,
    pub free_memory_bytes: u64,
    /// The share of memory in use, over the MiB counts.
    pub memory_share: MemoryShare,
    pub processes: Vec<ProcessReading>,
}

/// A reading with its memory in MiB.
pub open spec fn process_of(r: ProcessReading) -> ProcessInfo {
    ProcessInfo {
        pid: r.pid,
        name: r.name,
        cpu: r.cpu,
        memory_mb: mib(r.memory_bytes as nat) as u64,
    }
}

/// The readings with their memory in MiB, in the same order.
pub open spec fn processes_of(rs: Seq<ProcessReading>) -> Seq<ProcessInfo> {
    Seq::new(rs.len(), |i: int| process_of(rs[i]))
}

/// The key by which processes are ordered: their load.
pub open spec fn load_key(p: ProcessInfo) -> u32 {
    f32_key(p.cpu.bits)
}

/// Whether some process has a NaN load.
pub open spec fn has_nan_load(rs: Seq<ProcessReading>) -> bool {
    exists|i: int| 0 <= i < rs.len() && f32_is_nan(#[trigger] rs[i].cpu.bits)
}

/// Whether the loads can be ordered: `sort_by` with `partial_cmp(..).unwrap()`
/// panics when it compares a NaN load, which it does whenever there are two
/// processes or more and one of them has a NaN load.
pub open spec fn loads_comparable(rs: Seq<ProcessReading>) -> bool {
    rs.len() >= 2 ==> !has_nan_load(rs)
}

/// Whether the loads of the readings can be ordered (see
/// `loads_comparable`).
pub fn can_order_loads(rs: &Vec<ProcessReading>) -> (b: bool)
    ensures
        b == loads_comparable(rs@),
{
    if rs.len() < 2 {
        return true;
    }
    for i in 0..rs.len()
        invariant
            rs@.len() >= 2,
            forall|k: int| 0 <= k < i ==> !f32_is_nan(#[trigger] rs@[k].cpu.bits),
    {
        if f32_is_nan_bits(rs[i].cpu.bits) {
            assert(f32_is_nan(rs@[i as int].cpu.bits));
            return false;
        }
    }
    true
}

/// The index of the first process whose key is below `c` (or the length).
pub open spec fn first_below(t: Seq<ProcessInfo>, c: u32) -> nat
    decreases t.len(),
{
    if t.len() == 0 {
        0
    } else if load_key(t[0]) < c {
        0
    } else {
        1 + first_below(t.drop_first(), c)
    }
}

/// `x` inserted after every process whose load is at least its own.
pub open spec fn insert_by_cpu(t: Seq<ProcessInfo>, x: ProcessInfo) -> Seq<ProcessInfo> {
    t.insert(first_below(t, load_key(x)) as int, x)
}

/// The processes ordered by decreasing load; processes of equal load keep
/// their order (a stable sort, as `sort_by` is). For loads that are not NaN,
/// the order of the keys is the order of the loads.
pub open spec fn sort_by_cpu(s: Seq<ProcessInfo>) -> Seq<ProcessInfo>
    decreases s.len(),
{
    if s.len() == 0 {
        Seq::empty()
    } else {
        insert_by_cpu(sort_by_cpu(s.drop_last()), s.last())
    }
}

/// Ordered by decreasing load.
pub open spec fn is_sorted_by_cpu(s: Seq<ProcessInfo>) -> bool {
    forall|i: int, j: int| 0 <= i < j < s.len() ==> load_key(s[i]) >= load_key(s[j])
}

/// At most the first `TOP_COUNT` of `s`.
pub open spec fn first_few(s: Seq<ProcessInfo>) -> Seq<ProcessInfo> {
    if s.len() <= TOP_COUNT {
        s
    } else {
        s.take(TOP_COUNT as int)
    }
}

/// The busiest processes of a reading, busiest first.
pub open spec fn top_of(rs: Seq<ProcessReading>) -> Seq<ProcessInfo> {
    first_few(sort_by_cpu(processes_of(rs)))
}

/// The two interfaces that the monitor reports.
pub open spec fn is_standard_network(n: Seq<NetworkInfo>) -> bool {
    &&& n.len() == 2
    &&& n[0].interface_name@ == "Ethernet"@
    &&& n[0].bytes_received == 1024 * 1024 * 100
    &&& n[0].bytes_transmitted == 1024 * 1024 * 50
    &&& n[1].interface_name@ == "WiFi"@
    &&& n[1].bytes_received == 1024 * 1024 * 250
    &&& n[1].bytes_transmitted == 1024 * 1024 * 150
}

/// Whether `s` holds what the readings give, the timestamp aside.
pub open spec fn snapshot_of(s: SystemSnapshot, r: SystemReadings) -> bool {
    &&& s.cpu.usage == r.cpu_usage
    &&& s.cpu.core_count == r.core_count
    &&& s.memory.total_mb == mib(r.total_memory_bytes as nat)
    &&& s.memory.used_mb == mib(r.used_memory_bytes as nat)
    &&& s.memory.free_mb == mib(r.free_memory_bytes as nat)
    &&& s.memory.used_share == r.memory_share
    &&& s.top_processes@ == top_of(r.processes@)
    &&& is_standard_network(s.network@)
    &&& alerts_for(s.alerts, r.cpu_usage, r.memory_share)
}

/// The error for a machine without any CPU.
pub open spec fn is_no_cpu_error(e: SysWatchError) -> bool {
    match e {
        SysWatchError::CollectionFailed(m) => m@ == "Aucun CPU détecté"@,
    }
}

// ---------------------------------------------------------------------------
// Lemmas on the order
// ---------------------------------------------------------------------------

/// `first_below` is the one index before which every load is at least `c`
/// and at which the load is below `c`.
proof fn lemma_first_below_is(t: Seq<ProcessInfo>, c: u32, j: int)
    requires
        0 <= j <= t.len(),
        forall|k: int| 0 <= k < j ==> load_key(t[k]) >= c,
        j == t.len() || load_key(t[j]) < c,
    ensures
        first_below(t, c) == j,
    decreases t.len(),
{
    if t.len() > 0 && load_key(t[0]) >= c {
        lemma_first_below_is(t.drop_first(), c, j - 1);
    }
}

/// Properties of `first_below`.
proof fn lemma_first_below_props(t: Seq<ProcessInfo>, c: u32)
    ensures
        first_below(t, c) <= t.len(),
        forall|k: int| 0 <= k < first_below(t, c) ==> load_key(t[k]) >= c,
        first_below(t, c) < t.len() ==> load_key(t[first_below(t, c) as int]) < c,
    decreases t.len(),
{
    if t.len() > 0 && load_key(t[0]) >= c {
        lemma_first_below_props(t.drop_first(), c);
        assert forall|k: int| 0 <= k < first_below(t, c) implies load_key(t[k]) >= c by {
            if k > 0 {
                assert(t[k] == t.drop_first()[k - 1]);
            }
        }
    }
}

/// Inserting into an ordered list at `first_below` keeps it ordered.
proof fn lemma_insert_keeps_order(t: Seq<ProcessInfo>, x: ProcessInfo)
    requires
        is_sorted_by_cpu(t),
    ensures
        is_sorted_by_cpu(insert_by_cpu(t, x)),
        insert_by_cpu(t, x).len() == t.len() + 1,
        insert_by_cpu(t, x).to_multiset() == t.to_multiset().insert(x),
{
    lemma_first_below_props(t, load_key(x));
    let p = first_below(t, load_key(x)) as int;
    let r = insert_by_cpu(t, x);
    assert forall|i: int, j: int| 0 <= i < j < r.len() implies load_key(r[i]) >= load_key(
        r[j],
    ) by {
        if i < p {
            if j < p {
            } else if j == p {
            } else {
                assert(r[j] == t[j - 1]);
            }
        } else if i == p {
            assert(r[j] == t[j - 1]);
            if p < t.len() {
                assert(load_key(t[p]) >= load_key(t[j - 1]) || j - 1 == p);
            }
        } else {
            assert(r[i] == t[i - 1]);
            assert(r[j] == t[j - 1]);
        }
    }
    vstd::seq_lib::to_multiset_insert(t, p, x);
}

/// The sorted processes are ordered by decreasing load and are the same
/// processes as the input, as many times each.
pub proof fn lemma_sort_by_cpu(s: Seq<ProcessInfo>)
    ensures
        is_sorted_by_cpu(sort_by_cpu(s)),
        sort_by_cpu(s).len() == s.len(),
        sort_by_cpu(s).to_multiset() == s.to_multiset(),
    decreases s.len(),
{
    if s.len() == 0 {
        assert(s =~= Seq::<ProcessInfo>::empty());
    } else {
        lemma_sort_by_cpu(s.drop_last());
        lemma_insert_keeps_order(sort_by_cpu(s.drop_last()), s.last());
        vstd::seq_lib::to_multiset_build(s.drop_last(), s.last());
        assert(s.drop_last().push(s.last()) =~= s);
    }
}

/// The kept processes are at most `TOP_COUNT`, ordered by decreasing load,
/// each one of the reported processes, and no process left out is busier
/// than any kept one; when fewer than `TOP_COUNT + 1` processes are
/// reported, all of them are kept.
pub proof fn lemma_top_processes(rs: Seq<ProcessReading>)
    ensures
        top_of(rs).len() == if rs.len() <= TOP_COUNT {
            rs.len()
        } else {
            TOP_COUNT as nat
        },
        is_sorted_by_cpu(top_of(rs)),
        forall|i: int|
            0 <= i < top_of(rs).len() ==> processes_of(rs).to_multiset().contains(
                #[trigger] top_of(rs)[i],
            ),
        forall|i: int, j: int|
            0 <= i < top_of(rs).len() && top_of(rs).len() <= j < sort_by_cpu(processes_of(rs)).len()
                ==> load_key(#[trigger] top_of(rs)[i]) >= load_key(
                #[trigger] sort_by_cpu(processes_of(rs))[j],
            ),
        rs.len() <= TOP_COUNT ==> top_of(rs).to_multiset() == processes_of(rs).to_multiset(),
{
    let ps = processes_of(rs);
    let sorted = sort_by_cpu(ps);
    lemma_sort_by_cpu(ps);
    assert forall|i: int| 0 <= i < top_of(rs).len() implies ps.to_multiset().contains(
        #[trigger] top_of(rs)[i],
    ) by {
        assert(top_of(rs)[i] == sorted[i]);
        vstd::seq_lib::to_multiset_contains(sorted, sorted[i]);
    }
}

// ---------------------------------------------------------------------------
// Executable code
// ---------------------------------------------------------------------------

/// The interfaces that the monitor reports: `Ethernet` (100 MiB received,
/// 50 MiB sent) and `WiFi` (250 MiB received, 150 MiB sent).
pub fn collect_network_info() -> (n: Vec<NetworkInfo>)
    ensures
        is_standard_network(n@),
{
    let mut n: Vec<NetworkInfo> = Vec::new();
    n.push(
        NetworkInfo {
            interface_name: String::from_str("Ethernet"),
            bytes_received: 1024 * 1024 * 100,
            bytes_transmitted: 1024 * 1024 * 50,
        },
    );
    n.push(
        NetworkInfo {
            interface_name: String::from_str("WiFi"),
            bytes_received: 1024 * 1024 * 250,
            bytes_transmitted: 1024 * 1024 * 150,
        },
    );
    n
}

/// Inserts `x` after every process whose load is at least its own.
fn insert_by_load(v: &mut Vec<ProcessInfo>, x: ProcessInfo)
    ensures
        final(v)@ == insert_by_cpu(old(v)@, x),
{
    let key = f32_key_of(x.cpu.bits);
    let mut j: usize = 0;
    while j < v.len() && f32_key_of(v[j].cpu.bits) >= key
        invariant
            j <= v@.len(),
            key == load_key(x),
            forall|k: int| 0 <= k < j ==> load_key(v@[k]) >= key,
        decreases v@.len() - j,
    {
        j = j + 1;
    }
    proof {
        lemma_first_below_is(v@, key, j as int);
    }
    v.insert(j, x);
}

/// The readings as processes (memory in MiB), ordered by decreasing load,
/// equal loads keeping their order, cut to the `TOP_COUNT` busiest.
pub fn top_processes(readings: Vec<ProcessReading>) -> (top: Vec<ProcessInfo>)
    requires
        loads_comparable(readings@),
    ensures
        top@ == top_of(readings@),
{
    let ghost all = processes_of(readings@);
    let len0 = readings.len();
    let ghost n = readings@.len();
    let mut rest = readings;
    let mut sorted: Vec<ProcessInfo> = Vec::new();
    let mut i: usize = 0;
    while rest.len() > 0
        invariant
            n == all.len(),
            n == len0,
            i + rest@.len() == n,
            forall|k: int| 0 <= k < rest@.len() ==> process_of(#[trigger] rest@[k]) == all[i + k],
            sorted@ == sort_by_cpu(all.take(i as int)),
        decreases rest@.len(),
    {
        let ghost before = rest@;
        let r = rest.remove(0);
        assert(process_of(r) == all[i as int]) by {
            assert(process_of(before[0]) == all[i + 0]);
        }
        let p = ProcessInfo {
            pid: r.pid,
            name: r.name,
            cpu: r.cpu,
            memory_mb: r.memory_bytes / 1024 / 1024,
        };
        assert(p == all[i as int]);
        insert_by_load(&mut sorted, p);
        assert(all.take(i + 1).drop_last() =~= all.take(i as int));
        i = i + 1;
        assert forall|k: int| 0 <= k < rest@.len() implies process_of(#[trigger] rest@[k])
            == all[i + k] by {
            assert(rest@[k] == before[k + 1]);
        }
    }
    assert(all.take(n as int) =~= all);
    if sorted.len() > TOP_COUNT {
        sorted.truncate(TOP_COUNT);
    }
    sorted
}

/// The snapshot for `readings`, stamped `timestamp` (the local time at
/// which they were read); an error when no CPU was detected.
pub fn collect_snapshot(readings: SystemReadings, timestamp: String) -> (r: Result<
    SystemSnapshot,
    SysWatchError,
>)
    requires
        loads_comparable(readings.processes@),
    ensures
        readings.core_count == 0 <==> r is Err,
        r matches Err(e) ==> is_no_cpu_error(e),
        r matches Ok(s) ==> snapshot_of(s, readings) && s.timestamp == timestamp,
{
    if readings.core_count == 0 {
        return Err(SysWatchError::CollectionFailed(String::from_str("Aucun CPU détecté")));
    }
    let ghost r0 = readings;
    let total_mb = readings.total_memory_bytes / 1024 / 1024;
    let used_mb = readings.used_memory_bytes / 1024 / 1024;
    let free_mb = readings.free_memory_bytes / 1024 / 1024;
    let top = top_processes(readings.processes);
    let network = collect_network_info();
    let alerts = check_alerts(&readings.cpu_usage, &readings.memory_share);
    let s = SystemSnapshot {
        timestamp,
        cpu: CpuInfo { usage: readings.cpu_usage, core_count: readings.core_count },
        memory: MemInfo { total_mb, used_mb, free_mb, used_share: readings.memory_share },
        top_processes: top,
        network,
        alerts,
    };
    Ok(s)
}

/// What the periodic refresh reports: that the metrics were updated, or the
/// failure.
pub open spec fn refresh_text(r: Result<SystemSnapshot, SysWatchError>) -> Seq<char> {
    match r {
        Ok(_) => "[refresh] Métriques mises à jour"@,
        Err(e) => "[refresh] Erreur: "@ + e.rendered(),
    }
}

/// The line that the periodic refresh prints for the outcome of a
/// collection.
pub fn refresh_message(r: &Result<SystemSnapshot, SysWatchError>) -> (m: String)
    ensures
        m@ == refresh_text(*r),
{
    match r {
        Ok(_) => String::from_str("[refresh] Métriques mises à jour"),
        Err(e) => {
            let mut m = String::new();
            m.append("[refresh] Erreur: ");
            let text = e.render();
            m.append(text.as_str());
            m
        },
    }
}

/// Whether `after` and `report` are what the periodic refresh makes of
/// `before` and the outcome `collected` of a collection: a new snapshot
/// replaces the old one and is reported on the standard output (`Ok`); on
/// a failure the old snapshot stays and the failure is reported on the
/// error output (`Err`).
pub open spec fn is_refresh(
    before: SystemSnapshot,
    collected: Result<SystemSnapshot, SysWatchError>,
    after: SystemSnapshot,
    report: Result<String, String>,
) -> bool {
    match collected {
        Ok(s) => after == s && (report matches Ok(m) && m@ == refresh_text(collected)),
        Err(_) => after == before && (report matches Err(m) && m@ == refresh_text(collected)),
    }
}

/// One periodic refresh: keeps `current` up to date with what was
/// collected, and says what to report.
pub fn refresh(current: &mut SystemSnapshot, collected: Result<SystemSnapshot, SysWatchError>) -> (report: Result<String, String>)
    ensures
        is_refresh(*old(current), collected, *final(current), report),
{
    let message = refresh_message(&collected);
    match collected {
        Ok(s) => {
            *current = s;
            Ok(message)
        },
        Err(_) => Err(message),
    }
}

} // verus!
