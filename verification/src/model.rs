//! The metrics that the monitor collects, and how each of them is written
//! out for a human reader.
//!
//! CPU loads and the share of memory in use are floating-point readings,
//! held as described in `float`; memory sizes are in MiB; traffic in bytes.
use vstd::prelude::*;
use crate::text::{
    chars_of, concat, dec, decimal_chars, is_left_aligned, is_right_aligned, lemma_padding_aligns,
    pad_left, pad_right, push_decimal, push_left_aligned, push_right_aligned,
};

verus! {

/// A load in percent, as the system reports it (an `f32`).
#[derive(Debug, Clone)]
pub struct Load {
    /// The IEEE 754 encoding of the load (`f32::to_bits`).
    pub bits: u32,
    /// The load with one decimal (`format!("{:.1}", load)`).
    pub text: String,
    /// The whole number of tens in the load (`(load / 10.0) as usize`).
    pub tens: usize,
}

/// The share of memory in use, in percent: `used as f64 / total as f64 *
/// 100.0` over the MiB counts.
#[derive(Debug, Clone)]
pub struct MemoryShare {
    /// The IEEE 754 encoding of the share (`f64::to_bits`).
    pub bits: u64,
    /// The share with one decimal (`format!("{:.1}", share)`).
    pub text: String,
    /// The whole number of 5 % steps in the share (`(share / 5.0) as usize`).
    pub fifths: usize,
}

/// Global CPU load and number of cores.
#[derive(Debug, Clone)]
pub struct CpuInfo {
    /// Load over all cores.
    pub usage: Load,
    pub core_count: usize,
}

/// Physical memory, in MiB, and the share of it in use.
#[derive(Debug, Clone)]
pub struct MemInfo {
    pub total_mb: u64,
    pub used_mb: u64,
    pub free_mb: u64,
    pub used_share: MemoryShare,
}

/// One running process.
#[derive(Debug, Clone)]
pub struct ProcessInfo {
    pub pid: u32,
    pub name: String,
    /// CPU load of the process.
    pub cpu: Load,
    pub memory_mb: u64,
}

/// Traffic counters of one network interface.
#[derive(Debug, Clone)]
pub struct NetworkInfo {
    pub interface_name: String,
    pub bytes_received: u64,
    pub bytes_transmitted: u64,
}

/// The alert levels reached by a snapshot, and the alert messages.
#[derive(Debug, Clone)]
pub struct AlertStatus {
    pub cpu_critical: bool,
    pub cpu_warning: bool,
    pub memory_critical: bool,
    pub memory_warning: bool,
    pub alerts: Vec<String>,
}

/// Everything the monitor knows at one moment.
#[derive(Debug, Clone)]
pub struct SystemSnapshot {
    pub timestamp: String,
    pub cpu: CpuInfo,
    pub memory: MemInfo,
    pub top_processes: Vec<ProcessInfo>,
    pub network: Vec<NetworkInfo>,
    pub alerts: AlertStatus,
}

/// Failure to collect the metrics.
#[derive(Debug, Clone)]
pub enum SysWatchError {
    CollectionFailed(String),
}

/// Bytes to whole MiB, rounded down.
pub open spec fn mib(bytes: nat) -> nat {
    bytes / 1024 / 1024
}

/// Bytes to whole MiB, rounded down (`bytes / 1024 / 1024`).
pub fn bytes_to_mib(bytes: u64) -> (m: u64)
    ensures
        m == mib(bytes as nat),
{
    bytes / 1024 / 1024
}

impl CpuInfo {
    /// `CPU: 12.3% (8 cœurs)`
    pub open spec fn rendered(&self) -> Seq<char> {
        "CPU: "@ + self.usage.text@ + "% ("@ + dec(self.core_count as nat)
            + " cœurs)"@
    }

    /// The line that describes the CPU.
    pub fn render(&self) -> (r: String)
        ensures
            r@ == self.rendered(),
    {
        let mut s = String::new();
        s.append("CPU: ");
        s.append(self.usage.text.as_str());
        s.append("% (");
        push_decimal(&mut s, self.core_count as u128);
        s.append(" cœurs)");
        s
    }
}

impl MemInfo {
    /// `MEM: 2048MB utilisés / 8192MB total (6144 MB libres)`
    pub open spec fn rendered(&self) -> Seq<char> {
        "MEM: "@ + dec(self.used_mb as nat) + "MB utilisés / "@ + dec(self.total_mb as nat)
            + "MB total ("@ + dec(self.free_mb as nat) + " MB libres)"@
    }

    /// The line that describes the memory.
    pub fn render(&self) -> (r: String)
        ensures
            r@ == self.rendered(),
    {
        let mut s = String::new();
        s.append("MEM: ");
        push_decimal(&mut s, (self.used_mb) as u128);
        s.append("MB utilisés / ");
        push_decimal(&mut s, (self.total_mb) as u128);
        s.append("MB total (");
        push_decimal(&mut s, (self.free_mb) as u128);
        s.append(" MB libres)");
        s
    }
}

impl ProcessInfo {
    /// `  [  1234] name                      CPU: 12.3%  MEM:   42MB`: the pid
    /// right-aligned in 6 columns, the name left-aligned in 25, the load
    /// right-aligned in 5 and the memory right-aligned in 5.
    pub open spec fn rendered(&self) -> Seq<char> {
        "  ["@ + pad_left(dec(self.pid as nat), 6) + "] "@ + pad_right(self.name@, 25) + " CPU:"@
            + pad_left(self.cpu.text@, 5) + "%  MEM:"@ + pad_left(
            dec(self.memory_mb as nat),
            5,
        ) + "MB"@
    }

    /// The line that describes the process.
    pub fn render(&self) -> (r: String)
        ensures
            r@ == self.rendered(),
    {
        let mut s = String::new();
        s.append("  [");
        let pid = decimal_chars(self.pid as u128);
        push_right_aligned(&mut s, &pid, 6);
        s.append("] ");
        let name = chars_of(self.name.as_str());
        push_left_aligned(&mut s, &name, 25);
        s.append(" CPU:");
        let cpu = chars_of(self.cpu.text.as_str());
        push_right_aligned(&mut s, &cpu, 5);
        s.append("%  MEM:");
        let mem = decimal_chars(self.memory_mb as u128);
        push_right_aligned(&mut s, &mem, 5);
        s.append("MB");
        s
    }
}

impl NetworkInfo {
    /// `  eth0 — RX: 100MB | TX: 50MB`, the counters in whole MiB.
    pub open spec fn rendered(&self) -> Seq<char> {
        "  "@ + self.interface_name@ + " — RX: "@ + dec(mib(self.bytes_received as nat))
            + "MB | TX: "@ + dec(mib(self.bytes_transmitted as nat)) + "MB"@
    }

    /// The line that describes the interface.
    pub fn render(&self) -> (r: String)
        ensures
            r@ == self.rendered(),
    {
        let mut s = String::new();
        s.append("  ");
        s.append(self.interface_name.as_str());
        s.append(" — RX: ");
        push_decimal(&mut s, (self.bytes_received / 1024 / 1024) as u128);
        s.append("MB | TX: ");
        push_decimal(&mut s, (self.bytes_transmitted / 1024 / 1024) as u128);
        s.append("MB");
        s
    }
}

impl AlertStatus {
    /// The one-line summary: nominal when there is no alert, otherwise the
    /// level (critical when a critical threshold is passed) and the count.
    pub open spec fn rendered(&self) -> Seq<char> {
        if self.alerts@.len() == 0 {
            "✓ Système nominal — Aucune alerte"@
        } else {
            let level = if self.cpu_critical || self.memory_critical {
                " CRITIQUE"@
            } else {
                " ATTENTION"@
            };
            level + " — "@ + dec(self.alerts@.len()) + " alerte(s) active(s)"@
        }
    }

    /// The one-line summary of the alerts.
    pub fn render(&self) -> (r: String)
        ensures
            r@ == self.rendered(),
    {
        let mut s = String::new();
        if self.alerts.len() == 0 {
            s.append("✓ Système nominal — Aucune alerte");
        } else {
            if self.cpu_critical || self.memory_critical {
                s.append(" CRITIQUE");
            } else {
                s.append(" ATTENTION");
            }
            s.append(" — ");
            push_decimal(&mut s, self.alerts.len() as u128);
            s.append(" alerte(s) active(s)");
        }
        s
    }
}

/// The lines of the processes, each followed by a line break.
pub open spec fn process_lines(ps: Seq<ProcessInfo>) -> Seq<Seq<char>> {
    Seq::new(ps.len(), |i: int| ps[i].rendered() + "\n"@)
}

/// The lines of the interfaces, each followed by a line break.
pub open spec fn network_lines(ns: Seq<NetworkInfo>) -> Seq<Seq<char>> {
    Seq::new(ns.len(), |i: int| ns[i].rendered() + "\n"@)
}

impl SystemSnapshot {
    /// The full report: a header with the time, CPU, memory, alerts, the top
    /// processes and the interfaces, one per line, and a closing rule.
    pub open spec fn rendered(&self) -> Seq<char> {
        "=== SysWatch — "@ + self.timestamp@ + " ===\n"@ + self.cpu.rendered() + "\n"@
            + self.memory.rendered() + "\n"@ + "--- Alertes ---\n"@ + self.alerts.rendered()
            + "\n"@ + "--- Top Processus ---\n"@ + concat(process_lines(self.top_processes@))
            + "--- Réseau ---\n"@ + concat(network_lines(self.network@))
            + "====================="@
    }

    /// The full report.
    pub fn render(&self) -> (r: String)
        ensures
            r@ == self.rendered(),
    {
        let mut s = String::new();
        s.append("=== SysWatch — ");
        s.append(self.timestamp.as_str());
        s.append(" ===\n");
        let cpu = self.cpu.render();
        s.append(cpu.as_str());
        s.append("\n");
        let mem = self.memory.render();
        s.append(mem.as_str());
        s.append("\n");
        s.append("--- Alertes ---\n");
        let al = self.alerts.render();
        s.append(al.as_str());
        s.append("\n");
        s.append("--- Top Processus ---\n");
        let ghost before = s@;
        let ghost plines = process_lines(self.top_processes@);
        for i in 0..self.top_processes.len()
            invariant
                plines == process_lines(self.top_processes@),
                s@ == before + concat(plines.take(i as int)),
        {
            let line = self.top_processes[i].render();
            s.append(line.as_str());
            s.append("\n");
            assert(plines.take(i + 1).drop_last() =~= plines.take(i as int));
        }
        assert(plines.take(self.top_processes@.len() as int) =~= plines);
        s.append("--- Réseau ---\n");
        let ghost before = s@;
        let ghost nlines = network_lines(self.network@);
        for i in 0..self.network.len()
            invariant
                nlines == network_lines(self.network@),
                s@ == before + concat(nlines.take(i as int)),
        {
            let line = self.network[i].render();
            s.append(line.as_str());
            s.append("\n");
            assert(nlines.take(i + 1).drop_last() =~= nlines.take(i as int));
        }
        assert(nlines.take(self.network@.len() as int) =~= nlines);
        s.append("=====================");
        s
    }
}

impl SysWatchError {
    /// `Erreur collecte: <message>`
    pub open spec fn rendered(&self) -> Seq<char> {
        match self {
            SysWatchError::CollectionFailed(msg) => "Erreur collecte: "@ + msg@,
        }
    }

    /// The message that describes the failure.
    pub fn render(&self) -> (r: String)
        ensures
            r@ == self.rendered(),
    {
        match self {
            SysWatchError::CollectionFailed(msg) => {
                let mut s = String::new();
                s.append("Erreur collecte: ");
                s.append(msg.as_str());
                s
            },
        }
    }
}

// ---------------------------------------------------------------------------
// Laws
// ---------------------------------------------------------------------------

/// The one-line alert summary reads nominal exactly when there is no
/// alert. Otherwise it starts with the level, ` CRITIQUE` when a critical
/// threshold is passed, for the CPU or for the memory, and ` ATTENTION`
/// when none is, and it ends with the number of alerts.
pub proof fn lemma_alert_summary(a: AlertStatus)
    ensures
        a.alerts@.len() == 0 <==> a.rendered() == "✓ Système nominal — Aucune alerte"@,
        a.alerts@.len() > 0 && (a.cpu_critical || a.memory_critical) ==> " CRITIQUE"@.is_prefix_of(
            a.rendered(),
        ),
        a.alerts@.len() > 0 && !(a.cpu_critical || a.memory_critical) ==> " ATTENTION"@.is_prefix_of(
            a.rendered(),
        ),
        a.alerts@.len() > 0 ==> (dec(a.alerts@.len()) + " alerte(s) active(s)"@).is_suffix_of(
            a.rendered(),
        ),
{
    reveal_strlit("✓ Système nominal — Aucune alerte");
    reveal_strlit(" CRITIQUE");
    reveal_strlit(" ATTENTION");
    let r = a.rendered();
    if a.alerts@.len() > 0 {
        let level = if a.cpu_critical || a.memory_critical {
            " CRITIQUE"@
        } else {
            " ATTENTION"@
        };
        let tail = " — "@ + dec(a.alerts@.len()) + " alerte(s) active(s)"@;
        assert(r =~= level + tail);
        assert(r.take(level.len() as int) =~= level);
        assert(r[0] == ' ');
        assert("✓ Système nominal — Aucune alerte"@[0] == '✓');
        let end = dec(a.alerts@.len()) + " alerte(s) active(s)"@;
        assert(r.skip(r.len() - end.len()) =~= end);
    }
}

/// The start of the full report, up to and with its `--- Alertes ---`
/// heading: the title line with the time, the CPU line and the memory line.
pub open spec fn report_head(s: SystemSnapshot) -> Seq<char> {
    "=== SysWatch — "@ + s.timestamp@ + " ===\n"@ + s.cpu.rendered() + "\n"@
        + s.memory.rendered() + "\n"@ + "--- Alertes ---\n"@
}

/// In the full report, the line under `--- Alertes ---` is the alert summary
/// of the snapshot, whole, and the `--- Top Processus ---` heading follows
/// it; so that line reads nominal exactly when there is no alert.
pub proof fn lemma_report_alert_line(s: SystemSnapshot)
    ensures
        report_head(s).is_prefix_of(s.rendered()),
        s.rendered().subrange(
            report_head(s).len() as int,
            (report_head(s).len() + s.alerts.rendered().len()) as int,
        ) == s.alerts.rendered(),
        s.rendered().subrange(
            (report_head(s).len() + s.alerts.rendered().len()) as int,
            (report_head(s).len() + s.alerts.rendered().len() + "\n--- Top Processus ---\n"@.len())
                as int,
        ) == "\n--- Top Processus ---\n"@,
        s.rendered().subrange(
            report_head(s).len() as int,
            (report_head(s).len() + s.alerts.rendered().len()) as int,
        ) == "✓ Système nominal — Aucune alerte"@ <==> s.alerts.alerts@.len() == 0,
{
    let h = report_head(s);
    let a = s.alerts.rendered();
    let t = "\n--- Top Processus ---\n"@;
    let rest = concat(process_lines(s.top_processes@)) + "--- Réseau ---\n"@ + concat(
        network_lines(s.network@),
    ) + "====================="@;
    reveal_strlit("\n");
    reveal_strlit("--- Top Processus ---\n");
    reveal_strlit("\n--- Top Processus ---\n");
    assert(t =~= "\n"@ + "--- Top Processus ---\n"@);
    assert(s.rendered() =~= h + a + t + rest);
    assert(s.rendered().subrange(0, h.len() as int) =~= h);
    assert(s.rendered().subrange(h.len() as int, (h.len() + a.len()) as int) =~= a);
    assert(s.rendered().subrange((h.len() + a.len()) as int, (h.len() + a.len() + t.len()) as int) =~= t);
    lemma_alert_summary(s.alerts);
}

/// A process line is laid out in columns: the pid right-aligned in six,
/// the name left-aligned in twenty-five, the load right-aligned in five and
/// the memory right-aligned in five, each field growing when its text is
/// longer.
pub proof fn lemma_process_line_columns(p: ProcessInfo)
    ensures
        exists|f1: Seq<char>, f2: Seq<char>, f3: Seq<char>, f4: Seq<char>|
            {
                &&& p.rendered() == "  ["@ + f1 + "] "@ + f2 + " CPU:"@ + f3 + "%  MEM:"@ + f4
                    + "MB"@
                &&& is_right_aligned(f1, dec(p.pid as nat), 6)
                &&& is_left_aligned(f2, p.name@, 25)
                &&& is_right_aligned(f3, p.cpu.text@, 5)
                &&& is_right_aligned(f4, dec(p.memory_mb as nat), 5)
            },
{
    let f1 = pad_left(dec(p.pid as nat), 6);
    let f2 = pad_right(p.name@, 25);
    let f3 = pad_left(p.cpu.text@, 5);
    let f4 = pad_left(dec(p.memory_mb as nat), 5);
    lemma_padding_aligns(dec(p.pid as nat), 6);
    lemma_padding_aligns(p.name@, 25);
    lemma_padding_aligns(p.cpu.text@, 5);
    lemma_padding_aligns(dec(p.memory_mb as nat), 5);
    assert(p.rendered() == "  ["@ + f1 + "] "@ + f2 + " CPU:"@ + f3 + "%  MEM:"@ + f4 + "MB"@);
}

} // verus!
