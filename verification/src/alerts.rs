//! Alert thresholds: a CPU load above 70 % warns and above 85 % is
//! critical; memory in use above 75 % of the total warns and above 90 % is
//! critical. The thresholds compare the floating-point readings exactly,
//! through their encodings (see `float`).
use vstd::prelude::*;
use crate::float::{f32_above, f64_above};
use crate::model::{AlertStatus, Load, MemoryShare};

verus! {

/// Encoding of `85.0f32`.
pub open spec fn cpu_critical_bound() -> u32 {
    0x42aa_0000
}

/// Encoding of `70.0f32`.
pub open spec fn cpu_warning_bound() -> u32 {
    0x428c_0000
}

/// Encoding of `90.0f64`.
pub open spec fn memory_critical_bound() -> u64 {
    0x4056_8000_0000_0000
}

/// Encoding of `75.0f64`.
pub open spec fn memory_warning_bound() -> u64 {
    0x4052_c000_0000_0000
}

/// CPU load above 85 %.
pub open spec fn cpu_is_critical(load: u32) -> bool {
    f32_above(load, cpu_critical_bound())
}

/// CPU load above 70 % and at most 85 %.
pub open spec fn cpu_is_warning(load: u32) -> bool {
    f32_above(load, cpu_warning_bound()) && !f32_above(load, cpu_critical_bound())
}

/// Memory in use above 90 % of the total.
pub open spec fn memory_is_critical(share: u64) -> bool {
    f64_above(share, memory_critical_bound())
}

/// Memory in use above 75 % and at most 90 % of the total.
pub open spec fn memory_is_warning(share: u64) -> bool {
    f64_above(share, memory_warning_bound()) && !f64_above(share, memory_critical_bound())
}

/// The alert messages, CPU first, then memory, each with the reading as
/// written with one decimal.
pub open spec fn alert_messages(cpu: Load, share: MemoryShare) -> Seq<Seq<char>> {
    let cpu_part: Seq<Seq<char>> = if cpu_is_critical(cpu.bits) {
        seq!["CPU CRITIQUE: "@ + cpu.text@ + "%"@]
    } else if cpu_is_warning(cpu.bits) {
        seq!["CPU ÉLEVÉ: "@ + cpu.text@ + "%"@]
    } else {
        Seq::empty()
    };
    let mem_part: Seq<Seq<char>> = if memory_is_critical(share.bits) {
        seq!["RAM CRITIQUE: "@ + share.text@ + "%"@]
    } else if memory_is_warning(share.bits) {
        seq!["RAM ÉLEVÉE: "@ + share.text@ + "%"@]
    } else {
        Seq::empty()
    };
    cpu_part + mem_part
}

/// The views of a list of strings.
pub open spec fn views(v: Seq<String>) -> Seq<Seq<char>> {
    Seq::new(v.len(), |i: int| v[i]@)
}

/// Whether `a` is what the thresholds give for these readings.
pub open spec fn alerts_for(a: AlertStatus, cpu: Load, share: MemoryShare) -> bool {
    &&& a.cpu_critical == cpu_is_critical(cpu.bits)
    &&& a.cpu_warning == cpu_is_warning(cpu.bits)
    &&& a.memory_critical == memory_is_critical(share.bits)
    &&& a.memory_warning == memory_is_warning(share.bits)
    &&& views(a.alerts@) == alert_messages(cpu, share)
}

/// A message made of a prefix, a reading and a percent sign.
fn message(prefix: &str, reading: &str) -> (m: String)
    ensures
        m@ == prefix@ + reading@ + "%"@,
{
    let mut m = String::new();
    m.append(prefix);
    m.append(reading);
    m.append("%");
    m
}

/// The alert levels and messages for a CPU load and a share of memory in
/// use.
pub fn check_alerts(cpu_usage: &Load, mem_percent: &MemoryShare) -> (a: AlertStatus)
    ensures
        alerts_for(a, *cpu_usage, *mem_percent),
{
    let cpu_critical = 0x42aa_0000 < cpu_usage.bits && cpu_usage.bits <= 0x7f80_0000;
    let cpu_warning = 0x428c_0000 < cpu_usage.bits && cpu_usage.bits <= 0x42aa_0000;
    let memory_critical = 0x4056_8000_0000_0000 < mem_percent.bits && mem_percent.bits
        <= 0x7ff0_0000_0000_0000;
    let memory_warning = 0x4052_c000_0000_0000 < mem_percent.bits && mem_percent.bits
        <= 0x4056_8000_0000_0000;
    let mut alerts: Vec<String> = Vec::new();
    if cpu_critical {
        alerts.push(message("CPU CRITIQUE: ", cpu_usage.text.as_str()));
    } else if cpu_warning {
        alerts.push(message("CPU ÉLEVÉ: ", cpu_usage.text.as_str()));
    }
    if memory_critical {
        alerts.push(message("RAM CRITIQUE: ", mem_percent.text.as_str()));
    } else if memory_warning {
        alerts.push(message("RAM ÉLEVÉE: ", mem_percent.text.as_str()));
    }
    let a = AlertStatus { cpu_critical, cpu_warning, memory_critical, memory_warning, alerts };
    assert(views(a.alerts@) =~= alert_messages(*cpu_usage, *mem_percent));
    a
}

/// A load is never both critical and a mere warning, for CPU as for memory;
/// the alert list holds at most one message for each, and none exactly when
/// no level is reached.
pub proof fn lemma_alert_levels_exclusive(cpu: Load, share: MemoryShare)
    ensures
        !(cpu_is_critical(cpu.bits) && cpu_is_warning(cpu.bits)),
        !(memory_is_critical(share.bits) && memory_is_warning(share.bits)),
        alert_messages(cpu, share).len() <= 2,
        alert_messages(cpu, share).len() == 0 <==> (!cpu_is_critical(cpu.bits) && !cpu_is_warning(
            cpu.bits,
        ) && !memory_is_critical(share.bits) && !memory_is_warning(share.bits)),
{
}

/// The levels are monotone: a higher CPU load never lowers the level from
/// critical or from warning to nothing (NaN aside), and likewise for a
/// higher share of memory.
pub proof fn lemma_levels_monotone(c1: u32, c2: u32, m1: u64, m2: u64)
    requires
        c1 <= c2 <= crate::float::f32_infinity(),
        m1 <= m2 <= crate::float::f64_infinity(),
    ensures
        cpu_is_critical(c1) ==> cpu_is_critical(c2),
        cpu_is_warning(c1) ==> cpu_is_warning(c2) || cpu_is_critical(c2),
        memory_is_critical(m1) ==> memory_is_critical(m2),
        memory_is_warning(m1) ==> memory_is_warning(m2) || memory_is_critical(m2),
{
}

/// There is one message for the CPU exactly when its load is critical or a
/// warning, and it comes first; one for the memory exactly when its share
/// is critical or a warning, and it comes last. Each message names its
/// level and its reading, and depends on its own reading alone: the CPU
/// message is the same whatever the memory, and the memory message the
/// same whatever the CPU.
pub proof fn lemma_alert_messages(cpu: Load, share: MemoryShare, cpu2: Load, share2: MemoryShare)
    ensures
        alert_messages(cpu, share).len() == (if cpu_is_critical(cpu.bits) || cpu_is_warning(
            cpu.bits,
        ) {
            1int
        } else {
            0int
        }) + (if memory_is_critical(share.bits) || memory_is_warning(share.bits) {
            1int
        } else {
            0int
        }),
        cpu_is_critical(cpu.bits) ==> alert_messages(cpu, share)[0] == "CPU CRITIQUE: "@
            + cpu.text@ + "%"@,
        cpu_is_warning(cpu.bits) ==> alert_messages(cpu, share)[0] == "CPU ÉLEVÉ: "@ + cpu.text@
            + "%"@,
        memory_is_critical(share.bits) ==> alert_messages(cpu, share).last() == "RAM CRITIQUE: "@
            + share.text@ + "%"@,
        memory_is_warning(share.bits) ==> alert_messages(cpu, share).last() == "RAM ÉLEVÉE: "@
            + share.text@ + "%"@,
        cpu_is_critical(cpu.bits) || cpu_is_warning(cpu.bits) ==> alert_messages(cpu, share)[0]
            == alert_messages(cpu, share2)[0],
        memory_is_critical(share.bits) || memory_is_warning(share.bits) ==> alert_messages(
            cpu,
            share,
        ).last() == alert_messages(cpu2, share).last(),
{
}

} // verus!
