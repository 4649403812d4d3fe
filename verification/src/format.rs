//! Rendering of the four-line report and its diagnostics.
//!
//! The report always holds exactly four lines, in fixed order: OS, CPU,
//! load averages, memory.  Each line is derived independently, so one
//! unavailable metric never blocks the others.  A failing structured probe
//! contributes one diagnostic line, placed directly before its report line.

use vstd::prelude::*;
use crate::decimal::decimal_digits;
use crate::decimal::scaled_centi;
use crate::decimal::two_decimals;
use crate::decimal::scale_to_centi;
use crate::decimal::u64_to_decimal;
use crate::decimal::centi_to_decimal;
use crate::decimal::KB_PER_MB;
use crate::decimal::KB_PER_GB;
use crate::normalize::ProbeError;
use crate::normalize::scalar_text;
use crate::normalize::number_text;
use crate::normalize::unknown_text;
use crate::normalize::normalize_scalar_text;
use crate::normalize::normalize_scalar_number;
use crate::normalize::normalize_structured;
use crate::units::UnitSelection;

verus! {

/// The load averages of one probe, each figure already in its textual
/// decimal form, captured at the boundary where the probe was made.
/// The three figures are present or absent as one unit.
pub struct LoadAverageText {
    pub one: String,
    pub five: String,
    pub fifteen: String,
}

/// One memory snapshot, every figure in kilobytes, as the probe reports
/// it.  The five figures are present or absent as one unit.
#[derive(Clone, Copy, PartialEq, Eq, Structural, Debug)]
pub struct MemoryStats {
    pub total: u64,
    pub free: u64,
    pub avail: u64,
    pub buffers: u64,
    pub cached: u64,
}

/// The OS line: both fields normalized independently.
pub open spec fn os_line(os_type: Seq<char>, os_release: Seq<char>) -> Seq<char> {
    "OS: "@ + os_type + " "@ + os_release
}

/// The CPU line: core count and clock speed normalized independently.
pub open spec fn cpu_line(cores: Seq<char>, speed: Seq<char>) -> Seq<char> {
    "CPU: "@ + cores + " Cores, "@ + speed + " MHz"@
}

/// The load-average line: the three figures when present, `unknown` when
/// the probe failed.
pub open spec fn load_line(load: Option<LoadAverageText>) -> Seq<char> {
    match load {
        Some(l) => "Load Avg: "@ + l.one@ + " "@ + l.five@ + " "@ + l.fifteen@,
        None => "Load Avg: "@ + unknown_text(),
    }
}

/// One memory figure in the selected unit: the raw kilobyte integer, or
/// the figure scaled to megabytes or gigabytes with two decimal places.
pub open spec fn quantity_text(v: int, unit: UnitSelection) -> Seq<char> {
    match unit {
        UnitSelection::Kilobytes => decimal_digits(v),
        UnitSelection::Megabytes => two_decimals(scaled_centi(v, KB_PER_MB as int)),
        UnitSelection::Gigabytes => two_decimals(scaled_centi(v, KB_PER_GB as int)),
    }
}

/// The label appended to each memory figure.
pub open spec fn unit_label(unit: UnitSelection) -> Seq<char> {
    match unit {
        UnitSelection::Kilobytes => " KB"@,
        UnitSelection::Megabytes => " MB"@,
        UnitSelection::Gigabytes => " GB"@,
    }
}

/// The memory line: five labelled figures when present, `unknown` when the
/// probe failed.
pub open spec fn mem_line(mem: Option<MemoryStats>, unit: UnitSelection) -> Seq<char> {
    match mem {
        Some(m) => "Mem: total "@ + quantity_text(m.total as int, unit) + unit_label(unit)
            + ", free "@ + quantity_text(m.free as int, unit) + unit_label(unit) + ", avail "@
            + quantity_text(m.avail as int, unit) + unit_label(unit) + ", buffers "@
            + quantity_text(m.buffers as int, unit) + unit_label(unit) + ", cached "@
            + quantity_text(m.cached as int, unit) + unit_label(unit),
        None => "Mem: "@ + unknown_text(),
    }
}

/// Everything one invocation writes to the console, in order: the OS and
/// CPU lines, one diagnostic for a failed load-average probe, the
/// load-average line, one diagnostic for a failed memory probe, and the
/// memory line.  Each failing structured probe contributes exactly one
/// diagnostic, directly before its own report line.
pub open spec fn console_output(
    os_type: Result<String, ProbeError>,
    os_release: Result<String, ProbeError>,
    cpu_count: Result<u64, ProbeError>,
    cpu_speed: Result<u64, ProbeError>,
    load: Result<LoadAverageText, ProbeError>,
    mem: Result<MemoryStats, ProbeError>,
    unit: UnitSelection,
) -> Seq<Seq<char>> {
    seq![
        os_line(scalar_text(os_type), scalar_text(os_release)),
        cpu_line(number_text(cpu_count), number_text(cpu_speed)),
    ] + (match load {
        Ok(_) => Seq::<Seq<char>>::empty(),
        Err(e) => seq![e.detail@],
    }) + seq![load_line(load_ok(load))] + (match mem {
        Ok(_) => Seq::<Seq<char>>::empty(),
        Err(e) => seq![e.detail@],
    }) + seq![mem_line(mem_ok(mem), unit)]
}

pub open spec fn load_ok(load: Result<LoadAverageText, ProbeError>) -> Option<LoadAverageText> {
    match load {
        Ok(l) => Some(l),
        Err(_) => None,
    }
}

pub open spec fn mem_ok(mem: Result<MemoryStats, ProbeError>) -> Option<MemoryStats> {
    match mem {
        Ok(m) => Some(m),
        Err(_) => None,
    }
}

/// Renders the OS line from the two normalized fields.
pub fn format_os_line(os_type: &String, os_release: &String) -> (s: String)
    ensures
        s@ == os_line(os_type@, os_release@),
{
    let mut s = String::from_str("OS: ");
    s.append(os_type.as_str());
    s.append(" ");
    s.append(os_release.as_str());
    s
}

/// Renders the CPU line from the two normalized fields.
pub fn format_cpu_line(cores: &String, speed: &String) -> (s: String)
    ensures
        s@ == cpu_line(cores@, speed@),
{
    let mut s = String::from_str("CPU: ");
    s.append(cores.as_str());
    s.append(" Cores, ");
    s.append(speed.as_str());
    s.append(" MHz");
    s
}

/// Renders the load-average line.
pub fn format_load_line(load: &Option<LoadAverageText>) -> (s: String)
    ensures
        s@ == load_line(*load),
{
    match load {
        Some(l) => {
            let mut s = String::from_str("Load Avg: ");
            s.append(l.one.as_str());
            s.append(" ");
            s.append(l.five.as_str());
            s.append(" ");
            s.append(l.fifteen.as_str());
            s
        },
        None => {
            let mut s = String::from_str("Load Avg: ");
            s.append("unknown");
            s
        },
    }
}

/// Renders one memory figure in the selected unit.
pub fn format_quantity(v: u64, unit: UnitSelection) -> (s: String)
    ensures
        s@ == quantity_text(v as int, unit),
{
    match unit {
        UnitSelection::Kilobytes => u64_to_decimal(v),
        UnitSelection::Megabytes => centi_to_decimal(scale_to_centi(v, KB_PER_MB)),
        UnitSelection::Gigabytes => centi_to_decimal(scale_to_centi(v, KB_PER_GB)),
    }
}

fn unit_label_str(unit: UnitSelection) -> (s: &'static str)
    ensures
        s@ == unit_label(unit),
{
    match unit {
        UnitSelection::Kilobytes => " KB",
        UnitSelection::Megabytes => " MB",
        UnitSelection::Gigabytes => " GB",
    }
}

/// Renders the memory line in the selected unit.
pub fn format_mem_line(mem: Option<MemoryStats>, unit: UnitSelection) -> (s: String)
    ensures
        s@ == mem_line(mem, unit),
{
    match mem {
        Some(m) => {
            let label = unit_label_str(unit);
            let mut s = String::from_str("Mem: total ");
            s.append(format_quantity(m.total, unit).as_str());
            s.append(label);
            s.append(", free ");
            s.append(format_quantity(m.free, unit).as_str());
            s.append(label);
            s.append(", avail ");
            s.append(format_quantity(m.avail, unit).as_str());
            s.append(label);
            s.append(", buffers ");
            s.append(format_quantity(m.buffers, unit).as_str());
            s.append(label);
            s.append(", cached ");
            s.append(format_quantity(m.cached, unit).as_str());
            s.append(label);
            s
        },
        None => {
            let mut s = String::from_str("Mem: ");
            s.append("unknown");
            s
        },
    }
}

/// Renders everything one invocation writes to the console, in order.
/// Failure of any probe never stops the rendering of the other lines.
pub fn render_console_lines(
    os_type: Result<String, ProbeError>,
    os_release: Result<String, ProbeError>,
    cpu_count: Result<u64, ProbeError>,
    cpu_speed: Result<u64, ProbeError>,
    load: Result<LoadAverageText, ProbeError>,
    mem: Result<MemoryStats, ProbeError>,
    unit: UnitSelection,
) -> (lines: Vec<String>)
    ensures
        lines.deep_view() == console_output(
            os_type,
            os_release,
            cpu_count,
            cpu_speed,
            load,
            mem,
            unit,
        ),
{
    let ghost expected = console_output(os_type, os_release, cpu_count, cpu_speed, load, mem, unit);
    let mut lines: Vec<String> = Vec::new();
    let ot = normalize_scalar_text(os_type);
    let orel = normalize_scalar_text(os_release);
    lines.push(format_os_line(&ot, &orel));
    let cores = normalize_scalar_number(cpu_count);
    let speed = normalize_scalar_number(cpu_speed);
    lines.push(format_cpu_line(&cores, &speed));
    let (load_opt, load_diag) = normalize_structured(load);
    match load_diag {
        Some(d) => lines.push(d),
        None => (),
    }
    lines.push(format_load_line(&load_opt));
    let (mem_opt, mem_diag) = normalize_structured(mem);
    match mem_diag {
        Some(d) => lines.push(d),
        None => (),
    }
    lines.push(format_mem_line(mem_opt, unit));
    proof {
        assert(lines.deep_view() =~= expected);
    }
    lines
}

/// A failing scalar probe reads `"unknown"` in its report field, whether
/// the metric is textual or numeric.
pub proof fn lemma_failed_scalar_is_unknown(t: Result<String, ProbeError>, n: Result<u64, ProbeError>)
    requires
        t is Err,
        n is Err,
    ensures
        scalar_text(t) == unknown_text(),
        number_text(n) == unknown_text(),
{
}

/// When a structured probe fails, its whole report line reads
/// `"<Label>: unknown"`.
pub proof fn lemma_absent_lines_read_unknown(unit: UnitSelection)
    ensures
        load_line(None) =~= "Load Avg: unknown"@,
        mem_line(None, unit) =~= "Mem: unknown"@,
{
    reveal_strlit("Load Avg: ");
    reveal_strlit("unknown");
    reveal_strlit("Load Avg: unknown");
    reveal_strlit("Mem: ");
    reveal_strlit("Mem: unknown");
}

/// No failure halts rendering: the console output always holds the four
/// report lines in fixed order, and each failing structured probe
/// contributes exactly one diagnostic line, directly before its own report
/// line.  Scalar failures contribute none.
pub proof fn lemma_console_output_shape(
    os_type: Result<String, ProbeError>,
    os_release: Result<String, ProbeError>,
    cpu_count: Result<u64, ProbeError>,
    cpu_speed: Result<u64, ProbeError>,
    load: Result<LoadAverageText, ProbeError>,
    mem: Result<MemoryStats, ProbeError>,
    unit: UnitSelection,
)
    ensures
        ({
            let out = console_output(os_type, os_release, cpu_count, cpu_speed, load, mem, unit);
            let li: int = if load is Err {
                3
            } else {
                2
            };
            let mi: int = if mem is Err {
                li + 2
            } else {
                li + 1
            };
            &&& out.len() == mi + 1
            &&& out[0] == os_line(scalar_text(os_type), scalar_text(os_release))
            &&& out[1] == cpu_line(number_text(cpu_count), number_text(cpu_speed))
            &&& (load matches Err(e) ==> out[li - 1] == e.detail@)
            &&& out[li] == load_line(load_ok(load))
            &&& (mem matches Err(e) ==> out[mi - 1] == e.detail@)
            &&& out[mi] == mem_line(mem_ok(mem), unit)
        }),
{
    let out = console_output(os_type, os_release, cpu_count, cpu_speed, load, mem, unit);
    match (load, mem) {
        (Ok(_), Ok(_)) => {
            assert(out =~= seq![
                os_line(scalar_text(os_type), scalar_text(os_release)),
                cpu_line(number_text(cpu_count), number_text(cpu_speed)),
                load_line(load_ok(load)),
                mem_line(mem_ok(mem), unit),
            ]);
        },
        (Ok(_), Err(me)) => {
            assert(out =~= seq![
                os_line(scalar_text(os_type), scalar_text(os_release)),
                cpu_line(number_text(cpu_count), number_text(cpu_speed)),
                load_line(load_ok(load)),
                me.detail@,
                mem_line(mem_ok(mem), unit),
            ]);
        },
        (Err(le), Ok(_)) => {
            assert(out =~= seq![
                os_line(scalar_text(os_type), scalar_text(os_release)),
                cpu_line(number_text(cpu_count), number_text(cpu_speed)),
                le.detail@,
                load_line(load_ok(load)),
                mem_line(mem_ok(mem), unit),
            ]);
        },
        (Err(le), Err(me)) => {
            assert(out =~= seq![
                os_line(scalar_text(os_type), scalar_text(os_release)),
                cpu_line(number_text(cpu_count), number_text(cpu_speed)),
                le.detail@,
                load_line(load_ok(load)),
                me.detail@,
                mem_line(mem_ok(mem), unit),
            ]);
        },
    }
}

/// Given identical probe outputs and the same unit, the rendered console
/// output — report lines and diagnostics alike — is byte-identical across
/// invocations.
pub proof fn lemma_output_idempotent(
    os_type: Result<String, ProbeError>,
    os_release: Result<String, ProbeError>,
    cpu_count: Result<u64, ProbeError>,
    cpu_speed: Result<u64, ProbeError>,
    load: Result<LoadAverageText, ProbeError>,
    mem: Result<MemoryStats, ProbeError>,
    unit: UnitSelection,
    out1: Seq<Seq<char>>,
    out2: Seq<Seq<char>>,
)
    requires
        out1 == console_output(os_type, os_release, cpu_count, cpu_speed, load, mem, unit),
        out2 == console_output(os_type, os_release, cpu_count, cpu_speed, load, mem, unit),
    ensures
        out1 == out2,
{
}

} // verus!
