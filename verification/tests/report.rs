use hostreport::decimal::u64_to_decimal;
use hostreport::format::format_cpu_line;
use hostreport::format::format_load_line;
use hostreport::format::format_mem_line;
use hostreport::format::format_os_line;
use hostreport::format::format_quantity;
use hostreport::format::render_console_lines;
use hostreport::format::LoadAverageText;
use hostreport::format::MemoryStats;
use hostreport::normalize::normalize_scalar_number;
use hostreport::normalize::normalize_scalar_text;
use hostreport::normalize::normalize_structured;
use hostreport::normalize::ProbeError;
use hostreport::units::select_unit;
use hostreport::units::UnitSelection;

fn probe_error(detail: &str) -> ProbeError {
    ProbeError { detail: String::from(detail) }
}

fn sample_mem() -> MemoryStats {
    MemoryStats { total: 2097152, free: 1048576, avail: 1572864, buffers: 65536, cached: 131072 }
}

fn args_of(words: &[&str]) -> Vec<String> {
    words.iter().map(|w| String::from(*w)).collect()
}

#[test]
fn unit_default_is_kilobytes() {
    assert_eq!(select_unit(&args_of(&[])), UnitSelection::Kilobytes);
    assert_eq!(select_unit(&args_of(&["hostreport"])), UnitSelection::Kilobytes);
}

#[test]
fn unit_mb_selected() {
    assert_eq!(select_unit(&args_of(&["hostreport", "mb"])), UnitSelection::Megabytes);
}

#[test]
fn unit_gb_selected() {
    assert_eq!(select_unit(&args_of(&["hostreport", "gb"])), UnitSelection::Gigabytes);
}

#[test]
fn unit_gb_takes_precedence_over_mb() {
    assert_eq!(select_unit(&args_of(&["mb", "gb"])), UnitSelection::Gigabytes);
    assert_eq!(select_unit(&args_of(&["gb", "mb"])), UnitSelection::Gigabytes);
    assert_eq!(select_unit(&args_of(&["x", "mb", "y", "gb", "z"])), UnitSelection::Gigabytes);
}

#[test]
fn unit_selection_is_case_insensitive() {
    assert_eq!(select_unit(&args_of(&["MB"])), UnitSelection::Megabytes);
    assert_eq!(select_unit(&args_of(&["Mb"])), UnitSelection::Megabytes);
    assert_eq!(select_unit(&args_of(&["mb"])), UnitSelection::Megabytes);
    assert_eq!(select_unit(&args_of(&["GB"])), UnitSelection::Gigabytes);
    assert_eq!(select_unit(&args_of(&["gB"])), UnitSelection::Gigabytes);
}

#[test]
fn unit_unrecognized_arguments_are_ignored() {
    assert_eq!(select_unit(&args_of(&["--verbose", "kb", "mbb", "g b"])), UnitSelection::Kilobytes);
}

#[test]
fn decimal_rendering_exact() {
    assert_eq!(u64_to_decimal(0), "0");
    assert_eq!(u64_to_decimal(7), "7");
    assert_eq!(u64_to_decimal(42), "42");
    assert_eq!(u64_to_decimal(3600), "3600");
    assert_eq!(u64_to_decimal(u64::MAX), "18446744073709551615");
}

#[test]
fn quantity_kilobytes_prints_raw_integers() {
    assert_eq!(format_quantity(2097152, UnitSelection::Kilobytes), "2097152");
    assert_eq!(format_quantity(0, UnitSelection::Kilobytes), "0");
}

#[test]
fn quantity_megabytes_two_decimals() {
    assert_eq!(format_quantity(2097152, UnitSelection::Megabytes), "2048.00");
    assert_eq!(format_quantity(1048576, UnitSelection::Megabytes), "1024.00");
    assert_eq!(format_quantity(1572864, UnitSelection::Megabytes), "1536.00");
    assert_eq!(format_quantity(65536, UnitSelection::Megabytes), "64.00");
    assert_eq!(format_quantity(131072, UnitSelection::Megabytes), "128.00");
}

#[test]
fn quantity_gigabytes_two_decimals() {
    assert_eq!(format_quantity(2097152, UnitSelection::Gigabytes), "2.00");
    assert_eq!(format_quantity(1048576, UnitSelection::Gigabytes), "1.00");
    assert_eq!(format_quantity(1572864, UnitSelection::Gigabytes), "1.50");
    assert_eq!(format_quantity(65536, UnitSelection::Gigabytes), "0.06");
    assert_eq!(format_quantity(131072, UnitSelection::Gigabytes), "0.13");
}

#[test]
fn quantity_rounding_carries_into_whole_part() {
    assert_eq!(format_quantity(1023, UnitSelection::Megabytes), "1.00");
    assert_eq!(format_quantity(1029, UnitSelection::Megabytes), "1.00");
    assert_eq!(format_quantity(1048575, UnitSelection::Gigabytes), "1.00");
    assert_eq!(format_quantity(5, UnitSelection::Megabytes), "0.00");
}

#[test]
fn mem_line_kilobytes() {
    assert_eq!(
        format_mem_line(Some(sample_mem()), UnitSelection::Kilobytes),
        "Mem: total 2097152 KB, free 1048576 KB, avail 1572864 KB, buffers 65536 KB, cached 131072 KB"
    );
}

#[test]
fn mem_line_megabytes() {
    assert_eq!(
        format_mem_line(Some(sample_mem()), UnitSelection::Megabytes),
        "Mem: total 2048.00 MB, free 1024.00 MB, avail 1536.00 MB, buffers 64.00 MB, cached 128.00 MB"
    );
}

#[test]
fn mem_line_gigabytes() {
    assert_eq!(
        format_mem_line(Some(sample_mem()), UnitSelection::Gigabytes),
        "Mem: total 2.00 GB, free 1.00 GB, avail 1.50 GB, buffers 0.06 GB, cached 0.13 GB"
    );
}

#[test]
fn mem_line_absent_reads_unknown() {
    assert_eq!(format_mem_line(None, UnitSelection::Kilobytes), "Mem: unknown");
    assert_eq!(format_mem_line(None, UnitSelection::Megabytes), "Mem: unknown");
    assert_eq!(format_mem_line(None, UnitSelection::Gigabytes), "Mem: unknown");
}

#[test]
fn load_line_present() {
    let load = LoadAverageText {
        one: String::from("0.52"),
        five: String::from("0.58"),
        fifteen: String::from("0.59"),
    };
    assert_eq!(format_load_line(&Some(load)), "Load Avg: 0.52 0.58 0.59");
}

#[test]
fn load_line_absent_reads_unknown() {
    assert_eq!(format_load_line(&None), "Load Avg: unknown");
}

#[test]
fn failing_scalar_probe_reads_unknown() {
    assert_eq!(normalize_scalar_text(Err(probe_error("Unsupported system"))), "unknown");
    assert_eq!(normalize_scalar_number(Err(probe_error("IO(..)"))), "unknown");
    let os_type = normalize_scalar_text(Err(probe_error("Unsupported system")));
    let os_release = normalize_scalar_text(Ok(String::from("5.15.0")));
    assert_eq!(format_os_line(&os_type, &os_release), "OS: unknown 5.15.0");
    let cores = normalize_scalar_number(Err(probe_error("IO(..)")));
    let speed = normalize_scalar_number(Ok(3600));
    assert_eq!(format_cpu_line(&cores, &speed), "CPU: unknown Cores, 3600 MHz");
}

#[test]
fn scalar_normalization_passes_values_through() {
    assert_eq!(normalize_scalar_text(Ok(String::from("Linux"))), "Linux");
    assert_eq!(normalize_scalar_number(Ok(8)), "8");
}

#[test]
fn structured_normalization_keeps_record_or_yields_one_diagnostic() {
    let (present, none_diag) = normalize_structured(Ok(sample_mem()));
    assert_eq!(present, Some(sample_mem()));
    assert!(none_diag.is_none());
    let (absent, diag) = normalize_structured::<MemoryStats>(Err(probe_error("Unknown error")));
    assert!(absent.is_none());
    assert_eq!(diag, Some(String::from("Unknown error")));
}

#[test]
fn failing_structured_probe_emits_one_diagnostic_before_its_line() {
    let lines = render_console_lines(
        Ok(String::from("Linux")),
        Ok(String::from("5.15.0")),
        Ok(8),
        Ok(3600),
        Err(probe_error("Unsupported system")),
        Ok(sample_mem()),
        UnitSelection::Kilobytes,
    );
    assert_eq!(lines.len(), 5);
    assert_eq!(lines[2], "Unsupported system");
    assert_eq!(lines[3], "Load Avg: unknown");
    let diag_count = lines.iter().filter(|l| *l == "Unsupported system").count();
    assert_eq!(diag_count, 1);
}

#[test]
fn report_is_byte_identical_across_invocations() {
    let render = || {
        render_console_lines(
            Ok(String::from("Linux")),
            Err(probe_error("Unsupported system")),
            Ok(8),
            Err(probe_error("ExecFailed(\"cpu\")")),
            Err(probe_error("Unsupported system")),
            Ok(sample_mem()),
            UnitSelection::Megabytes,
        )
    };
    assert_eq!(render(), render());
}

#[test]
fn end_to_end_scenario() {
    let args: Vec<String> = Vec::new();
    let unit = select_unit(&args);
    assert_eq!(unit, UnitSelection::Kilobytes);
    let lines = render_console_lines(
        Ok(String::from("Linux")),
        Ok(String::from("5.15.0")),
        Ok(8),
        Ok(3600),
        Err(probe_error("Unsupported system")),
        Ok(sample_mem()),
        unit,
    );
    assert_eq!(lines.len(), 5);
    assert_eq!(lines[0], "OS: Linux 5.15.0");
    assert_eq!(lines[1], "CPU: 8 Cores, 3600 MHz");
    assert_eq!(lines[2], "Unsupported system");
    assert_eq!(lines[3], "Load Avg: unknown");
    assert_eq!(
        lines[4],
        "Mem: total 2097152 KB, free 1048576 KB, avail 1572864 KB, buffers 65536 KB, cached 131072 KB"
    );
}
