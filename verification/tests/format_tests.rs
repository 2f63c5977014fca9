use cpu_usage_logger::numfmt::{format_percent, u64_to_string};
use cpu_usage_logger::stats::ProcessStats;
use cpu_usage_logger::table::format_stats;

fn sample(pid: u64, name: &str, usage_centi: u32) -> ProcessStats {
    ProcessStats::new(pid, String::from(name), usage_centi)
}

#[test]
fn decimal_rendering() {
    assert_eq!(u64_to_string(0), "0");
    assert_eq!(u64_to_string(7), "7");
    assert_eq!(u64_to_string(10), "10");
    assert_eq!(u64_to_string(90218), "90218");
    assert_eq!(u64_to_string(u64::MAX), "18446744073709551615");
}

#[test]
fn percent_rendering_has_two_decimal_places() {
    assert_eq!(format_percent(1234), "12.34");
    assert_eq!(format_percent(500), "5.00");
    assert_eq!(format_percent(0), "0.00");
    assert_eq!(format_percent(9), "0.09");
    assert_eq!(format_percent(90), "0.90");
    assert_eq!(format_percent(10001), "100.01");
}

#[test]
fn table_layout_for_two_processes() {
    let procs = vec![sample(100, "alpha", 1234), sample(200, "beta", 500)];
    let table = format_stats(&procs, 1734, 2, "2023-03-08T21:19:47.101382300+01:00");
    let expected = "-----------------------------------CPU usage------------------------------------\n\
|                                   17.34 %                                    |\n\
|                     2023-03-08T21:19:47.101382300+01:00                      |\n\
--------------------------------------------------------------------------------\n\
| PID        | Name                                               | Usage      |\n\
|------------|----------------------------------------------------|------------|\n\
| 100        | alpha                                              | 12.34 %    |\n\
| 200        | beta                                               | 5.00 %     |\n\
--------------------------------------------------------------------------------";
    assert_eq!(table, expected);
}

#[test]
fn table_shows_at_most_the_requested_rows() {
    let procs = vec![
        sample(1, "a", 300),
        sample(2, "b", 200),
        sample(3, "c", 100),
    ];
    let table = format_stats(&procs, 600, 2, "T");
    assert!(table.contains("| 1          | a"));
    assert!(table.contains("| 2          | b"));
    assert!(!table.contains("| 3          | c"));
}

#[test]
fn table_with_no_rows_keeps_the_frame() {
    let procs: Vec<ProcessStats> = Vec::new();
    let table = format_stats(&procs, 0, 5, "T");
    let lines: Vec<&str> = table.split('\n').collect();
    assert_eq!(lines.len(), 8);
    assert_eq!(lines[6], "");
    assert_eq!(lines[7], "-".repeat(80));
}

#[test]
fn long_names_widen_the_row_without_truncation() {
    let long_name = "a".repeat(60);
    let procs = vec![sample(5, &long_name, 100)];
    let table = format_stats(&procs, 100, 1, "T");
    assert!(table.contains(&long_name));
}

#[test]
fn table_with_zero_requested_rows_keeps_the_frame() {
    let procs = vec![sample(1, "a", 100)];
    let table = format_stats(&procs, 100, 0, "T");
    assert!(!table.contains("| 1 "));
    assert_eq!(table.lines().count(), 8);
}
