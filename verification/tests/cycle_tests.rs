use cpu_usage_logger::cycle::{evaluate_cycle, evaluate_cycle_now, Config};
use cpu_usage_logger::logfmt::render_log_entry;
use cpu_usage_logger::stats::ProcessStats;
use cpu_usage_logger::table::format_stats;

fn sample(pid: u64, name: &str, usage_centi: u32) -> ProcessStats {
    ProcessStats::new(pid, String::from(name), usage_centi)
}

fn config(total_centi: u64, process_centi: u32, cli: bool, log_file: Option<&str>) -> Config {
    Config {
        time_between_measurements: 5,
        measurement_time: 1,
        total_log_threshold_centi: total_centi,
        process_log_threshold_centi: process_centi,
        number_of_processes_to_show: 5,
        cli,
        log_file: log_file.map(String::from),
    }
}

#[test]
fn log_entry_prefixes_every_line_and_adds_a_blank_one() {
    let entry = render_log_entry("2023-03-08T21:19:47.101382300+01:00", "first\nsecond");
    assert_eq!(
        entry,
        "2023-03-08T21:19:47.101382300+01:00 | first\n\
2023-03-08T21:19:47.101382300+01:00 | second\n\
2023-03-08T21:19:47.101382300+01:00 | \n"
    );
}

#[test]
fn log_entry_of_one_line() {
    let entry = render_log_entry("T", "message");
    assert_eq!(entry, "T | message\nT | \n");
}

#[test]
fn quiet_cycle_produces_no_alerts_and_no_log_entries() {
    // Total below both thresholds and every process below the
    // per-process threshold: nothing to report, but the console still
    // shows the plain table.
    let cfg = config(3000, 1500, true, Some("usage.log"));
    let samples = vec![sample(1, "calm", 700), sample(2, "idle", 100)];
    let out = evaluate_cycle(&cfg, samples, "T");
    assert!(out.total_alert.is_none());
    assert!(out.process_alert.is_none());
    assert!(out.log_entries.is_empty());
    let screen = out.console_text.unwrap();
    assert_eq!(screen, format!("{}\n", out.table));
}

#[test]
fn disabled_log_path_produces_no_log_entries() {
    // Both thresholds are breached, but without a configured path
    // nothing is handed to the log file.
    let cfg = config(3000, 1500, false, None);
    let samples = vec![sample(1, "hog", 9000)];
    let out = evaluate_cycle(&cfg, samples, "T");
    assert!(out.total_alert.is_some());
    assert!(out.process_alert.is_some());
    assert!(out.log_entries.is_empty());
    assert!(out.console_text.is_none());
}

#[test]
fn breaching_cycle_logs_both_entries_in_order() {
    let cfg = config(3000, 1500, false, Some("usage.log"));
    let samples = vec![sample(1, "hog", 9000), sample(2, "idle", 100)];
    let out = evaluate_cycle(&cfg, samples, "T");
    assert_eq!(out.log_entries.len(), 2);

    let expected_table = format_stats(&out.processes, 9100, 5, "T");
    let expected_total_message = format!(
        "Total CPU usage threshold of 30.00% exceeded -> 91.00%\n{}",
        expected_table
    );
    assert_eq!(
        out.log_entries[0],
        render_log_entry("T", &expected_total_message)
    );
    assert_eq!(
        out.log_entries[1],
        render_log_entry(
            "T",
            "Single process CPU usage threshold of 15.00% exceeded -> [Pid: 1] Name: 'hog' Usage: 90.00%"
        )
    );
}

#[test]
fn console_shows_table_and_alerts_separated_by_blank_lines() {
    let cfg = config(3000, 1500, true, None);
    let samples = vec![sample(1, "hog", 9000)];
    let out = evaluate_cycle(&cfg, samples, "T");
    let screen = out.console_text.unwrap();
    let total_msg = out.total_alert.unwrap();
    let process_msg = out.process_alert.unwrap();
    assert_eq!(
        screen,
        format!("{}\n\n{}\n\n{}\n", out.table, total_msg, process_msg)
    );
}

#[test]
fn clock_cycle_reports_the_same_decisions() {
    let cfg = config(3000, 1500, false, None);
    let samples = vec![sample(1, "hog", 9000), sample(2, "idle", 100)];
    let out = evaluate_cycle_now(&cfg, samples);
    assert_eq!(out.total_usage_centi, 9100);
    assert!(out.total_alert.is_some());
    assert!(out.process_alert.is_some());
    assert!(out.log_entries.is_empty());
}

#[test]
fn total_breach_alone_logs_a_single_entry() {
    // Many small processes can breach the total threshold while no
    // single process breaches its own.
    let cfg = config(3000, 1500, false, Some("usage.log"));
    let samples = vec![
        sample(1, "a", 1400),
        sample(2, "b", 1400),
        sample(3, "c", 1400),
    ];
    let out = evaluate_cycle(&cfg, samples, "T");
    assert!(out.total_alert.is_some());
    assert!(out.process_alert.is_none());
    assert_eq!(out.log_entries.len(), 1);
}

#[test]
fn process_breach_alone_logs_a_single_entry() {
    let cfg = config(5000, 1500, false, Some("usage.log"));
    let samples = vec![sample(1, "hog", 2000)];
    let out = evaluate_cycle(&cfg, samples, "T");
    assert!(out.total_alert.is_none());
    assert!(out.process_alert.is_some());
    assert_eq!(out.log_entries.len(), 1);
    assert_eq!(
        out.log_entries[0],
        "T | Single process CPU usage threshold of 15.00% exceeded -> [Pid: 1] Name: 'hog' Usage: 20.00%\nT | \n"
    );
}
