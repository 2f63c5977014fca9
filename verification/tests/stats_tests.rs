use cpu_usage_logger::cycle::{evaluate_cycle, Config};
use cpu_usage_logger::stats::{sort_by_usage_desc, total_cpu_usage, ProcessStats};

fn sample(pid: u64, name: &str, usage_centi: u32) -> ProcessStats {
    ProcessStats::new(pid, String::from(name), usage_centi)
}

fn config_with(total_centi: u64, process_centi: u32, shown: usize) -> Config {
    Config {
        time_between_measurements: 5,
        measurement_time: 1,
        total_log_threshold_centi: total_centi,
        process_log_threshold_centi: process_centi,
        number_of_processes_to_show: shown,
        cli: false,
        log_file: None,
    }
}

#[test]
fn sort_is_non_increasing() {
    let mut procs = vec![
        sample(1, "a", 500),
        sample(2, "b", 4200),
        sample(3, "c", 0),
        sample(4, "d", 4200),
        sample(5, "e", 1300),
    ];
    sort_by_usage_desc(&mut procs);
    for w in procs.windows(2) {
        assert!(w[0].usage_centi >= w[1].usage_centi);
    }
}

#[test]
fn sort_is_a_permutation() {
    let mut procs = vec![
        sample(10, "x", 77),
        sample(11, "y", 2),
        sample(12, "z", 77),
        sample(13, "w", 900),
    ];
    sort_by_usage_desc(&mut procs);
    assert_eq!(procs.len(), 4);
    let mut pids: Vec<u64> = procs.iter().map(|p| p.pid).collect();
    pids.sort();
    assert_eq!(pids, vec![10, 11, 12, 13]);
}

#[test]
fn sort_keeps_ties_in_input_order() {
    let mut procs = vec![
        sample(1, "first", 100),
        sample(2, "second", 100),
        sample(3, "third", 100),
    ];
    sort_by_usage_desc(&mut procs);
    let pids: Vec<u64> = procs.iter().map(|p| p.pid).collect();
    assert_eq!(pids, vec![1, 2, 3]);
}

#[test]
fn sort_of_empty_list_is_empty() {
    let mut procs: Vec<ProcessStats> = Vec::new();
    sort_by_usage_desc(&mut procs);
    assert!(procs.is_empty());
}

#[test]
fn total_is_exact_sum() {
    let procs = vec![sample(1, "a", 1234), sample(2, "b", 500), sample(3, "c", 0)];
    assert_eq!(total_cpu_usage(&procs), 1734);
}

#[test]
fn total_of_no_processes_is_zero() {
    let procs: Vec<ProcessStats> = Vec::new();
    assert_eq!(total_cpu_usage(&procs), 0);
}

#[test]
fn cycle_total_matches_sample_sum() {
    let config = config_with(100_000, 100_000, 5);
    let samples = vec![sample(1, "a", 9000), sample(2, "b", 150), sample(3, "c", 2)];
    let out = evaluate_cycle(&config, samples, "T");
    assert_eq!(out.total_usage_centi, 9152);
    assert_eq!(out.processes.len(), 3);
    assert!(out.processes[0].usage_centi >= out.processes[1].usage_centi);
    assert!(out.processes[1].usage_centi >= out.processes[2].usage_centi);
}
