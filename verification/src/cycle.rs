//! One measurement cycle end to end: ranking, thresholds, reporting.

use vstd::prelude::*;
use vstd::string::StringExecFns;

use crate::alerts::{
    alert_count, process_alert_lines, process_alerts, total_alert, total_alert_str,
};
use crate::logfmt::{log_entry_str, render_log_entry};
use crate::stats::{
    sort_by_usage_desc, sorted_desc, stable_sort_desc, total_cpu_usage, usage_sum, ProcessStats,
};
use crate::table::{format_stats, table_str};

verus! {

/// The parameters of one run, set once at startup and never changed.
/// The two thresholds are in hundredths of a percent; the sleep
/// durations are in seconds.
pub struct Config {
    pub time_between_measurements: u64,
    pub measurement_time: u64,
    pub total_log_threshold_centi: u64,
    pub process_log_threshold_centi: u32,
    pub number_of_processes_to_show: usize,
    pub cli: bool,
    pub log_file: Option<String>,
}

/// Everything one cycle hands the output sinks: the ranked process
/// list, the system-wide total, the rendered table, the two optional
/// alert messages, the texts to append to the log file (in order), and
/// the console screen to print.
pub struct CycleOutput {
    pub processes: Vec<ProcessStats>,
    pub total_usage_centi: u64,
    pub table: String,
    pub total_alert: Option<String>,
    pub process_alert: Option<String>,
    pub log_entries: Vec<String>,
    pub console_text: Option<String>,
}

/// The system-wide alert, present exactly when the total reaches the
/// threshold.
pub open spec fn total_alert_opt(threshold_centi: nat, total_centi: nat) -> Option<Seq<char>> {
    if total_centi >= threshold_centi {
        Some(total_alert_str(threshold_centi, total_centi))
    } else {
        None
    }
}

/// The per-process alert, present exactly when the highest-ranked
/// process reaches the threshold.
pub open spec fn process_alert_opt(threshold_centi: u32, s: Seq<ProcessStats>) -> Option<
    Seq<char>,
> {
    if s.len() > 0 && s[0].usage_centi >= threshold_centi {
        Some(process_alert_lines(threshold_centi as nat, s.take(alert_count(s, threshold_centi))))
    } else {
        None
    }
}

/// What the console shows: the table, then each alert message set off
/// by a blank line.
pub open spec fn console_str(
    table: Seq<char>,
    total_msg: Option<Seq<char>>,
    process_msg: Option<Seq<char>>,
) -> Seq<char> {
    table + "\n"@ + (match total_msg {
        Some(m) => "\n"@ + m + "\n"@,
        None => Seq::empty(),
    }) + (match process_msg {
        Some(m) => "\n"@ + m + "\n"@,
        None => Seq::empty(),
    })
}

/// The texts appended to the log file in one cycle: nothing at all
/// without a configured path; else one entry for the system-wide alert
/// (the message and the table) and one for the per-process alert, each
/// only when its threshold was reached.
pub open spec fn log_entries_view(
    cfg: Config,
    s: Seq<ProcessStats>,
    total_centi: nat,
    ts: Seq<char>,
) -> Seq<Seq<char>> {
    if cfg.log_file is None {
        Seq::empty()
    } else {
        (if total_centi >= cfg.total_log_threshold_centi {
            seq![
                log_entry_str(
                    ts,
                    total_alert_str(cfg.total_log_threshold_centi as nat, total_centi) + "\n"@
                        + table_str(
                        s,
                        total_centi,
                        cfg.number_of_processes_to_show as int,
                        ts,
                    ),
                ),
            ]
        } else {
            Seq::empty()
        }) + (if s.len() > 0 && s[0].usage_centi >= cfg.process_log_threshold_centi {
            seq![
                log_entry_str(
                    ts,
                    process_alert_lines(
                        cfg.process_log_threshold_centi as nat,
                        s.take(alert_count(s, cfg.process_log_threshold_centi)),
                    ),
                ),
            ]
        } else {
            Seq::empty()
        })
    }
}

/// Evaluates one cycle's samples against the configuration, with the
/// given timestamp on the table and on every log line. The sorted
/// output is a permutation of the input; the total is the exact sum of
/// the samples' usages; both threshold checks are inclusive; without a
/// configured log path no log entry is produced; and a cycle that
/// breaches no threshold produces no alert and no log entry, while the
/// console (when enabled) still shows the plain table.
#[verifier::rlimit(100)]
pub fn evaluate_cycle(config: &Config, samples: Vec<ProcessStats>, timestamp: &str) -> (out:
    CycleOutput)
    requires
        samples@.len() <= u32::MAX,
    ensures
        sorted_desc(out.processes@),
        out.processes@.to_multiset() == samples@.to_multiset(),
        out.processes@ == stable_sort_desc(samples@),
        out.total_usage_centi == usage_sum(samples@),
        out.table@ == table_str(
            out.processes@,
            out.total_usage_centi as nat,
            config.number_of_processes_to_show as int,
            timestamp@,
        ),
        out.total_alert.deep_view() == total_alert_opt(
            config.total_log_threshold_centi as nat,
            out.total_usage_centi as nat,
        ),
        out.process_alert.deep_view() == process_alert_opt(
            config.process_log_threshold_centi,
            out.processes@,
        ),
        out.log_entries.deep_view() == log_entries_view(
            *config,
            out.processes@,
            out.total_usage_centi as nat,
            timestamp@,
        ),
        config.log_file is None ==> out.log_entries@.len() == 0,
        out.console_text is Some <==> config.cli,
        out.console_text.deep_view() == (if config.cli {
            Some(
                console_str(
                    out.table@,
                    out.total_alert.deep_view(),
                    out.process_alert.deep_view(),
                ),
            )
        } else {
            None::<Seq<char>>
        }),
        (out.total_usage_centi < config.total_log_threshold_centi && (out.processes@.len() == 0
            || out.processes@[0].usage_centi < config.process_log_threshold_centi)) ==> (
        out.total_alert is None && out.process_alert is None && out.log_entries@.len() == 0),
{
    let mut procs = samples;
    let total = total_cpu_usage(&procs);
    sort_by_usage_desc(&mut procs);
    let table = format_stats(&procs, total, config.number_of_processes_to_show, timestamp);

    let t_alert = total_alert(total, config.total_log_threshold_centi);
    let p_alert = process_alerts(&procs, config.process_log_threshold_centi);

    let mut log_entries: Vec<String> = Vec::new();
    if config.log_file.is_some() {
        if let Some(m) = &t_alert {
            let mut logged = m.clone();
            logged.append("\n");
            logged.append(table.as_str());
            log_entries.push(render_log_entry(timestamp, logged.as_str()));
        }
        if let Some(m) = &p_alert {
            log_entries.push(render_log_entry(timestamp, m.as_str()));
        }
    }
    proof {
        assert(log_entries.deep_view() =~= log_entries_view(
            *config,
            procs@,
            total as nat,
            timestamp@,
        ));
    }

    let console_text: Option<String> = if config.cli {
        let mut screen = table.clone();
        screen.append("\n");
        if let Some(m) = &t_alert {
            screen.append("\n");
            screen.append(m.as_str());
            screen.append("\n");
        }
        if let Some(m) = &p_alert {
            screen.append("\n");
            screen.append(m.as_str());
            screen.append("\n");
        }
        proof {
            assert(screen@ =~= console_str(table@, t_alert.deep_view(), p_alert.deep_view()));
        }
        Some(screen)
    } else {
        None
    };

    CycleOutput {
        processes: procs,
        total_usage_centi: total,
        table,
        total_alert: t_alert,
        process_alert: p_alert,
        log_entries,
        console_text,
    }
}

/// Relies on chrono's `Local::now` and `DateTime::format`: the current
/// local time rendered as an ISO-8601 timestamp with nanoseconds and
/// the local UTC offset, as in "2023-03-08T21:19:47.101382300+01:00".
/// The result depends on the wall clock, so nothing is promised of it.
#[verifier::external_body]
fn get_iso_time() -> (r: String) {
    format!("{}", chrono::Local::now().format("%Y-%m-%dT%H:%M:%S%.9f%:z"))
}

/// Evaluates one cycle against the wall clock: the table and the log
/// entries carry the current local time. Everything that does not
/// depend on the timestamp is promised here; the exact rendering is
/// the contract of `evaluate_cycle`.
pub fn evaluate_cycle_now(config: &Config, samples: Vec<ProcessStats>) -> (out: CycleOutput)
    requires
        samples@.len() <= u32::MAX,
    ensures
        sorted_desc(out.processes@),
        out.processes@.to_multiset() == samples@.to_multiset(),
        out.processes@ == stable_sort_desc(samples@),
        out.total_usage_centi == usage_sum(samples@),
        out.total_alert is Some <==> out.total_usage_centi >= config.total_log_threshold_centi,
        out.process_alert is Some <==> (out.processes@.len() > 0
            && out.processes@[0].usage_centi >= config.process_log_threshold_centi),
        out.total_alert.deep_view() == total_alert_opt(
            config.total_log_threshold_centi as nat,
            out.total_usage_centi as nat,
        ),
        out.process_alert.deep_view() == process_alert_opt(
            config.process_log_threshold_centi,
            out.processes@,
        ),
        config.log_file is None ==> out.log_entries@.len() == 0,
        config.log_file is Some ==> out.log_entries@.len() == (if out.total_usage_centi
            >= config.total_log_threshold_centi {
            1int
        } else {
            0int
        }) + (if out.processes@.len() > 0 && out.processes@[0].usage_centi
            >= config.process_log_threshold_centi {
            1int
        } else {
            0int
        }),
        out.console_text is Some <==> config.cli,
        (out.total_usage_centi < config.total_log_threshold_centi && (out.processes@.len() == 0
            || out.processes@[0].usage_centi < config.process_log_threshold_centi)) ==> (
        out.total_alert is None && out.process_alert is None && out.log_entries@.len() == 0),
{
    let ts = get_iso_time();
    evaluate_cycle(config, samples, ts.as_str())
}

} // verus!
