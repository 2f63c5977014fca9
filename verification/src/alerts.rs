//! Threshold checks and the alert messages they produce.
//!
//! Both checks are inclusive: a value exactly equal to its threshold
//! triggers the alert.

use vstd::prelude::*;
use vstd::string::StringExecFns;

use crate::numfmt::{dec_str, format_percent, percent_str, u64_to_string};
use crate::stats::{sorted_desc, ProcessStats};

verus! {

/// The system-wide alert message for a breached total threshold.
pub open spec fn total_alert_str(threshold_centi: nat, total_centi: nat) -> Seq<char> {
    "Total CPU usage threshold of "@ + percent_str(threshold_centi) + "% exceeded -> "@
        + percent_str(total_centi) + "%"@
}

/// The system-wide check. Returns the alert message exactly when the
/// measured total reaches the threshold.
pub fn total_alert(total_centi: u64, threshold_centi: u64) -> (r: Option<String>)
    ensures
        r.is_some() <==> total_centi >= threshold_centi,
        r matches Some(m) ==> m@ == total_alert_str(threshold_centi as nat, total_centi as nat),
{
    if total_centi >= threshold_centi {
        let mut out = "Total CPU usage threshold of ".to_owned();
        out.append(format_percent(threshold_centi).as_str());
        out.append("% exceeded -> ");
        out.append(format_percent(total_centi).as_str());
        out.append("%");
        proof {
            assert(out@ =~= total_alert_str(threshold_centi as nat, total_centi as nat));
        }
        Some(out)
    } else {
        None
    }
}

/// One line of the per-process alert message.
pub open spec fn process_alert_line(threshold_centi: nat, p: ProcessStats) -> Seq<char> {
    "Single process CPU usage threshold of "@ + percent_str(threshold_centi)
        + "% exceeded -> [Pid: "@ + dec_str(p.pid as nat) + "] Name: '"@ + p.name@ + "' Usage: "@
        + percent_str(p.usage_centi as nat) + "%"@
}

/// The lines of all given processes, one per line.
pub open spec fn process_alert_lines(threshold_centi: nat, s: Seq<ProcessStats>) -> Seq<char>
    decreases s.len(),
{
    if s.len() == 0 {
        Seq::empty()
    } else if s.len() == 1 {
        process_alert_line(threshold_centi, s[0])
    } else {
        process_alert_lines(threshold_centi, s.drop_last()) + "\n"@ + process_alert_line(
            threshold_centi,
            s.last(),
        )
    }
}

/// How many processes the per-process alert names: the walk down the
/// list stops at the first process below the threshold.
pub open spec fn alert_count(s: Seq<ProcessStats>, threshold_centi: u32) -> int
    decreases s.len(),
{
    if s.len() == 0 {
        0
    } else if s[0].usage_centi < threshold_centi {
        0
    } else {
        1 + alert_count(s.drop_first(), threshold_centi)
    }
}

/// What `alert_count` selects: a prefix of processes at or above the
/// threshold, ended by the list's end or by a process below it.
pub proof fn lemma_alert_count_props(s: Seq<ProcessStats>, threshold_centi: u32)
    ensures
        0 <= alert_count(s, threshold_centi) <= s.len(),
        forall|k: int|
            0 <= k < alert_count(s, threshold_centi) ==> s[k].usage_centi >= threshold_centi,
        alert_count(s, threshold_centi) < s.len() ==> s[alert_count(
            s,
            threshold_centi,
        )].usage_centi < threshold_centi,
    decreases s.len(),
{
    if s.len() > 0 && s[0].usage_centi >= threshold_centi {
        lemma_alert_count_props(s.drop_first(), threshold_centi);
        assert forall|k: int|
            0 <= k < alert_count(s, threshold_centi) implies s[k].usage_centi
            >= threshold_centi by {
            if k > 0 {
                assert(s.drop_first()[k - 1] == s[k]);
            }
        }
    }
}

/// Walking a prefix of processes at or above the threshold leaves the
/// count of the rest to the remaining list.
proof fn lemma_alert_count_skip(s: Seq<ProcessStats>, threshold_centi: u32, i: int)
    requires
        0 <= i <= s.len(),
        forall|k: int| 0 <= k < i ==> s[k].usage_centi >= threshold_centi,
    ensures
        alert_count(s, threshold_centi) == i + alert_count(s.skip(i), threshold_centi),
    decreases i,
{
    if i > 0 {
        lemma_alert_count_skip(s.drop_first(), threshold_centi, i - 1);
        assert(s.drop_first().skip(i - 1) =~= s.skip(i));
    } else {
        assert(s.skip(0) =~= s);
    }
}

/// On a list sorted descending by usage, the alerted processes are a
/// prefix: if the process at rank `k` is below the threshold, no
/// process at a later rank is selected.
pub proof fn lemma_alert_selection_prefix(s: Seq<ProcessStats>, threshold_centi: u32, k: int)
    requires
        sorted_desc(s),
        0 <= k < s.len(),
        s[k].usage_centi < threshold_centi,
    ensures
        alert_count(s, threshold_centi) <= k,
{
    lemma_alert_count_props(s, threshold_centi);
    if alert_count(s, threshold_centi) > k {
        assert(s[k].usage_centi >= threshold_centi);
    }
}

/// The per-process check: one message line for each process of the
/// leading run at or above the threshold, top of the list first, and
/// no message at all when even the first process is below it.
pub fn process_alerts(procs: &Vec<ProcessStats>, threshold_centi: u32) -> (r: Option<String>)
    ensures
        r.is_some() <==> (procs@.len() > 0 && procs@[0].usage_centi >= threshold_centi),
        r matches Some(m) ==> m@ == process_alert_lines(
            threshold_centi as nat,
            procs@.take(alert_count(procs@, threshold_centi)),
        ),
{
    let ghost total_count = alert_count(procs@, threshold_centi);
    let mut out: Option<String> = None;
    let mut i: usize = 0;
    while i < procs.len() && procs[i].usage_centi >= threshold_centi
        invariant
            i <= procs@.len(),
            forall|k: int| 0 <= k < i ==> procs@[k].usage_centi >= threshold_centi,
            out matches Some(m) ==> m@ == process_alert_lines(
                threshold_centi as nat,
                procs@.take(i as int),
            ),
            out.is_some() <==> i > 0,
        decreases procs@.len() - i,
    {
        let mut line = "Single process CPU usage threshold of ".to_owned();
        line.append(format_percent(threshold_centi as u64).as_str());
        line.append("% exceeded -> [Pid: ");
        line.append(u64_to_string(procs[i].pid).as_str());
        line.append("] Name: '");
        line.append(procs[i].name.as_str());
        line.append("' Usage: ");
        line.append(format_percent(procs[i].usage_centi as u64).as_str());
        line.append("%");
        proof {
            assert(line@ =~= process_alert_line(threshold_centi as nat, procs@[i as int]));
            assert(procs@.take(i + 1).drop_last() =~= procs@.take(i as int));
            assert(procs@.take(i + 1).last() == procs@[i as int]);
        }
        out = match out {
            None => Some(line),
            Some(mut msg) => {
                msg.append("\n");
                msg.append(line.as_str());
                Some(msg)
            },
        };
        i = i + 1;
    }
    proof {
        lemma_alert_count_skip(procs@, threshold_centi, i as int);
        if i < procs@.len() {
            assert(procs@.skip(i as int)[0] == procs@[i as int]);
        }
        assert(alert_count(procs@, threshold_centi) == i);
    }
    out
}

} // verus!
