//! The fixed-width bordered table of the top CPU consumers.

use vstd::prelude::*;
use vstd::string::StringExecFns;

use crate::numfmt::{dec_str, format_percent, percent_str, u64_to_string};
use crate::stats::ProcessStats;
use crate::textfmt::{centered, left_aligned, pad_centered, pad_left_aligned, repeat_char};

verus! {

/// One table row: pid, name and usage, in columns of 10, 50 and 10
/// content characters. Longer content widens the row.
pub open spec fn row_str(p: ProcessStats) -> Seq<char> {
    "| "@ + left_aligned(dec_str(p.pid as nat), 10, ' ') + " | "@ + left_aligned(
        p.name@,
        50,
        ' ',
    ) + " | "@ + left_aligned(percent_str(p.usage_centi as nat) + " %"@, 10, ' ') + " |"@
}

/// The rows of all given processes, one per line.
pub open spec fn rows_str(s: Seq<ProcessStats>) -> Seq<char>
    decreases s.len(),
{
    if s.len() == 0 {
        Seq::empty()
    } else if s.len() == 1 {
        row_str(s[0])
    } else {
        rows_str(s.drop_last()) + "\n"@ + row_str(s.last())
    }
}

/// How many of the list's processes the table shows: the first
/// `shown`, or all of them if there are fewer.
pub open spec fn shown_count(s: Seq<ProcessStats>, shown: int) -> int {
    if shown <= s.len() {
        shown
    } else {
        s.len() as int
    }
}

/// The whole table: a centered header, the centered total and
/// timestamp lines, the column headers, one row per shown process, and
/// the dividers, all 80 columns wide at minimum.
pub open spec fn table_str(
    s: Seq<ProcessStats>,
    total_centi: nat,
    shown: int,
    ts: Seq<char>,
) -> Seq<char> {
    centered("CPU usage"@, 80, '-') + "\n"@ + "|"@ + centered(
        percent_str(total_centi) + " %"@,
        78,
        ' ',
    ) + "|"@ + "\n"@ + "|"@ + centered(ts, 78, ' ') + "|"@ + "\n"@ + repeat_char('-', 80) + "\n"@
        + "| "@ + left_aligned("PID"@, 10, ' ') + " | "@ + left_aligned("Name"@, 50, ' ') + " | "@
        + left_aligned("Usage"@, 10, ' ') + " |"@ + "\n"@ + "|"@ + repeat_char('-', 12) + "|"@
        + repeat_char('-', 52) + "|"@ + repeat_char('-', 12) + "|"@ + "\n"@ + rows_str(
        s.take(shown_count(s, shown)),
    ) + "\n"@ + repeat_char('-', 80)
}

/// One rendered row for the process `p`.
fn format_row(p: &ProcessStats) -> (r: String)
    ensures
        r@ == row_str(*p),
{
    proof {
        reveal_strlit(" ");
        assert(" "@ =~= seq![' ']);
    }
    let mut out = "| ".to_owned();
    out.append(pad_left_aligned(u64_to_string(p.pid).as_str(), 10, " ", Ghost(' ')).as_str());
    out.append(" | ");
    out.append(pad_left_aligned(p.name.as_str(), 50, " ", Ghost(' ')).as_str());
    out.append(" | ");
    let mut usage = format_percent(p.usage_centi as u64);
    usage.append(" %");
    out.append(pad_left_aligned(usage.as_str(), 10, " ", Ghost(' ')).as_str());
    out.append(" |");
    proof {
        assert(out@ =~= row_str(*p));
    }
    out
}

/// Renders the table of the `shown` highest entries of `procs` (all of
/// them if there are fewer), with the given system-wide total and the
/// given timestamp line.
pub fn format_stats(procs: &Vec<ProcessStats>, total_centi: u64, shown: usize, timestamp: &str) -> (r:
    String)
    ensures
        r@ == table_str(procs@, total_centi as nat, shown as int, timestamp@),
{
    proof {
        reveal_strlit(" ");
        reveal_strlit("-");
        assert(" "@ =~= seq![' ']);
        assert("-"@ =~= seq!['-']);
    }
    let mut out = pad_centered("CPU usage", 80, "-", Ghost('-'));
    out.append("\n");
    out.append("|");
    let mut total_text = format_percent(total_centi);
    total_text.append(" %");
    out.append(pad_centered(total_text.as_str(), 78, " ", Ghost(' ')).as_str());
    out.append("|");
    out.append("\n");
    out.append("|");
    out.append(pad_centered(timestamp, 78, " ", Ghost(' ')).as_str());
    out.append("|");
    out.append("\n");
    crate::textfmt::append_fill(&mut out, "-", 80, Ghost('-'));
    out.append("\n");
    out.append("| ");
    out.append(pad_left_aligned("PID", 10, " ", Ghost(' ')).as_str());
    out.append(" | ");
    out.append(pad_left_aligned("Name", 50, " ", Ghost(' ')).as_str());
    out.append(" | ");
    out.append(pad_left_aligned("Usage", 10, " ", Ghost(' ')).as_str());
    out.append(" |");
    out.append("\n");
    out.append("|");
    crate::textfmt::append_fill(&mut out, "-", 12, Ghost('-'));
    out.append("|");
    crate::textfmt::append_fill(&mut out, "-", 52, Ghost('-'));
    out.append("|");
    crate::textfmt::append_fill(&mut out, "-", 12, Ghost('-'));
    out.append("|");
    out.append("\n");

    let count: usize = if shown <= procs.len() {
        shown
    } else {
        procs.len()
    };
    let ghost shown_procs = procs@.take(shown_count(procs@, shown as int));
    let mut rows = String::new();
    let mut i: usize = 0;
    while i < count
        invariant
            i <= count,
            count as int == shown_count(procs@, shown as int),
            count <= procs@.len(),
            shown_procs == procs@.take(shown_count(procs@, shown as int)),
            rows@ == rows_str(shown_procs.take(i as int)),
        decreases count - i,
    {
        if i > 0 {
            rows.append("\n");
        }
        let row = format_row(&procs[i]);
        rows.append(row.as_str());
        proof {
            assert(shown_procs.take(i + 1).drop_last() =~= shown_procs.take(i as int));
            assert(shown_procs.take(i + 1).last() == procs@[i as int]);
            assert(rows@ =~= rows_str(shown_procs.take(i + 1)));
        }
        i = i + 1;
    }
    proof {
        assert(shown_procs.take(count as int) =~= shown_procs);
    }
    out.append(rows.as_str());
    out.append("\n");
    crate::textfmt::append_fill(&mut out, "-", 80, Ghost('-'));
    proof {
        assert(out@ =~= table_str(procs@, total_centi as nat, shown as int, timestamp@));
    }
    out
}

} // verus!
